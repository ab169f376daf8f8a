//! The dedicated-networking orchestrator: from the instance's desired
//! configuration it derives the ordered apply/delete steps, and the cluster
//! model says what each step does to the live object set.  The runner
//! executes a plan against the model fail-fast: the first failing remote
//! step aborts the rest, and a delete whose object is already absent makes
//! no remote call at all, so it cannot fail.

use vstd::prelude::*;
use crate::config::{DedicatedNetworkingConfig, DedicatedNetworkingConfigView, InstanceIdentity, InstanceIdentityView, Role, config_view, networking_on};
use crate::descriptors::{NetworkPolicyDescriptor, NetworkPolicyDescriptorView, ServiceDescriptor, ServiceDescriptorView, build_network_policy, build_service_descriptor, network_policy_view, service_descriptor_view};
use crate::naming::{policy_name, policy_name_view, service_name, service_name_view};
use crate::text::str_views;

verus! {

/// Which of the two operation families a failure came from.
#[derive(Clone, Copy, Debug, PartialEq, Eq, Structural)]
pub enum ErrorKind {
    Policy,
    Service,
}

/// A failed remote step, tagged with the object it was about.
pub struct ReconcileError {
    pub kind: ErrorKind,
    pub name: String,
    pub namespace: String,
}

#[verifier::ext_equal]
pub struct ReconcileErrorView {
    pub kind: ErrorKind,
    pub name: Seq<char>,
    pub namespace: Seq<char>,
}

impl View for ReconcileError {
    type V = ReconcileErrorView;

    open spec fn view(&self) -> ReconcileErrorView {
        ReconcileErrorView { kind: self.kind, name: self.name@, namespace: self.namespace@ }
    }
}

/// One remote operation of a reconciliation pass.
pub enum Step {
    ApplyPolicy(NetworkPolicyDescriptor),
    DeletePolicy { name: String, namespace: String },
    ApplyService { role: Role, descriptor: ServiceDescriptor },
    DeleteService { role: Role, name: String, namespace: String },
}

pub enum StepView {
    ApplyPolicy(NetworkPolicyDescriptorView),
    DeletePolicy { name: Seq<char>, namespace: Seq<char> },
    ApplyService { role: Role, descriptor: ServiceDescriptorView },
    DeleteService { role: Role, name: Seq<char>, namespace: Seq<char> },
}

impl View for Step {
    type V = StepView;

    open spec fn view(&self) -> StepView {
        match self {
            Step::ApplyPolicy(d) => StepView::ApplyPolicy(d@),
            Step::DeletePolicy { name, namespace } => StepView::DeletePolicy {
                name: name@,
                namespace: namespace@,
            },
            Step::ApplyService { role, descriptor } => StepView::ApplyService {
                role: *role,
                descriptor: descriptor@,
            },
            Step::DeleteService { role, name, namespace } => StepView::DeleteService {
                role: *role,
                name: name@,
                namespace: namespace@,
            },
        }
    }
}

/// The views of a sequence of steps.
pub open spec fn step_views(v: Seq<Step>) -> Seq<StepView> {
    v.map_values(|s: Step| s@)
}

/// What of the instance's dedicated networking exists in the cluster: the
/// policy and the two service slots, each absent or present with a
/// descriptor.
pub struct ClusterState {
    pub policy: Option<NetworkPolicyDescriptor>,
    pub primary: Option<ServiceDescriptor>,
    pub standby: Option<ServiceDescriptor>,
}

#[verifier::ext_equal]
pub struct ClusterStateView {
    pub policy: Option<NetworkPolicyDescriptorView>,
    pub primary: Option<ServiceDescriptorView>,
    pub standby: Option<ServiceDescriptorView>,
}

impl View for ClusterState {
    type V = ClusterStateView;

    open spec fn view(&self) -> ClusterStateView {
        ClusterStateView {
            policy: match &self.policy {
                Some(p) => Some(p@),
                None => None,
            },
            primary: match &self.primary {
                Some(s) => Some(s@),
                None => None,
            },
            standby: match &self.standby {
                Some(s) => Some(s@),
                None => None,
            },
        }
    }
}

impl ClusterState {
    /// A cluster holding none of the instance's networking objects.
    pub fn empty() -> (r: ClusterState)
        ensures
            r@ == (ClusterStateView { policy: None, primary: None, standby: None }),
    {
        ClusterState { policy: None, primary: None, standby: None }
    }
}

/// The state a completed step leaves behind: an apply upserts its slot to
/// exactly its descriptor, a delete empties its slot.
pub open spec fn step_effect(s: ClusterStateView, step: StepView) -> ClusterStateView {
    match step {
        StepView::ApplyPolicy(d) => ClusterStateView { policy: Some(d), ..s },
        StepView::DeletePolicy { .. } => ClusterStateView { policy: None, ..s },
        StepView::ApplyService { role, descriptor } => if role == Role::Primary {
            ClusterStateView { primary: Some(descriptor), ..s }
        } else {
            ClusterStateView { standby: Some(descriptor), ..s }
        },
        StepView::DeleteService { role, .. } => if role == Role::Primary {
            ClusterStateView { primary: None, ..s }
        } else {
            ClusterStateView { standby: None, ..s }
        },
    }
}

/// Whether a step makes a remote call at all: a delete checks first and
/// skips the call when the object is already absent, so only a delete of a
/// present object or any apply goes to the gateway.
pub open spec fn step_attempts_remote(s: ClusterStateView, step: StepView) -> bool {
    match step {
        StepView::ApplyPolicy(_) => true,
        StepView::DeletePolicy { .. } => s.policy is Some,
        StepView::ApplyService { .. } => true,
        StepView::DeleteService { role, .. } => if role == Role::Primary {
            s.primary is Some
        } else {
            s.standby is Some
        },
    }
}

/// The error a failing step surfaces: its kind and the name and namespace
/// of the object it was about.
pub open spec fn step_error(step: StepView) -> ReconcileErrorView {
    match step {
        StepView::ApplyPolicy(d) => ReconcileErrorView {
            kind: ErrorKind::Policy,
            name: d.name,
            namespace: d.namespace,
        },
        StepView::DeletePolicy { name, namespace } => ReconcileErrorView {
            kind: ErrorKind::Policy,
            name: name,
            namespace: namespace,
        },
        StepView::ApplyService { descriptor, .. } => ReconcileErrorView {
            kind: ErrorKind::Service,
            name: descriptor.name,
            namespace: descriptor.namespace,
        },
        StepView::DeleteService { name, namespace, .. } => ReconcileErrorView {
            kind: ErrorKind::Service,
            name: name,
            namespace: namespace,
        },
    }
}

/// Runs steps in order; `ok[i]` is the outcome of step `i`'s remote call.
/// A step that makes no remote call always completes.  The first failure
/// aborts the rest: no later step's effect happens and its error is
/// returned.
pub open spec fn run_steps(s: ClusterStateView, steps: Seq<StepView>, ok: Seq<bool>) -> (
    ClusterStateView,
    Option<ReconcileErrorView>,
)
    decreases steps.len(),
{
    if steps.len() == 0 {
        (s, None)
    } else if ok[0] || !step_attempts_remote(s, steps[0]) {
        run_steps(step_effect(s, steps[0]), steps.drop_first(), ok.drop_first())
    } else {
        (s, Some(step_error(steps[0])))
    }
}

/// The state left by running every step, with no failure anywhere.
pub open spec fn fold_effects(s: ClusterStateView, steps: Seq<StepView>) -> ClusterStateView
    decreases steps.len(),
{
    if steps.len() == 0 {
        s
    } else {
        fold_effects(step_effect(s, steps[0]), steps.drop_first())
    }
}

/// A run that reports no failure has applied every step's effect.
pub proof fn lemma_run_success_state(s: ClusterStateView, steps: Seq<StepView>, ok: Seq<bool>)
    requires
        run_steps(s, steps, ok).1 is None,
    ensures
        run_steps(s, steps, ok).0 == fold_effects(s, steps),
    decreases steps.len(),
{
    if steps.len() == 0 {
    } else if ok[0] || !step_attempts_remote(s, steps[0]) {
        lemma_run_success_state(step_effect(s, steps[0]), steps.drop_first(), ok.drop_first());
    }
}

/// The ordered steps one reconciliation pass performs.  Enabled: apply the
/// policy, apply the primary service, then apply or delete the standby
/// service by `includeStandby`.  Disabled or unconfigured: delete the
/// policy, the primary service and the standby service.  Always exactly
/// three steps.
pub open spec fn plan_view(
    inst: InstanceIdentityView,
    cfg: Option<DedicatedNetworkingConfigView>,
    ip_allow_list: Seq<Seq<char>>,
    policy_cidrs: Seq<Seq<char>>,
    basedomain: Seq<char>,
) -> Seq<StepView> {
    if networking_on(cfg) {
        let c = cfg->Some_0;
        seq![
            StepView::ApplyPolicy(network_policy_view(inst, policy_cidrs)),
            StepView::ApplyService {
                role: Role::Primary,
                descriptor: service_descriptor_view(inst, Role::Primary, c, ip_allow_list, basedomain),
            },
            if c.include_standby {
                StepView::ApplyService {
                    role: Role::Standby,
                    descriptor: service_descriptor_view(inst, Role::Standby, c, ip_allow_list, basedomain),
                }
            } else {
                StepView::DeleteService {
                    role: Role::Standby,
                    name: service_name_view(inst.name, Role::Standby),
                    namespace: inst.namespace,
                }
            },
        ]
    } else {
        seq![
            StepView::DeletePolicy { name: policy_name_view(inst.name), namespace: inst.namespace },
            StepView::DeleteService {
                role: Role::Primary,
                name: service_name_view(inst.name, Role::Primary),
                namespace: inst.namespace,
            },
            StepView::DeleteService {
                role: Role::Standby,
                name: service_name_view(inst.name, Role::Standby),
                namespace: inst.namespace,
            },
        ]
    }
}

/// The object set the configuration asks for: everything absent when
/// disabled or unconfigured; when enabled, the policy and primary service
/// present, and the standby service present exactly when `includeStandby`.
pub open spec fn desired_state(
    inst: InstanceIdentityView,
    cfg: Option<DedicatedNetworkingConfigView>,
    ip_allow_list: Seq<Seq<char>>,
    policy_cidrs: Seq<Seq<char>>,
    basedomain: Seq<char>,
) -> ClusterStateView {
    if networking_on(cfg) {
        let c = cfg->Some_0;
        ClusterStateView {
            policy: Some(network_policy_view(inst, policy_cidrs)),
            primary: Some(service_descriptor_view(inst, Role::Primary, c, ip_allow_list, basedomain)),
            standby: if c.include_standby {
                Some(service_descriptor_view(inst, Role::Standby, c, ip_allow_list, basedomain))
            } else {
                None
            },
        }
    } else {
        ClusterStateView { policy: None, primary: None, standby: None }
    }
}

/// Builds the plan for one reconciliation pass.
pub fn plan_dedicated_networking(
    instance: &InstanceIdentity,
    config: &Option<DedicatedNetworkingConfig>,
    ip_allow_list: &Vec<String>,
    policy_cidrs: &Vec<String>,
    basedomain: &str,
) -> (r: Vec<Step>)
    ensures
        step_views(r@) == plan_view(
            instance@,
            config_view(config),
            str_views(ip_allow_list@),
            str_views(policy_cidrs@),
            basedomain@,
        ),
        r@.len() == 3,
{
    let mut steps: Vec<Step> = Vec::new();
    let enabled_config: Option<&DedicatedNetworkingConfig> = match config {
        Some(c) if c.enabled => Some(c),
        _ => None,
    };
    match enabled_config {
        Some(c) => {
            steps.push(Step::ApplyPolicy(build_network_policy(instance, policy_cidrs)));
            steps.push(Step::ApplyService {
                role: Role::Primary,
                descriptor: build_service_descriptor(instance, Role::Primary, c, ip_allow_list, basedomain),
            });
            if c.include_standby {
                steps.push(Step::ApplyService {
                    role: Role::Standby,
                    descriptor: build_service_descriptor(instance, Role::Standby, c, ip_allow_list, basedomain),
                });
            } else {
                steps.push(Step::DeleteService {
                    role: Role::Standby,
                    name: service_name(instance.name.as_str(), Role::Standby),
                    namespace: instance.namespace.clone(),
                });
            }
        },
        None => {
            steps.push(Step::DeletePolicy {
                name: policy_name(instance.name.as_str()),
                namespace: instance.namespace.clone(),
            });
            steps.push(Step::DeleteService {
                role: Role::Primary,
                name: service_name(instance.name.as_str(), Role::Primary),
                namespace: instance.namespace.clone(),
            });
            steps.push(Step::DeleteService {
                role: Role::Standby,
                name: service_name(instance.name.as_str(), Role::Standby),
                namespace: instance.namespace.clone(),
            });
        },
    }
    proof {
        assert(step_views(steps@) =~= plan_view(
            instance@,
            config_view(config),
            str_views(ip_allow_list@),
            str_views(policy_cidrs@),
            basedomain@,
        ));
    }
    steps
}

/// Completes one step against the cluster model.
pub fn apply_step(state: &mut ClusterState, step: Step)
    ensures
        final(state)@ == step_effect(old(state)@, step@),
{
    match step {
        Step::ApplyPolicy(d) => {
            state.policy = Some(d);
        },
        Step::DeletePolicy { .. } => {
            state.policy = None;
        },
        Step::ApplyService { role, descriptor } => {
            match role {
                Role::Primary => {
                    state.primary = Some(descriptor);
                },
                Role::Standby => {
                    state.standby = Some(descriptor);
                },
            }
        },
        Step::DeleteService { role, .. } => {
            match role {
                Role::Primary => {
                    state.primary = None;
                },
                Role::Standby => {
                    state.standby = None;
                },
            }
        },
    }
}

fn step_is_silent(state: &ClusterState, step: &Step) -> (r: bool)
    ensures
        r == !step_attempts_remote(state@, step@),
{
    match step {
        Step::ApplyPolicy(_) => false,
        Step::DeletePolicy { .. } => state.policy.is_none(),
        Step::ApplyService { .. } => false,
        Step::DeleteService { role, .. } => match role {
            Role::Primary => state.primary.is_none(),
            Role::Standby => state.standby.is_none(),
        },
    }
}

fn step_failure(step: &Step) -> (r: ReconcileError)
    ensures
        r@ == step_error(step@),
{
    match step {
        Step::ApplyPolicy(d) => ReconcileError {
            kind: ErrorKind::Policy,
            name: d.name.clone(),
            namespace: d.namespace.clone(),
        },
        Step::DeletePolicy { name, namespace } => ReconcileError {
            kind: ErrorKind::Policy,
            name: name.clone(),
            namespace: namespace.clone(),
        },
        Step::ApplyService { descriptor, .. } => ReconcileError {
            kind: ErrorKind::Service,
            name: descriptor.name.clone(),
            namespace: descriptor.namespace.clone(),
        },
        Step::DeleteService { name, namespace, .. } => ReconcileError {
            kind: ErrorKind::Service,
            name: name.clone(),
            namespace: namespace.clone(),
        },
    }
}

/// Runs a plan against the cluster model, fail-fast; `outcomes[i]` is the
/// result the gateway would return for step `i`'s remote call.
#[verifier::loop_isolation(false)]
pub fn run_plan(state: &mut ClusterState, plan: Vec<Step>, outcomes: &Vec<bool>) -> (r: Result<
    (),
    ReconcileError,
>)
    requires
        outcomes@.len() == plan@.len(),
    ensures
        final(state)@ == run_steps(old(state)@, step_views(plan@), outcomes@).0,
        (match r {
            Ok(()) => run_steps(old(state)@, step_views(plan@), outcomes@).1 is None,
            Err(e) => run_steps(old(state)@, step_views(plan@), outcomes@).1 == Some(e@),
        }),
{
    let ghost all_steps = step_views(plan@);
    let ghost all_ok = outcomes@;
    let total = outcomes.len();
    let mut steps = plan;
    let mut i: usize = 0;
    proof {
        assert(step_views(steps@) =~= all_steps);
        assert(all_steps.skip(0) =~= all_steps);
        assert(all_ok.skip(0) =~= all_ok);
    }
    while steps.len() > 0
        invariant
            i + steps@.len() == all_steps.len(),
            all_steps.len() == total,
            all_ok.len() == all_steps.len(),
            step_views(steps@) =~= all_steps.skip(i as int),
            run_steps(old(state)@, all_steps, all_ok) == run_steps(
                state@,
                step_views(steps@),
                all_ok.skip(i as int),
            ),
        decreases steps@.len(),
    {
        let step = steps.remove(0);
        proof {
            assert(i < all_ok.len());
            assert(step_views(steps@) =~= all_steps.skip(i as int).drop_first());
            assert(all_steps.skip(i as int)[0] == step@);
            assert(all_ok.skip(i as int)[0] == all_ok[i as int]);
            assert(all_ok.skip(i as int).drop_first() =~= all_ok.skip(i as int + 1));
            assert(all_steps.skip(i as int).drop_first() =~= all_steps.skip(i as int + 1));
        }
        let silent = step_is_silent(state, &step);
        if outcomes[i] || silent {
            apply_step(state, step);
            i += 1;
        } else {
            let e = step_failure(&step);
            return Err(e);
        }
    }
    proof {
        assert(step_views(steps@).len() == 0);
    }
    Ok(())
}

/// One reconciliation pass over the cluster model: derives the plan from
/// the configuration and runs it fail-fast.  `outcomes` supplies the result
/// of each of the three remote calls, in plan order.
pub fn reconcile_dedicated_networking(
    state: &mut ClusterState,
    instance: &InstanceIdentity,
    config: &Option<DedicatedNetworkingConfig>,
    ip_allow_list: &Vec<String>,
    policy_cidrs: &Vec<String>,
    basedomain: &str,
    outcomes: &Vec<bool>,
) -> (r: Result<(), ReconcileError>)
    requires
        outcomes@.len() == 3,
    ensures
        ({
            let plan = plan_view(
                instance@,
                config_view(config),
                str_views(ip_allow_list@),
                str_views(policy_cidrs@),
                basedomain@,
            );
            final(state)@ == run_steps(old(state)@, plan, outcomes@).0 && (match r {
                Ok(()) => run_steps(old(state)@, plan, outcomes@).1 is None,
                Err(e) => run_steps(old(state)@, plan, outcomes@).1 == Some(e@),
            })
        }),
{
    let plan = plan_dedicated_networking(instance, config, ip_allow_list, policy_cidrs, basedomain);
    run_plan(state, plan, outcomes)
}

} // verus!
