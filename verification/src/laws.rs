//! The guarantees the orchestrator gives, proved once and for all over the
//! cluster model: idempotence of each step, convergence of one successful
//! pass from any prior state, guaranteed absence when disabled, standby
//! independence, and fail-fast error propagation.

use vstd::prelude::*;
use crate::config::{DedicatedNetworkingConfigView, InstanceIdentityView, Role, networking_on};
use crate::descriptors::service_descriptor_view;
use crate::naming::policy_name_view;
use crate::orchestrator::{ClusterStateView, ErrorKind, ReconcileErrorView, StepView, desired_state, fold_effects, lemma_run_success_state, plan_view, run_steps, step_effect};

verus! {

/// Applying the same step twice leaves exactly the state one application
/// leaves: re-applying an unchanged descriptor, or re-deleting an absent
/// object, changes nothing further.
pub proof fn lemma_apply_idempotent(s: ClusterStateView, step: StepView)
    ensures
        step_effect(step_effect(s, step), step) == step_effect(s, step),
{
    assert(step_effect(step_effect(s, step), step) =~= step_effect(s, step));
}

/// One reconciliation pass whose remote calls all completed leaves exactly
/// the desired object set, whatever the cluster held before: the plan's
/// three steps overwrite or empty every slot.
pub proof fn lemma_reconcile_converges(
    s: ClusterStateView,
    inst: InstanceIdentityView,
    cfg: Option<DedicatedNetworkingConfigView>,
    ip_allow_list: Seq<Seq<char>>,
    policy_cidrs: Seq<Seq<char>>,
    basedomain: Seq<char>,
    ok: Seq<bool>,
)
    requires
        run_steps(s, plan_view(inst, cfg, ip_allow_list, policy_cidrs, basedomain), ok).1 is None,
    ensures
        run_steps(s, plan_view(inst, cfg, ip_allow_list, policy_cidrs, basedomain), ok).0
            == desired_state(inst, cfg, ip_allow_list, policy_cidrs, basedomain),
{
    let plan = plan_view(inst, cfg, ip_allow_list, policy_cidrs, basedomain);
    lemma_run_success_state(s, plan, ok);
    let s1 = step_effect(s, plan[0]);
    let s2 = step_effect(s1, plan[1]);
    let s3 = step_effect(s2, plan[2]);
    assert(plan.len() == 3);
    assert(plan.drop_first()[0] == plan[1]);
    assert(plan.drop_first().drop_first()[0] == plan[2]);
    assert(plan.drop_first().drop_first().drop_first().len() == 0);
    assert(fold_effects(s, plan) == fold_effects(s1, plan.drop_first()));
    assert(fold_effects(s1, plan.drop_first()) == fold_effects(s2, plan.drop_first().drop_first()));
    assert(fold_effects(s2, plan.drop_first().drop_first()) == fold_effects(
        s3,
        plan.drop_first().drop_first().drop_first(),
    ));
    assert(fold_effects(s3, plan.drop_first().drop_first().drop_first()) == s3);
    assert(fold_effects(s, plan) == s3);
    assert(s3 =~= desired_state(inst, cfg, ip_allow_list, policy_cidrs, basedomain));
}

/// When the configuration is absent or disabled, one successful pass leaves
/// the policy and both services absent, regardless of what existed before.
pub proof fn lemma_disable_guarantees_absence(
    s: ClusterStateView,
    inst: InstanceIdentityView,
    cfg: Option<DedicatedNetworkingConfigView>,
    ip_allow_list: Seq<Seq<char>>,
    policy_cidrs: Seq<Seq<char>>,
    basedomain: Seq<char>,
    ok: Seq<bool>,
)
    requires
        !networking_on(cfg),
        run_steps(s, plan_view(inst, cfg, ip_allow_list, policy_cidrs, basedomain), ok).1 is None,
    ensures
        run_steps(s, plan_view(inst, cfg, ip_allow_list, policy_cidrs, basedomain), ok).0
            == (ClusterStateView { policy: None, primary: None, standby: None }),
{
    lemma_reconcile_converges(s, inst, cfg, ip_allow_list, policy_cidrs, basedomain, ok);
}

/// Toggling `includeStandby` off while staying enabled removes only the
/// standby service: a successful pass with the toggled configuration leaves
/// the policy and the primary service exactly as the previous successful
/// pass left them, and empties the standby slot.
pub proof fn lemma_standby_independence(
    s: ClusterStateView,
    inst: InstanceIdentityView,
    with_standby: DedicatedNetworkingConfigView,
    without_standby: DedicatedNetworkingConfigView,
    ip_allow_list: Seq<Seq<char>>,
    policy_cidrs: Seq<Seq<char>>,
    basedomain: Seq<char>,
    ok1: Seq<bool>,
    ok2: Seq<bool>,
)
    requires
        with_standby.enabled,
        with_standby.include_standby,
        without_standby == (DedicatedNetworkingConfigView { include_standby: false, ..with_standby }),
        run_steps(s, plan_view(inst, Some(with_standby), ip_allow_list, policy_cidrs, basedomain), ok1).1 is None,
        run_steps(
            run_steps(s, plan_view(inst, Some(with_standby), ip_allow_list, policy_cidrs, basedomain), ok1).0,
            plan_view(inst, Some(without_standby), ip_allow_list, policy_cidrs, basedomain),
            ok2,
        ).1 is None,
    ensures
        ({
            let first = run_steps(s, plan_view(inst, Some(with_standby), ip_allow_list, policy_cidrs, basedomain), ok1).0;
            let second = run_steps(first, plan_view(inst, Some(without_standby), ip_allow_list, policy_cidrs, basedomain), ok2).0;
            second.policy == first.policy && second.primary == first.primary && second.standby is None
                && first.standby == Some(service_descriptor_view(inst, Role::Standby, with_standby, ip_allow_list, basedomain))
        }),
{
    let first = run_steps(s, plan_view(inst, Some(with_standby), ip_allow_list, policy_cidrs, basedomain), ok1).0;
    lemma_reconcile_converges(s, inst, Some(with_standby), ip_allow_list, policy_cidrs, basedomain, ok1);
    lemma_reconcile_converges(first, inst, Some(without_standby), ip_allow_list, policy_cidrs, basedomain, ok2);
    assert(service_descriptor_view(inst, Role::Primary, without_standby, ip_allow_list, basedomain)
        =~= service_descriptor_view(inst, Role::Primary, with_standby, ip_allow_list, basedomain));
}

/// Re-running the plan on an already converged cluster converges to the
/// same state: a successful pass after a successful pass observes no
/// further change.
pub proof fn lemma_reconcile_idempotent(
    s: ClusterStateView,
    inst: InstanceIdentityView,
    cfg: Option<DedicatedNetworkingConfigView>,
    ip_allow_list: Seq<Seq<char>>,
    policy_cidrs: Seq<Seq<char>>,
    basedomain: Seq<char>,
    ok1: Seq<bool>,
    ok2: Seq<bool>,
)
    requires
        run_steps(s, plan_view(inst, cfg, ip_allow_list, policy_cidrs, basedomain), ok1).1 is None,
        run_steps(
            run_steps(s, plan_view(inst, cfg, ip_allow_list, policy_cidrs, basedomain), ok1).0,
            plan_view(inst, cfg, ip_allow_list, policy_cidrs, basedomain),
            ok2,
        ).1 is None,
    ensures
        run_steps(
            run_steps(s, plan_view(inst, cfg, ip_allow_list, policy_cidrs, basedomain), ok1).0,
            plan_view(inst, cfg, ip_allow_list, policy_cidrs, basedomain),
            ok2,
        ).0 == run_steps(s, plan_view(inst, cfg, ip_allow_list, policy_cidrs, basedomain), ok1).0,
{
    let first = run_steps(s, plan_view(inst, cfg, ip_allow_list, policy_cidrs, basedomain), ok1).0;
    lemma_reconcile_converges(s, inst, cfg, ip_allow_list, policy_cidrs, basedomain, ok1);
    lemma_reconcile_converges(first, inst, cfg, ip_allow_list, policy_cidrs, basedomain, ok2);
}

/// When the policy apply fails, no service step is attempted: the cluster
/// is left exactly as it was, and the pass surfaces the policy error.
pub proof fn lemma_fail_fast(
    s: ClusterStateView,
    inst: InstanceIdentityView,
    cfg: Option<DedicatedNetworkingConfigView>,
    ip_allow_list: Seq<Seq<char>>,
    policy_cidrs: Seq<Seq<char>>,
    basedomain: Seq<char>,
    ok: Seq<bool>,
)
    requires
        networking_on(cfg),
        ok.len() >= 1,
        !ok[0],
    ensures
        run_steps(s, plan_view(inst, cfg, ip_allow_list, policy_cidrs, basedomain), ok)
            == (s, Some(ReconcileErrorView {
                kind: ErrorKind::Policy,
                name: policy_name_view(inst.name),
                namespace: inst.namespace,
            })),
{
}

} // verus!
