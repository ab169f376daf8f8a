use dedicated_networking::config::{DedicatedNetworkingConfig, InstanceIdentity, NetworkingMode, Role, networking_mode};
use dedicated_networking::descriptors::build_service_descriptor;
use dedicated_networking::orchestrator::{ClusterState, ErrorKind, reconcile_dedicated_networking};

fn demo_instance() -> InstanceIdentity {
    InstanceIdentity {
        name: "demo".to_string(),
        namespace: "ns1".to_string(),
        uid: "uid-123".to_string(),
    }
}

fn config(enabled: bool, include_standby: bool) -> Option<DedicatedNetworkingConfig> {
    Some(DedicatedNetworkingConfig {
        enabled,
        public: true,
        include_standby,
        service_type: "LoadBalancer".to_string(),
    })
}

fn allow_list() -> Vec<String> {
    vec!["1.2.3.4".to_string()]
}

fn policy_cidrs() -> Vec<String> {
    vec!["10.0.0.0/8".to_string()]
}

fn reconcile(state: &mut ClusterState, desired: &Option<DedicatedNetworkingConfig>) {
    let outcomes = vec![true, true, true];
    let r = reconcile_dedicated_networking(
        state,
        &demo_instance(),
        desired,
        &allow_list(),
        &policy_cidrs(),
        "example.com",
        &outcomes,
    );
    assert!(r.is_ok());
}

// The four prior states of the convergence table.
fn existing_none() -> ClusterState {
    ClusterState::empty()
}

fn existing_primary_only() -> ClusterState {
    let mut s = ClusterState::empty();
    reconcile(&mut s, &config(true, false));
    s
}

fn existing_primary_and_standby() -> ClusterState {
    let mut s = ClusterState::empty();
    reconcile(&mut s, &config(true, true));
    s
}

fn existing_standby_only_stale() -> ClusterState {
    ClusterState {
        policy: None,
        primary: None,
        standby: Some(build_service_descriptor(
            &demo_instance(),
            Role::Standby,
            &config(true, true).unwrap(),
            &allow_list(),
            "example.com",
        )),
    }
}

fn existence(s: &ClusterState) -> (bool, bool, bool) {
    (s.policy.is_some(), s.primary.is_some(), s.standby.is_some())
}

#[test]
fn convergence_from_any_state() {
    let priors: [fn() -> ClusterState; 4] = [
        existing_none,
        existing_primary_only,
        existing_primary_and_standby,
        existing_standby_only_stale,
    ];
    let desired: [(Option<DedicatedNetworkingConfig>, (bool, bool, bool)); 4] = [
        (None, (false, false, false)),
        (config(false, true), (false, false, false)),
        (config(true, false), (true, true, false)),
        (config(true, true), (true, true, true)),
    ];
    for prior in priors.iter() {
        for (cfg, expected) in desired.iter() {
            let mut state = prior();
            reconcile(&mut state, cfg);
            assert_eq!(existence(&state), *expected);
        }
    }
}

#[test]
fn disable_guarantees_absence() {
    let mut state = existing_primary_and_standby();
    assert_eq!(existence(&state), (true, true, true));
    reconcile(&mut state, &config(false, true));
    assert_eq!(existence(&state), (false, false, false));

    let mut state = existing_primary_only();
    reconcile(&mut state, &None);
    assert_eq!(existence(&state), (false, false, false));
}

#[test]
fn standby_toggle_leaves_primary_untouched() {
    let mut state = existing_primary_and_standby();
    let policy_before = state.policy.as_ref().unwrap().name.clone();
    let primary_before = state.primary.as_ref().unwrap();
    let primary_name = primary_before.name.clone();
    let primary_scheme = primary_before.annotations.lb_scheme.clone();
    let primary_ranges = primary_before.source_ranges.clone();

    reconcile(&mut state, &config(true, false));

    assert!(state.standby.is_none());
    let policy = state.policy.as_ref().unwrap();
    let primary = state.primary.as_ref().unwrap();
    assert_eq!(policy.name, policy_before);
    assert_eq!(primary.name, primary_name);
    assert_eq!(primary.annotations.lb_scheme, primary_scheme);
    assert_eq!(primary.source_ranges, primary_ranges);
    assert_eq!(primary.selector_role, "primary");
}

#[test]
fn reconcile_is_idempotent() {
    let mut once = ClusterState::empty();
    reconcile(&mut once, &config(true, true));
    let mut twice = ClusterState::empty();
    reconcile(&mut twice, &config(true, true));
    reconcile(&mut twice, &config(true, true));

    assert_eq!(existence(&once), existence(&twice));
    let a = once.primary.as_ref().unwrap();
    let b = twice.primary.as_ref().unwrap();
    assert_eq!(a.name, b.name);
    assert_eq!(a.service_type, b.service_type);
    assert_eq!(a.source_ranges, b.source_ranges);
    assert_eq!(a.annotations.external_dns_hostname, b.annotations.external_dns_hostname);
    let pa = once.policy.as_ref().unwrap();
    let pb = twice.policy.as_ref().unwrap();
    assert_eq!(pa.name, pb.name);
    assert_eq!(pa.ingress.len(), pb.ingress.len());
}

#[test]
fn policy_failure_aborts_the_pass() {
    let mut state = ClusterState::empty();
    let outcomes = vec![false, true, true];
    let r = reconcile_dedicated_networking(
        &mut state,
        &demo_instance(),
        &config(true, true),
        &allow_list(),
        &policy_cidrs(),
        "example.com",
        &outcomes,
    );
    let e = r.unwrap_err();
    assert_eq!(e.kind, ErrorKind::Policy);
    assert_eq!(e.name, "demo-allow-nlb");
    assert_eq!(e.namespace, "ns1");
    // No service step was attempted: the cluster is exactly as before.
    assert_eq!(existence(&state), (false, false, false));
}

#[test]
fn primary_failure_reports_the_service() {
    let mut state = ClusterState::empty();
    let outcomes = vec![true, false, true];
    let r = reconcile_dedicated_networking(
        &mut state,
        &demo_instance(),
        &config(true, true),
        &allow_list(),
        &policy_cidrs(),
        "example.com",
        &outcomes,
    );
    let e = r.unwrap_err();
    assert_eq!(e.kind, ErrorKind::Service);
    assert_eq!(e.name, "demo-dedicated");
    // The policy step had already completed and stays in place.
    assert_eq!(existence(&state), (true, false, false));
}

#[test]
fn delete_of_absent_objects_is_a_silent_no_op() {
    // Every remote call would fail, but a tear-down over an empty cluster
    // makes no remote call at all: absence is already the desired state.
    let mut state = ClusterState::empty();
    let outcomes = vec![false, false, false];
    let r = reconcile_dedicated_networking(
        &mut state,
        &demo_instance(),
        &None,
        &allow_list(),
        &policy_cidrs(),
        "example.com",
        &outcomes,
    );
    assert!(r.is_ok());
    assert_eq!(existence(&state), (false, false, false));
}

#[test]
fn mode_collapses_absent_and_disabled() {
    assert_eq!(networking_mode(&None), NetworkingMode::Unconfigured);
    assert_eq!(networking_mode(&config(false, false)), NetworkingMode::Disabled);
    assert_eq!(networking_mode(&config(true, false)), NetworkingMode::Enabled);
}
