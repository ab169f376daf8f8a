use dedicated_networking::cidr::{cidr_allow_list, normalize_ip_allow_list, normalize_ip_entry, parse_cidr_list};
use dedicated_networking::config::{DedicatedNetworkingConfig, InstanceIdentity, Role};
use dedicated_networking::descriptors::{build_annotations, build_network_policy, build_service_descriptor};
use dedicated_networking::naming::{cluster_label_key, external_hostname, policy_name, role_selector, service_name};

fn demo_instance() -> InstanceIdentity {
    InstanceIdentity {
        name: "demo".to_string(),
        namespace: "ns1".to_string(),
        uid: "uid-123".to_string(),
    }
}

fn lb_config(public: bool, include_standby: bool) -> DedicatedNetworkingConfig {
    DedicatedNetworkingConfig {
        enabled: true,
        public,
        include_standby,
        service_type: "LoadBalancer".to_string(),
    }
}

#[test]
fn names_follow_the_naming_contract() {
    assert_eq!(policy_name("demo"), "demo-allow-nlb");
    assert_eq!(service_name("demo", Role::Primary), "demo-dedicated");
    assert_eq!(service_name("demo", Role::Standby), "demo-dedicated-ro");
    assert_eq!(external_hostname(Role::Primary, "ns1", "example.com"), "dedicated.ns1.example.com");
    assert_eq!(
        external_hostname(Role::Standby, "ns1", "example.com"),
        "dedicated-ro.ns1.example.com"
    );
    assert_eq!(role_selector(Role::Primary), "primary");
    assert_eq!(role_selector(Role::Standby), "replica");
    assert_eq!(cluster_label_key(), "cnpg.io/cluster");
}

#[test]
fn public_annotations() {
    let a = build_annotations(Role::Primary, true, "ns1", "example.com");
    assert_eq!(a.lb_scheme, "internet-facing");
    assert_eq!(a.lb_internal, "false");
    assert_eq!(a.external_dns_hostname, "dedicated.ns1.example.com");
    assert_eq!(a.lb_target_type, "ip");
    assert_eq!(a.lb_type, "nlb-ip");
    assert_eq!(a.healthcheck_protocol, "TCP");
    assert_eq!(a.healthcheck_port, "5432");
}

#[test]
fn private_annotations() {
    let a = build_annotations(Role::Standby, false, "ns1", "example.com");
    assert_eq!(a.lb_scheme, "internal");
    assert_eq!(a.lb_internal, "true");
    assert_eq!(a.external_dns_hostname, "dedicated-ro.ns1.example.com");
}

#[test]
fn annotation_entries_carry_the_wire_keys() {
    let a = build_annotations(Role::Primary, true, "ns1", "example.com");
    let entries = a.entries();
    assert_eq!(entries.len(), 7);
    assert_eq!(entries[0].0, "external-dns.alpha.kubernetes.io/hostname");
    assert_eq!(entries[0].1, "dedicated.ns1.example.com");
    assert_eq!(entries[1].0, "service.beta.kubernetes.io/aws-load-balancer-internal");
    assert_eq!(entries[1].1, "false");
    assert_eq!(entries[2].0, "service.beta.kubernetes.io/aws-load-balancer-scheme");
    assert_eq!(entries[2].1, "internet-facing");
    assert_eq!(entries[3].0, "service.beta.kubernetes.io/aws-load-balancer-nlb-target-type");
    assert_eq!(entries[3].1, "ip");
    assert_eq!(entries[4].0, "service.beta.kubernetes.io/aws-load-balancer-type");
    assert_eq!(entries[4].1, "nlb-ip");
    assert_eq!(entries[5].0, "service.beta.kubernetes.io/aws-load-balancer-healthcheck-protocol");
    assert_eq!(entries[5].1, "TCP");
    assert_eq!(entries[6].0, "service.beta.kubernetes.io/aws-load-balancer-healthcheck-port");
    assert_eq!(entries[6].1, "5432");
}

#[test]
fn cidr_normalization() {
    assert_eq!(normalize_ip_entry("203.0.113.5"), "203.0.113.5/32");
    assert_eq!(normalize_ip_entry("10.1.0.0/16"), "10.1.0.0/16");
    let input = vec!["203.0.113.5".to_string(), "10.1.0.0/16".to_string()];
    let normalized = normalize_ip_allow_list(&input);
    assert_eq!(normalized, vec!["203.0.113.5/32".to_string(), "10.1.0.0/16".to_string()]);
}

#[test]
fn source_ranges_only_for_load_balancer() {
    let inst = demo_instance();
    let allow = vec!["203.0.113.5".to_string(), "10.1.0.0/16".to_string()];

    let lb = build_service_descriptor(&inst, Role::Primary, &lb_config(true, false), &allow, "example.com");
    assert_eq!(
        lb.source_ranges,
        Some(vec!["203.0.113.5/32".to_string(), "10.1.0.0/16".to_string()])
    );

    let cluster_ip = DedicatedNetworkingConfig {
        enabled: true,
        public: false,
        include_standby: false,
        service_type: "ClusterIP".to_string(),
    };
    let internal = build_service_descriptor(&inst, Role::Primary, &cluster_ip, &allow, "example.com");
    assert_eq!(internal.source_ranges, None);

    let empty: Vec<String> = Vec::new();
    let lb_no_list = build_service_descriptor(&inst, Role::Primary, &lb_config(true, false), &empty, "example.com");
    assert_eq!(lb_no_list.source_ranges, None);
}

#[test]
fn allow_list_parsing_trims_and_defaults() {
    assert_eq!(parse_cidr_list("10.0.0.0/8"), vec!["10.0.0.0/8".to_string()]);
    assert_eq!(
        parse_cidr_list(" 10.0.0.0/8 ,\t172.16.0.0/12 "),
        vec!["10.0.0.0/8".to_string(), "172.16.0.0/12".to_string()]
    );
    assert_eq!(cidr_allow_list(None), vec!["10.0.0.0/8".to_string()]);
    assert_eq!(
        cidr_allow_list(Some("192.168.0.0/16, 10.0.0.0/8")),
        vec!["192.168.0.0/16".to_string(), "10.0.0.0/8".to_string()]
    );
}

#[test]
fn policy_descriptor_shape() {
    let inst = demo_instance();
    let cidrs = vec!["10.0.0.0/8".to_string(), "172.16.0.0/12".to_string()];
    let p = build_network_policy(&inst, &cidrs);
    assert_eq!(p.name, "demo-allow-nlb");
    assert_eq!(p.namespace, "ns1");
    assert_eq!(p.pod_selector_cluster, "demo");
    assert_eq!(p.ingress.len(), 2);
    assert_eq!(p.ingress[0].cidr, "10.0.0.0/8");
    assert_eq!(p.ingress[0].protocol, "TCP");
    assert_eq!(p.ingress[0].port, 5432);
    assert_eq!(p.ingress[1].cidr, "172.16.0.0/12");
}

#[test]
fn end_to_end_scenario_descriptors() {
    let inst = demo_instance();
    let allow = vec!["1.2.3.4".to_string()];

    let primary = build_service_descriptor(&inst, Role::Primary, &lb_config(true, true), &allow, "example.com");
    assert_eq!(primary.name, "demo-dedicated");
    assert_eq!(primary.namespace, "ns1");
    assert_eq!(primary.selector_role, "primary");
    assert_eq!(primary.selector_cluster, "demo");
    assert_eq!(primary.label_cluster, "demo");
    assert_eq!(primary.owner_name, "demo");
    assert_eq!(primary.owner_uid, "uid-123");
    assert_eq!(primary.annotations.lb_scheme, "internet-facing");
    assert_eq!(primary.annotations.external_dns_hostname, "dedicated.ns1.example.com");
    assert_eq!(primary.port_name, "postgres");
    assert_eq!(primary.port, 5432);
    assert_eq!(primary.protocol, "TCP");
    assert_eq!(primary.target_port, 5432);
    assert_eq!(primary.session_affinity, "None");
    assert_eq!(primary.service_type, "LoadBalancer");
    assert_eq!(primary.source_ranges, Some(vec!["1.2.3.4/32".to_string()]));

    let standby = build_service_descriptor(&inst, Role::Standby, &lb_config(true, true), &allow, "example.com");
    assert_eq!(standby.name, "demo-dedicated-ro");
    assert_eq!(standby.selector_role, "replica");
    assert_eq!(standby.annotations.external_dns_hostname, "dedicated-ro.ns1.example.com");
    assert_eq!(standby.annotations.lb_scheme, "internet-facing");
    assert_eq!(standby.source_ranges, Some(vec!["1.2.3.4/32".to_string()]));
}
