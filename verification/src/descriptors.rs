//! Typed descriptors of the produced cluster objects, and the pure builders
//! that compute them from the instance identity and its desired
//! configuration.  The gateway code serializes these to the wire format
//! unchanged, so every field is pinned down exactly.

use vstd::prelude::*;
use crate::cidr::{normalize_ip_allow_list, normalized_list};
use crate::config::{DedicatedNetworkingConfig, DedicatedNetworkingConfigView, InstanceIdentity, InstanceIdentityView, Role};
use crate::naming::{external_hostname, hostname_view, policy_name, policy_name_view, role_selector, role_selector_view, service_name, service_name_view};
use crate::text::str_views;

verus! {

/// One ingress rule of the traffic policy: traffic from `cidr`, restricted
/// to TCP port 5432.
pub struct IngressRuleDescriptor {
    pub cidr: String,
    pub protocol: String,
    pub port: u16,
}

#[verifier::ext_equal]
pub struct IngressRuleView {
    pub cidr: Seq<char>,
    pub protocol: Seq<char>,
    pub port: u16,
}

impl View for IngressRuleDescriptor {
    type V = IngressRuleView;

    open spec fn view(&self) -> IngressRuleView {
        IngressRuleView { cidr: self.cidr@, protocol: self.protocol@, port: self.port }
    }
}

/// The rule the policy holds for one allow-listed CIDR.
pub open spec fn ingress_rule_view(cidr: Seq<char>) -> IngressRuleView {
    IngressRuleView { cidr: cidr, protocol: "TCP"@, port: 5432 }
}

/// One rule per allow-listed CIDR, in the list's order.
pub open spec fn ingress_rules_view(cidrs: Seq<Seq<char>>) -> Seq<IngressRuleView> {
    cidrs.map_values(|c: Seq<char>| ingress_rule_view(c))
}

/// The traffic-filtering policy object for an instance.
pub struct NetworkPolicyDescriptor {
    pub name: String,
    pub namespace: String,
    pub pod_selector_cluster: String,
    pub ingress: Vec<IngressRuleDescriptor>,
}

#[verifier::ext_equal]
pub struct NetworkPolicyDescriptorView {
    pub name: Seq<char>,
    pub namespace: Seq<char>,
    pub pod_selector_cluster: Seq<char>,
    pub ingress: Seq<IngressRuleView>,
}

impl View for NetworkPolicyDescriptor {
    type V = NetworkPolicyDescriptorView;

    open spec fn view(&self) -> NetworkPolicyDescriptorView {
        NetworkPolicyDescriptorView {
            name: self.name@,
            namespace: self.namespace@,
            pod_selector_cluster: self.pod_selector_cluster@,
            ingress: self.ingress@.map_values(|r: IngressRuleDescriptor| r@),
        }
    }
}

/// The policy descriptor an instance and a CIDR allow-list determine: named
/// `"<instance>-allow-nlb"`, selecting the instance's pods, with one
/// TCP/5432 rule per CIDR.  The rule set replaces whatever an earlier apply
/// wrote, so a shrunken allow-list shrinks the live object too.
pub open spec fn network_policy_view(inst: InstanceIdentityView, cidrs: Seq<Seq<char>>) -> NetworkPolicyDescriptorView {
    NetworkPolicyDescriptorView {
        name: policy_name_view(inst.name),
        namespace: inst.namespace,
        pod_selector_cluster: inst.name,
        ingress: ingress_rules_view(cidrs),
    }
}

/// Builds the traffic-policy descriptor for `instance` from the configured
/// CIDR allow-list.
pub fn build_network_policy(instance: &InstanceIdentity, cidrs: &Vec<String>) -> (r: NetworkPolicyDescriptor)
    ensures
        r@ == network_policy_view(instance@, str_views(cidrs@)),
{
    let mut rules: Vec<IngressRuleDescriptor> = Vec::new();
    let mut i: usize = 0;
    while i < cidrs.len()
        invariant
            i <= cidrs.len(),
            rules@.len() == i,
            forall|j: int| 0 <= j < i ==> rules@[j]@ == ingress_rule_view(cidrs@[j]@),
        decreases cidrs.len() - i,
    {
        let rule = IngressRuleDescriptor {
            cidr: cidrs[i].clone(),
            protocol: "TCP".to_owned(),
            port: 5432,
        };
        proof {
            assert(rule@ =~= ingress_rule_view(cidrs@[i as int]@));
        }
        rules.push(rule);
        i += 1;
    }
    let r = NetworkPolicyDescriptor {
        name: policy_name(instance.name.as_str()),
        namespace: instance.namespace.clone(),
        pod_selector_cluster: instance.name.clone(),
        ingress: rules,
    };
    proof {
        assert(r@.ingress =~= ingress_rules_view(str_views(cidrs@)));
        assert(r@ =~= network_policy_view(instance@, str_views(cidrs@)));
    }
    r
}

/// The annotation values of an exposure service.  The keys are fixed; see
/// [`ServiceAnnotations::entries`].
pub struct ServiceAnnotations {
    pub external_dns_hostname: String,
    pub lb_internal: String,
    pub lb_scheme: String,
    pub lb_target_type: String,
    pub lb_type: String,
    pub healthcheck_protocol: String,
    pub healthcheck_port: String,
}

#[verifier::ext_equal]
pub struct ServiceAnnotationsView {
    pub external_dns_hostname: Seq<char>,
    pub lb_internal: Seq<char>,
    pub lb_scheme: Seq<char>,
    pub lb_target_type: Seq<char>,
    pub lb_type: Seq<char>,
    pub healthcheck_protocol: Seq<char>,
    pub healthcheck_port: Seq<char>,
}

impl View for ServiceAnnotations {
    type V = ServiceAnnotationsView;

    open spec fn view(&self) -> ServiceAnnotationsView {
        ServiceAnnotationsView {
            external_dns_hostname: self.external_dns_hostname@,
            lb_internal: self.lb_internal@,
            lb_scheme: self.lb_scheme@,
            lb_target_type: self.lb_target_type@,
            lb_type: self.lb_type@,
            healthcheck_protocol: self.healthcheck_protocol@,
            healthcheck_port: self.healthcheck_port@,
        }
    }
}

/// The annotation set `public` and the role determine: the external
/// hostname, `"internet-facing"`/`"false"` for a public service against
/// `"internal"`/`"true"` for a private one, and the fixed
/// target-type/type/health-check values.
pub open spec fn annotations_view(role: Role, public: bool, namespace: Seq<char>, basedomain: Seq<char>) -> ServiceAnnotationsView {
    ServiceAnnotationsView {
        external_dns_hostname: hostname_view(role, namespace, basedomain),
        lb_internal: if public {
            "false"@
        } else {
            "true"@
        },
        lb_scheme: if public {
            "internet-facing"@
        } else {
            "internal"@
        },
        lb_target_type: "ip"@,
        lb_type: "nlb-ip"@,
        healthcheck_protocol: "TCP"@,
        healthcheck_port: "5432"@,
    }
}

/// Builds the annotation values for one exposure service.
pub fn build_annotations(role: Role, public: bool, namespace: &str, basedomain: &str) -> (r: ServiceAnnotations)
    ensures
        r@ == annotations_view(role, public, namespace@, basedomain@),
{
    let r = ServiceAnnotations {
        external_dns_hostname: external_hostname(role, namespace, basedomain),
        lb_internal: if public {
            "false".to_owned()
        } else {
            "true".to_owned()
        },
        lb_scheme: if public {
            "internet-facing".to_owned()
        } else {
            "internal".to_owned()
        },
        lb_target_type: "ip".to_owned(),
        lb_type: "nlb-ip".to_owned(),
        healthcheck_protocol: "TCP".to_owned(),
        healthcheck_port: "5432".to_owned(),
    };
    proof {
        assert(r@ =~= annotations_view(role, public, namespace@, basedomain@));
    }
    r
}

impl ServiceAnnotations {
    /// The annotations as key/value pairs under their exact wire keys, in a
    /// fixed order.
    pub fn entries(&self) -> (r: Vec<(String, String)>)
        ensures
            r@.len() == 7,
            r@[0].0@ == "external-dns.alpha.kubernetes.io/hostname"@,
            r@[0].1@ == self.external_dns_hostname@,
            r@[1].0@ == "service.beta.kubernetes.io/aws-load-balancer-internal"@,
            r@[1].1@ == self.lb_internal@,
            r@[2].0@ == "service.beta.kubernetes.io/aws-load-balancer-scheme"@,
            r@[2].1@ == self.lb_scheme@,
            r@[3].0@ == "service.beta.kubernetes.io/aws-load-balancer-nlb-target-type"@,
            r@[3].1@ == self.lb_target_type@,
            r@[4].0@ == "service.beta.kubernetes.io/aws-load-balancer-type"@,
            r@[4].1@ == self.lb_type@,
            r@[5].0@ == "service.beta.kubernetes.io/aws-load-balancer-healthcheck-protocol"@,
            r@[5].1@ == self.healthcheck_protocol@,
            r@[6].0@ == "service.beta.kubernetes.io/aws-load-balancer-healthcheck-port"@,
            r@[6].1@ == self.healthcheck_port@,
    {
        let mut r: Vec<(String, String)> = Vec::new();
        r.push(("external-dns.alpha.kubernetes.io/hostname".to_owned(), self.external_dns_hostname.clone()));
        r.push(("service.beta.kubernetes.io/aws-load-balancer-internal".to_owned(), self.lb_internal.clone()));
        r.push(("service.beta.kubernetes.io/aws-load-balancer-scheme".to_owned(), self.lb_scheme.clone()));
        r.push(("service.beta.kubernetes.io/aws-load-balancer-nlb-target-type".to_owned(), self.lb_target_type.clone()));
        r.push(("service.beta.kubernetes.io/aws-load-balancer-type".to_owned(), self.lb_type.clone()));
        r.push(("service.beta.kubernetes.io/aws-load-balancer-healthcheck-protocol".to_owned(), self.healthcheck_protocol.clone()));
        r.push(("service.beta.kubernetes.io/aws-load-balancer-healthcheck-port".to_owned(), self.healthcheck_port.clone()));
        r
    }
}

/// One exposure service object: primary or standby.
pub struct ServiceDescriptor {
    pub name: String,
    pub namespace: String,
    pub owner_name: String,
    pub owner_uid: String,
    pub label_cluster: String,
    pub annotations: ServiceAnnotations,
    pub selector_cluster: String,
    pub selector_role: String,
    pub port_name: String,
    pub port: u16,
    pub protocol: String,
    pub target_port: u16,
    pub session_affinity: String,
    pub service_type: String,
    pub source_ranges: Option<Vec<String>>,
}

#[verifier::ext_equal]
pub struct ServiceDescriptorView {
    pub name: Seq<char>,
    pub namespace: Seq<char>,
    pub owner_name: Seq<char>,
    pub owner_uid: Seq<char>,
    pub label_cluster: Seq<char>,
    pub annotations: ServiceAnnotationsView,
    pub selector_cluster: Seq<char>,
    pub selector_role: Seq<char>,
    pub port_name: Seq<char>,
    pub port: u16,
    pub protocol: Seq<char>,
    pub target_port: u16,
    pub session_affinity: Seq<char>,
    pub service_type: Seq<char>,
    pub source_ranges: Option<Seq<Seq<char>>>,
}

impl View for ServiceDescriptor {
    type V = ServiceDescriptorView;

    open spec fn view(&self) -> ServiceDescriptorView {
        ServiceDescriptorView {
            name: self.name@,
            namespace: self.namespace@,
            owner_name: self.owner_name@,
            owner_uid: self.owner_uid@,
            label_cluster: self.label_cluster@,
            annotations: self.annotations@,
            selector_cluster: self.selector_cluster@,
            selector_role: self.selector_role@,
            port_name: self.port_name@,
            port: self.port,
            protocol: self.protocol@,
            target_port: self.target_port,
            session_affinity: self.session_affinity@,
            service_type: self.service_type@,
            source_ranges: match &self.source_ranges {
                Some(v) => Some(str_views(v@)),
                None => None,
            },
        }
    }
}

/// The service descriptor the inputs determine: the role's name and
/// selector, the instance's label and owner reference, the single
/// postgres port 5432/TCP, no session affinity, the configured service
/// type, and the normalized IP allow list as source ranges exactly when the
/// type is `"LoadBalancer"` and the list is non-empty.
pub open spec fn service_descriptor_view(
    inst: InstanceIdentityView,
    role: Role,
    cfg: DedicatedNetworkingConfigView,
    ip_allow_list: Seq<Seq<char>>,
    basedomain: Seq<char>,
) -> ServiceDescriptorView {
    ServiceDescriptorView {
        name: service_name_view(inst.name, role),
        namespace: inst.namespace,
        owner_name: inst.name,
        owner_uid: inst.uid,
        label_cluster: inst.name,
        annotations: annotations_view(role, cfg.public, inst.namespace, basedomain),
        selector_cluster: inst.name,
        selector_role: role_selector_view(role),
        port_name: "postgres"@,
        port: 5432,
        protocol: "TCP"@,
        target_port: 5432,
        session_affinity: "None"@,
        service_type: cfg.service_type,
        source_ranges: if cfg.service_type == "LoadBalancer"@ && normalized_list(ip_allow_list).len() > 0 {
            Some(normalized_list(ip_allow_list))
        } else {
            None
        },
    }
}

fn is_load_balancer(service_type: &String) -> (r: bool)
    ensures
        r == (service_type@ == "LoadBalancer"@),
{
    let lb: String = "LoadBalancer".to_owned();
    *service_type == lb
}

/// Builds the exposure-service descriptor for `instance` in the given role.
pub fn build_service_descriptor(
    instance: &InstanceIdentity,
    role: Role,
    config: &DedicatedNetworkingConfig,
    ip_allow_list: &Vec<String>,
    basedomain: &str,
) -> (r: ServiceDescriptor)
    ensures
        r@ == service_descriptor_view(instance@, role, config@, str_views(ip_allow_list@), basedomain@),
{
    let normalized = normalize_ip_allow_list(ip_allow_list);
    let source_ranges: Option<Vec<String>> = if is_load_balancer(&config.service_type)
        && normalized.len() > 0 {
        Some(normalized)
    } else {
        None
    };
    let r = ServiceDescriptor {
        name: service_name(instance.name.as_str(), role),
        namespace: instance.namespace.clone(),
        owner_name: instance.name.clone(),
        owner_uid: instance.uid.clone(),
        label_cluster: instance.name.clone(),
        annotations: build_annotations(role, config.public, instance.namespace.as_str(), basedomain),
        selector_cluster: instance.name.clone(),
        selector_role: role_selector(role),
        port_name: "postgres".to_owned(),
        port: 5432,
        protocol: "TCP".to_owned(),
        target_port: 5432,
        session_affinity: "None".to_owned(),
        service_type: config.service_type.clone(),
        source_ranges,
    };
    proof {
        assert(r@ =~= service_descriptor_view(instance@, role, config@, str_views(ip_allow_list@), basedomain@));
    }
    r
}

} // verus!
