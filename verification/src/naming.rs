//! The naming contract: object names, label keys and the external hostname.
//! Other systems (DNS automation, load-balancer provisioning) key on these
//! exact strings, so each is pinned down character for character.

use vstd::prelude::*;
use crate::config::Role;

verus! {

/// Name of the instance's traffic-filtering policy object.
pub open spec fn policy_name_view(instance: Seq<char>) -> Seq<char> {
    instance + "-allow-nlb"@
}

/// Name of the instance's exposure service for the given role.
pub open spec fn service_name_view(instance: Seq<char>, role: Role) -> Seq<char> {
    if role == Role::Standby {
        instance + "-dedicated-ro"@
    } else {
        instance + "-dedicated"@
    }
}

/// The external hostname `dedicated[-ro].<namespace>.<basedomain>`.
pub open spec fn hostname_view(role: Role, namespace: Seq<char>, basedomain: Seq<char>) -> Seq<
    char,
> {
    "dedicated"@ + (if role == Role::Standby {
        "-ro"@
    } else {
        Seq::<char>::empty()
    }) + "."@ + namespace + "."@ + basedomain
}

/// The wire value of the role selector label.
pub open spec fn role_selector_view(role: Role) -> Seq<char> {
    if role == Role::Standby {
        "replica"@
    } else {
        "primary"@
    }
}

/// `"<instance>-allow-nlb"`.
pub fn policy_name(instance: &str) -> (r: String)
    ensures
        r@ == policy_name_view(instance@),
{
    let mut s = instance.to_owned();
    s.append("-allow-nlb");
    s
}

/// `"<instance>-dedicated"` for the primary, `"<instance>-dedicated-ro"`
/// for the standby.
pub fn service_name(instance: &str, role: Role) -> (r: String)
    ensures
        r@ == service_name_view(instance@, role),
{
    let mut s = instance.to_owned();
    match role {
        Role::Standby => s.append("-dedicated-ro"),
        Role::Primary => s.append("-dedicated"),
    }
    s
}

/// `"dedicated<suffix>.<namespace>.<basedomain>"`, suffix `"-ro"` for the
/// standby and empty for the primary.
pub fn external_hostname(role: Role, namespace: &str, basedomain: &str) -> (r: String)
    ensures
        r@ == hostname_view(role, namespace@, basedomain@),
{
    let mut s = "dedicated".to_owned();
    if matches!(role, Role::Standby) {
        s.append("-ro");
    }
    s.append(".");
    s.append(namespace);
    s.append(".");
    s.append(basedomain);
    proof {
        assert(s@ =~= hostname_view(role, namespace@, basedomain@));
    }
    s
}

/// The selector value `"primary"` or `"replica"`.
pub fn role_selector(role: Role) -> (r: String)
    ensures
        r@ == role_selector_view(role),
{
    match role {
        Role::Standby => "replica".to_owned(),
        Role::Primary => "primary".to_owned(),
    }
}

/// The label key that ties produced objects and selectors to the instance's
/// workload cluster.
pub fn cluster_label_key() -> (r: String)
    ensures
        r@ == "cnpg.io/cluster"@,
{
    "cnpg.io/cluster".to_owned()
}

} // verus!
