//! CIDR allow-lists: parsing the policy allow-list from its comma-separated
//! configuration value, and normalizing the instance's IP allow list so that
//! every entry is a CIDR block.

use vstd::prelude::*;
use crate::text::{contains_char, split_commas, str_views, trim_str, trimmed};

verus! {

/// The comma-separated entries of `s`, each trimmed of surrounding
/// whitespace.
pub open spec fn parsed_allow_list(s: Seq<char>) -> Seq<Seq<char>> {
    split_commas(s).map_values(|p: Seq<char>| trimmed(p))
}

/// An entry of the instance's IP allow list, rewritten to a `/32` block when
/// it carries no CIDR suffix.
pub open spec fn normalized_entry(s: Seq<char>) -> Seq<char> {
    if s.contains('/') {
        s
    } else {
        s + "/32"@
    }
}

/// The instance's IP allow list with every entry normalized.
pub open spec fn normalized_list(l: Seq<Seq<char>>) -> Seq<Seq<char>> {
    l.map_values(|e: Seq<char>| normalized_entry(e))
}

/// Splits a comma-separated allow-list value into its trimmed entries.
pub fn parse_cidr_list(s: &str) -> (r: Vec<String>)
    ensures
        str_views(r@) == parsed_allow_list(s@),
{
    let pieces = crate::text::split_commas_str(s);
    let mut out: Vec<String> = Vec::new();
    let mut i: usize = 0;
    while i < pieces.len()
        invariant
            i <= pieces.len(),
            str_views(pieces@) == split_commas(s@),
            out@.len() == i,
            forall|j: int| 0 <= j < i ==> out@[j]@ == trimmed(split_commas(s@)[j]),
        decreases pieces.len() - i,
    {
        proof {
            assert(str_views(pieces@)[i as int] == pieces@[i as int]@);
        }
        out.push(trim_str(pieces[i].as_str()));
        i += 1;
    }
    proof {
        assert(str_views(out@) =~= parsed_allow_list(s@));
    }
    out
}

/// The CIDR allow-list for the traffic policy: the configured value when one
/// is set, else the default `"10.0.0.0/8"`, split on commas with each entry
/// trimmed.
pub fn cidr_allow_list(raw: Option<&str>) -> (r: Vec<String>)
    ensures
        raw matches Some(s) ==> str_views(r@) == parsed_allow_list(s@),
        raw is None ==> str_views(r@) == parsed_allow_list("10.0.0.0/8"@),
{
    match raw {
        Some(s) => parse_cidr_list(s),
        None => parse_cidr_list("10.0.0.0/8"),
    }
}

/// Rewrites a bare address to a `/32` block; an entry that already holds a
/// `/` is kept as it is.
pub fn normalize_ip_entry(ip: &str) -> (r: String)
    ensures
        r@ == normalized_entry(ip@),
{
    if contains_char(ip, '/') {
        ip.to_owned()
    } else {
        let mut s = ip.to_owned();
        s.append("/32");
        s
    }
}

/// The instance's IP allow list with every entry normalized, in order.
pub fn normalize_ip_allow_list(l: &Vec<String>) -> (r: Vec<String>)
    ensures
        str_views(r@) == normalized_list(str_views(l@)),
{
    let mut out: Vec<String> = Vec::new();
    let mut i: usize = 0;
    while i < l.len()
        invariant
            i <= l.len(),
            out@.len() == i,
            forall|j: int| 0 <= j < i ==> out@[j]@ == normalized_entry(l@[j]@),
        decreases l.len() - i,
    {
        out.push(normalize_ip_entry(l[i].as_str()));
        i += 1;
    }
    proof {
        assert(str_views(out@) =~= normalized_list(str_views(l@)));
    }
    out
}

} // verus!
