//! Character-level string helpers: whitespace trimming, comma splitting and
//! character search, each with an exact sequence-level contract.

use vstd::prelude::*;

verus! {

/// The view of each string in a sequence of strings.
pub open spec fn str_views(v: Seq<String>) -> Seq<Seq<char>> {
    v.map_values(|s: String| s@)
}

/// Whitespace as trimmed from list entries.
pub open spec fn is_space(c: char) -> bool {
    c == ' ' || c == '\t' || c == '\n' || c == '\r'
}

/// `s` without its leading whitespace.
pub open spec fn trim_front(s: Seq<char>) -> Seq<char>
    decreases s.len(),
{
    if s.len() > 0 && is_space(s[0]) {
        trim_front(s.drop_first())
    } else {
        s
    }
}

/// `s` without its trailing whitespace.
pub open spec fn trim_back(s: Seq<char>) -> Seq<char>
    decreases s.len(),
{
    if s.len() > 0 && is_space(s[s.len() - 1]) {
        trim_back(s.drop_last())
    } else {
        s
    }
}

/// `s` without surrounding whitespace.
pub open spec fn trimmed(s: Seq<char>) -> Seq<char> {
    trim_back(trim_front(s))
}

/// The pieces of `s` between commas, in order; always one piece more than
/// there are commas, so never empty.
pub open spec fn split_commas(s: Seq<char>) -> Seq<Seq<char>>
    decreases s.len(),
{
    if s.len() == 0 {
        seq![Seq::<char>::empty()]
    } else if s[0] == ',' {
        seq![Seq::<char>::empty()].add(split_commas(s.drop_first()))
    } else {
        let rest = split_commas(s.drop_first());
        seq![seq![s[0]].add(rest[0])].add(rest.drop_first())
    }
}

pub proof fn lemma_split_commas_nonempty(s: Seq<char>)
    ensures
        split_commas(s).len() >= 1,
    decreases s.len(),
{
    if s.len() == 0 {
    } else {
        lemma_split_commas_nonempty(s.drop_first());
    }
}

fn exec_is_space(c: char) -> (r: bool)
    ensures
        r == is_space(c),
{
    c == ' ' || c == '\t' || c == '\n' || c == '\r'
}

/// Whether `c` occurs in `s`.
pub fn contains_char(s: &str, c: char) -> (r: bool)
    ensures
        r == s@.contains(c),
{
    let n = s.unicode_len();
    let mut i: usize = 0;
    while i < n
        invariant
            i <= n,
            n == s@.len(),
            forall|j: int| 0 <= j < i ==> s@[j] != c,
        decreases n - i,
    {
        if s.get_char(i) == c {
            proof {
                assert(s@[i as int] == c);
            }
            return true;
        }
        i += 1;
    }
    false
}

/// A copy of `s` with leading whitespace removed.
pub fn trim_front_str(s: &str) -> (r: String)
    ensures
        r@ == trim_front(s@),
    decreases s@.len(),
{
    let n = s.unicode_len();
    if n > 0 && exec_is_space(s.get_char(0)) {
        let rest = s.substring_char(1, n);
        proof {
            assert(rest@ =~= s@.drop_first());
        }
        trim_front_str(rest)
    } else {
        s.to_owned()
    }
}

/// A copy of `s` with trailing whitespace removed.
pub fn trim_back_str(s: &str) -> (r: String)
    ensures
        r@ == trim_back(s@),
    decreases s@.len(),
{
    let n = s.unicode_len();
    if n > 0 && exec_is_space(s.get_char(n - 1)) {
        let rest = s.substring_char(0, n - 1);
        proof {
            assert(rest@ =~= s@.drop_last());
        }
        trim_back_str(rest)
    } else {
        s.to_owned()
    }
}

/// A copy of `s` with surrounding whitespace removed.
pub fn trim_str(s: &str) -> (r: String)
    ensures
        r@ == trimmed(s@),
{
    let front = trim_front_str(s);
    trim_back_str(front.as_str())
}

/// The pieces of `s` between commas, in order.
pub fn split_commas_str(s: &str) -> (r: Vec<String>)
    ensures
        str_views(r@) == split_commas(s@),
    decreases s@.len(),
{
    let n = s.unicode_len();
    if n == 0 {
        let mut out: Vec<String> = Vec::new();
        out.push(String::new());
        proof {
            assert(str_views(out@) =~~= split_commas(s@));
        }
        out
    } else {
        let tail = s.substring_char(1, n);
        proof {
            assert(tail@ =~= s@.drop_first());
        }
        let mut rest = split_commas_str(tail);
        if s.get_char(0) == ',' {
            rest.insert(0, String::new());
            proof {
                assert(str_views(rest@) =~~= split_commas(s@));
            }
            rest
        } else {
            proof {
                lemma_split_commas_nonempty(tail@);
            }
            let first = rest.remove(0);
            let head = s.substring_char(0, 1);
            let joined = head.to_owned().concat(first.as_str());
            rest.insert(0, joined);
            proof {
                assert(head@ =~= seq![s@[0]]);
                assert(str_views(rest@) =~~= split_commas(s@));
            }
            rest
        }
    }
}

} // verus!
