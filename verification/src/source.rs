//! The mapping source: turns the externally authored mapping text into
//! (code, url) pairs and validates that every target URL is non-blank.

use crate::mapping::{pairs_map, unique_codes};
use std::collections::HashMap;
use vstd::prelude::*;

verus! {

/// The mapping that the externally authored YAML text denotes, or `None`
/// where the text is not a well-formed mapping of string keys to string
/// values; a function of the text alone.
pub uninterp spec fn yaml_links_of(s: Seq<char>) -> Option<Map<Seq<char>, Seq<char>>>;

/// Whether a string holds nothing but whitespace; a function of its
/// characters alone. An empty string is blank.
pub uninterp spec fn blank(s: Seq<char>) -> bool;

/// Parse the mapping text into (code, url) pairs.
///
/// Relies on `serde_yaml::from_str::<HashMap<String, String>>`: the parsed
/// mapping depends on the text alone and succeeds exactly when the text is a
/// well-formed mapping of string keys to string values. The codes of the
/// returned pairs are pairwise distinct because they come out of a map; the
/// order they come out in is not promised.
#[verifier::external_body]
pub(crate) fn parse_links_text(s: &str) -> (r: Option<Vec<(String, String)>>)
    ensures
        r is None <==> yaml_links_of(s@) is None,
        r matches Some(pairs) ==> yaml_links_of(s@) == Some(pairs_map(pairs@))
            && unique_codes(pairs@),
{
    match serde_yaml::from_str::<HashMap<String, String>>(s) {
        Ok(m) => Some(m.into_iter().collect()),
        Err(_) => None,
    }
}

/// Whether the string holds nothing but whitespace.
///
/// Relies on `str::trim` and `str::is_empty`: the result depends on the
/// characters alone, and an empty string trims to an empty string.
#[verifier::external_body]
pub(crate) fn is_blank(s: &str) -> (r: bool)
    ensures
        r == blank(s@),
        s@.len() == 0 ==> r,
{
    s.trim().is_empty()
}

/// Every target URL in the mapping is non-blank.
pub open spec fn all_targets_ok(m: Map<Seq<char>, Seq<char>>) -> bool {
    forall|k: Seq<char>| #[trigger] m.contains_key(k) ==> !blank(m[k])
}

/// Return the code of the first pair whose target URL is blank, or `None`
/// where every target is non-blank.
pub fn first_blank_target(pairs: &Vec<(String, String)>) -> (r: Option<String>)
    ensures
        match r {
            None => forall|i: int| 0 <= i < pairs@.len() ==> !blank(#[trigger] pairs@[i].1@),
            Some(code) => exists|i: int|
                {
                    &&& 0 <= i < pairs@.len()
                    &&& blank(#[trigger] pairs@[i].1@)
                    &&& pairs@[i].0@ == code@
                    &&& forall|j: int| 0 <= j < i ==> !blank(#[trigger] pairs@[j].1@)
                },
        },
{
    let n = pairs.len();
    for i in 0..n
        invariant
            n == pairs@.len(),
            forall|j: int| 0 <= j < i ==> !blank(#[trigger] pairs@[j].1@),
    {
        if is_blank(pairs[i].1.as_str()) {
            return Some(pairs[i].0.clone());
        }
    }
    None
}

/// All pairs carrying non-blank targets is the same as the denoted map
/// carrying non-blank targets, as long as no two pairs share a code.
pub proof fn lemma_targets_ok_iff(s: Seq<(String, String)>)
    requires
        unique_codes(s),
    ensures
        (forall|i: int| 0 <= i < s.len() ==> !blank(#[trigger] s[i].1@)) <==> all_targets_ok(
            pairs_map(s),
        ),
{
    if forall|i: int| 0 <= i < s.len() ==> !blank(#[trigger] s[i].1@) {
        lemma_all_pairs_ok_implies_map_ok(s);
    }
    if all_targets_ok(pairs_map(s)) {
        assert forall|i: int| 0 <= i < s.len() implies !blank(#[trigger] s[i].1@) by {
            crate::mapping::lemma_pairs_map_index(s, i);
        }
    }
}

proof fn lemma_all_pairs_ok_implies_map_ok(s: Seq<(String, String)>)
    requires
        forall|i: int| 0 <= i < s.len() ==> !blank(#[trigger] s[i].1@),
    ensures
        all_targets_ok(pairs_map(s)),
    decreases s.len(),
{
    if s.len() > 0 {
        assert(forall|i: int|
            0 <= i < s.drop_last().len() ==> !blank(#[trigger] s.drop_last()[i].1@));
        lemma_all_pairs_ok_implies_map_ok(s.drop_last());
        assert(!blank(s[s.len() - 1].1@));
        assert forall|k: Seq<char>| #[trigger] pairs_map(s).contains_key(k) implies !blank(
            pairs_map(s)[k],
        ) by {
            if k != s.last().0@ {
                assert(pairs_map(s.drop_last()).contains_key(k));
            }
        }
    }
}

} // verus!
