//! The swappable routing table: a code -> URL snapshot held behind an
//! atomically replaceable reference, so that readers never see a torn
//! mapping and replacement is one indivisible step.

use crate::mapping::{lemma_pairs_map_dom, lemma_pairs_map_index, pairs_map, unique_codes};
use arc_swap::ArcSwap;
use std::collections::HashMap;
use std::sync::Arc;
use vstd::prelude::*;

verus! {

/// The complete snapshot a `RouterCache` currently publishes, as a finite
/// map from code to target URL.
pub uninterp spec fn cache_map(c: RouterCache) -> Map<Seq<char>, Seq<char>>;

/// A routing table whose whole snapshot is replaced at once. Lookups read
/// the snapshot published at the time they run; a replacement never leaves
/// a mix of old and new entries.
#[verifier::external_body]
pub struct RouterCache {
    inner: Arc<ArcSwap<HashMap<String, String>>>,
}

impl RouterCache {
    /// Create a routing table publishing the given pairs, later pairs
    /// overriding earlier ones with the same code.
    ///
    /// Relies on `arc_swap::ArcSwapAny::new` and on collecting into
    /// `std::collections::HashMap`, whose entries are exactly the given
    /// pairs with the last occurrence of a code winning.
    #[verifier::external_body]
    pub fn new(initial: Vec<(String, String)>) -> (r: RouterCache)
        ensures
            cache_map(r) == pairs_map(initial@),
    {
        let table: HashMap<String, String> = initial.into_iter().collect();
        RouterCache { inner: Arc::new(ArcSwap::new(Arc::new(table))) }
    }

    /// Return the URL the current snapshot holds for `code`, if any.
    ///
    /// Relies on `arc_swap::ArcSwapAny::load`, which hands back one complete
    /// snapshot, and on `std::collections::HashMap::get`.
    #[verifier::external_body]
    pub fn lookup(&self, code: &str) -> (r: Option<String>)
        ensures
            match r {
                Some(url) => cache_map(*self).contains_key(code@) && url@ == cache_map(
                    *self,
                )[code@],
                None => !cache_map(*self).contains_key(code@),
            },
    {
        let snapshot = self.inner.load();
        snapshot.get(code).cloned()
    }

    /// Publish the given pairs as the new snapshot in one indivisible step,
    /// later pairs overriding earlier ones with the same code.
    ///
    /// Relies on `arc_swap::ArcSwapAny::store`: an atomic replacement of the
    /// whole snapshot, releasing the old one once no reader holds it.
    #[verifier::external_body]
    pub fn swap(&mut self, new_pairs: Vec<(String, String)>)
        ensures
            cache_map(*final(self)) == pairs_map(new_pairs@),
    {
        let table: HashMap<String, String> = new_pairs.into_iter().collect();
        self.inner.store(Arc::new(table));
    }
}

/// Law: once a snapshot built from the pairs `p` is published, what any
/// later lookup of a code `k` returns is decided by `p` alone — a pair of
/// `p` carrying `k` gives `k` its URL, and a `k` that no pair carries is
/// absent, whatever the snapshot before held.
pub proof fn lemma_read_after_write(c: RouterCache, p: Seq<(String, String)>, k: Seq<char>)
    requires
        cache_map(c) == pairs_map(p),
    ensures
        cache_map(c).contains_key(k) <==> exists|i: int| 0 <= i < p.len() && p[i].0@ == k,
        unique_codes(p) ==> forall|i: int|
            0 <= i < p.len() && (#[trigger] p[i].0@) == k ==> cache_map(c)[k] == p[i].1@,
{
    lemma_pairs_map_dom(p, k);
    if unique_codes(p) {
        assert forall|i: int| 0 <= i < p.len() && (#[trigger] p[i].0@) == k implies cache_map(
            c,
        )[k] == p[i].1@ by {
            lemma_pairs_map_index(p, i);
        }
    }
}

} // verus!
