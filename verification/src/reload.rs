//! Reload coordination: fetch the mapping text, parse it, validate it and
//! publish it to the routing table, all-or-nothing, with at most one
//! reload in flight at a time and exactly one outcome counter incremented
//! per attempt. The fetch itself is outside work; its outcome is handed
//! in, and every outcome releases the critical section.

use crate::cache::{cache_map, RouterCache};
use crate::mapping::pairs_map;
use crate::source::{all_targets_ok, blank, first_blank_target, parse_links_text, yaml_links_of};
use vstd::prelude::*;

verus! {

/// What the external fetch step handed back: the mapping text it produced,
/// or failure (a fetch that did not succeed, or a text that could not be
/// read).
pub enum FetchOutcome {
    /// The fetch succeeded and produced this mapping text.
    Success(String),
    /// The fetch failed; there is no candidate text.
    Failure,
}

/// How one reload attempt ended.
#[derive(Debug, PartialEq, Eq)]
pub enum ReloadOutcome {
    /// A new snapshot was published; carries its entry count.
    Published(usize),
    /// The external fetch step failed; the table is unchanged.
    FetchFailed,
    /// The fetched text is not a well-formed mapping; the table is
    /// unchanged.
    ParseFailed,
    /// The fetched mapping holds a blank target URL; carries one offending
    /// code; the table is unchanged.
    ValidationFailed(String),
}

/// One attempt to enter the reload critical section: entry is granted
/// exactly when no reload is in flight, and afterwards one is.
pub open spec fn begin_step(busy: bool) -> (bool, bool) {
    (!busy, true)
}

/// Orchestrates reloads: guards the critical section around the external
/// fetch, applies fetched mapping texts to the routing table, and counts
/// each attempt's outcome exactly once.
pub struct ReloadCoordinator {
    busy: bool,
    success_count: u64,
    fail_count: u64,
}

impl ReloadCoordinator {
    /// Whether a reload attempt is in flight.
    pub closed spec fn in_flight(self) -> bool {
        self.busy
    }

    /// Reload attempts that published a new snapshot.
    pub closed spec fn successes(self) -> u64 {
        self.success_count
    }

    /// Reload attempts that failed, leaving the table unchanged.
    pub closed spec fn failures(self) -> u64 {
        self.fail_count
    }

    /// A coordinator with no reload in flight and both counters at zero.
    pub fn new() -> (r: ReloadCoordinator)
        ensures
            !r.in_flight(),
            r.successes() == 0,
            r.failures() == 0,
    {
        ReloadCoordinator { busy: false, success_count: 0, fail_count: 0 }
    }

    /// Try to enter the reload critical section: granted exactly when no
    /// reload is in flight. The caller that is granted entry must hand the
    /// fetch outcome to `complete`; a caller that is refused must not
    /// fetch.
    pub fn try_begin(&mut self) -> (r: bool)
        ensures
            (r, final(self).in_flight()) == begin_step(old(self).in_flight()),
            final(self).successes() == old(self).successes(),
            final(self).failures() == old(self).failures(),
    {
        let granted = !self.busy;
        self.busy = true;
        granted
    }

    /// Apply the outcome of the external fetch step: parse the fetched
    /// text, validate every target URL, and publish the mapping to the
    /// table as one whole — or, on any failure, leave the table exactly as
    /// it was. Exactly one outcome counter is incremented, and the
    /// critical section is released on every path.
    pub fn complete(&mut self, table: &mut RouterCache, fetched: FetchOutcome) -> (r:
        ReloadOutcome)
        requires
            old(self).in_flight(),
            old(self).successes() < u64::MAX,
            old(self).failures() < u64::MAX,
        ensures
            !final(self).in_flight(),
            final(self).successes() + final(self).failures() == old(self).successes() + old(
                self,
            ).failures() + 1,
            match r {
                ReloadOutcome::Published(n) => {
                    &&& fetched matches FetchOutcome::Success(text) && yaml_links_of(text@)
                        matches Some(m) && all_targets_ok(m) && cache_map(*final(table)) == m
                        && n == m.dom().len()
                    &&& final(self).successes() == old(self).successes() + 1
                    &&& final(self).failures() == old(self).failures()
                },
                ReloadOutcome::FetchFailed => {
                    &&& fetched is Failure
                    &&& *final(table) == *old(table)
                    &&& final(self).failures() == old(self).failures() + 1
                },
                ReloadOutcome::ParseFailed => {
                    &&& fetched matches FetchOutcome::Success(text) && yaml_links_of(text@)
                        is None
                    &&& *final(table) == *old(table)
                    &&& final(self).failures() == old(self).failures() + 1
                },
                ReloadOutcome::ValidationFailed(code) => {
                    &&& fetched matches FetchOutcome::Success(text) && yaml_links_of(text@)
                        matches Some(m) && m.contains_key(code@) && blank(m[code@])
                    &&& *final(table) == *old(table)
                    &&& final(self).failures() == old(self).failures() + 1
                },
            },
    {
        self.busy = false;
        match fetched {
            FetchOutcome::Failure => {
                self.fail_count = self.fail_count + 1;
                ReloadOutcome::FetchFailed
            },
            FetchOutcome::Success(text) => {
                match parse_links_text(text.as_str()) {
                    None => {
                        self.fail_count = self.fail_count + 1;
                        ReloadOutcome::ParseFailed
                    },
                    Some(pairs) => {
                        match first_blank_target(&pairs) {
                            Some(code) => {
                                proof {
                                    let i = choose|i: int|
                                        {
                                            &&& 0 <= i < pairs@.len()
                                            &&& blank(#[trigger] pairs@[i].1@)
                                            &&& pairs@[i].0@ == code@
                                            &&& forall|j: int|
                                                0 <= j < i ==> !blank(#[trigger] pairs@[j].1@)
                                        };
                                    crate::mapping::lemma_pairs_map_index(pairs@, i);
                                }
                                self.fail_count = self.fail_count + 1;
                                ReloadOutcome::ValidationFailed(code)
                            },
                            None => {
                                proof {
                                    crate::source::lemma_targets_ok_iff(pairs@);
                                    crate::mapping::lemma_pairs_map_len(pairs@);
                                }
                                let n = pairs.len();
                                table.swap(pairs);
                                self.success_count = self.success_count + 1;
                                ReloadOutcome::Published(n)
                            },
                        }
                    },
                }
            },
        }
    }

    /// Reload attempts that published a new snapshot.
    pub fn success_total(&self) -> (r: u64)
        ensures
            r == self.successes(),
    {
        self.success_count
    }

    /// Reload attempts that failed.
    pub fn fail_total(&self) -> (r: u64)
        ensures
            r == self.failures(),
    {
        self.fail_count
    }
}

/// Law: of two reload triggers that try to enter the critical section in
/// turn, with no completion in between, the second is always refused —
/// the external fetch step never runs twice at a time.
pub proof fn lemma_single_flight(busy0: bool)
    ensures
        ({
            let (g1, b1) = begin_step(busy0);
            let (g2, b2) = begin_step(b1);
            !g2 && !(g1 && g2)
        }),
{
}

} // verus!
