//! Admission control for externally triggered reloads: a fixed-window
//! rate limiter per client identity, with a rolling 60-second and a
//! rolling 24-hour horizon. A window resets when its horizon has elapsed
//! since its start; a refused check consumes nothing.

use vstd::prelude::*;

verus! {

/// Seconds in the short admission horizon.
pub const MINUTE_HORIZON: u64 = 60;

/// Seconds in the long admission horizon.
pub const DAY_HORIZON: u64 = 86400;

/// Counters and window starts for one client identity.
#[derive(Clone, Copy, Debug)]
pub struct RateWindow {
    /// Checks admitted in the current 60-second window.
    pub minute_count: u32,
    /// When the current 60-second window started.
    pub minute_start: u64,
    /// Checks admitted in the current 24-hour window.
    pub day_count: u32,
    /// When the current 24-hour window started.
    pub day_start: u64,
}

/// The window state of an identity seen for the first time at `now`.
pub open spec fn fresh_window(now: u64) -> RateWindow {
    RateWindow { minute_count: 0, minute_start: now, day_count: 0, day_start: now }
}

/// Seconds since `start`, never negative: a clock that appears to have
/// moved backwards counts as no time passed.
pub open spec fn elapsed(start: u64, now: u64) -> int {
    if now >= start {
        now - start
    } else {
        0
    }
}

/// The window state once each horizon that has fully elapsed is reset.
pub open spec fn rolled(w: RateWindow, now: u64) -> RateWindow {
    RateWindow {
        minute_count: if elapsed(w.minute_start, now) >= MINUTE_HORIZON {
            0
        } else {
            w.minute_count
        },
        minute_start: if elapsed(w.minute_start, now) >= MINUTE_HORIZON {
            now
        } else {
            w.minute_start
        },
        day_count: if elapsed(w.day_start, now) >= DAY_HORIZON {
            0
        } else {
            w.day_count
        },
        day_start: if elapsed(w.day_start, now) >= DAY_HORIZON {
            now
        } else {
            w.day_start
        },
    }
}

/// Whether one more check fits in both budgets.
pub open spec fn admitted(w: RateWindow, per_minute: u32, per_day: u32) -> bool {
    w.minute_count < per_minute && w.day_count < per_day
}

/// The window state after an admitted check.
pub open spec fn bumped(w: RateWindow) -> RateWindow {
    RateWindow {
        minute_count: (w.minute_count + 1) as u32,
        minute_start: w.minute_start,
        day_count: (w.day_count + 1) as u32,
        day_start: w.day_start,
    }
}

/// One admission check: roll the windows, then either consume one unit
/// from both budgets and admit, or refuse without consuming anything.
pub open spec fn allow_step(w: RateWindow, now: u64, per_minute: u32, per_day: u32) -> (
    RateWindow,
    bool,
) {
    let r = rolled(w, now);
    if admitted(r, per_minute, per_day) {
        (bumped(r), true)
    } else {
        (r, false)
    }
}

/// The map denoted by the per-identity entries.
pub open spec fn window_map(s: Seq<(String, RateWindow)>) -> Map<Seq<char>, RateWindow>
    decreases s.len(),
{
    if s.len() == 0 {
        Map::empty()
    } else {
        window_map(s.drop_last()).insert(s.last().0@, s.last().1)
    }
}

/// No two entries belong to the same identity.
pub open spec fn unique_identities(s: Seq<(String, RateWindow)>) -> bool {
    forall|i: int, j: int| 0 <= i < j < s.len() ==> s[i].0@ != s[j].0@
}

proof fn lemma_window_map_dom(s: Seq<(String, RateWindow)>, k: Seq<char>)
    ensures
        window_map(s).contains_key(k) <==> exists|i: int| 0 <= i < s.len() && s[i].0@ == k,
    decreases s.len(),
{
    if s.len() > 0 {
        lemma_window_map_dom(s.drop_last(), k);
        if s.last().0@ == k {
            assert(s[s.len() - 1].0@ == k);
        } else if window_map(s).contains_key(k) {
            let i = choose|i: int| 0 <= i < s.drop_last().len() && s.drop_last()[i].0@ == k;
            assert(s[i].0@ == k);
        } else if exists|i: int| 0 <= i < s.len() && s[i].0@ == k {
            let i = choose|i: int| 0 <= i < s.len() && s[i].0@ == k;
            assert(s.drop_last()[i].0@ == k);
        }
    }
}

proof fn lemma_window_map_index(s: Seq<(String, RateWindow)>, i: int)
    requires
        unique_identities(s),
        0 <= i < s.len(),
    ensures
        window_map(s).contains_key(s[i].0@),
        window_map(s)[s[i].0@] == s[i].1,
    decreases s.len(),
{
    if i == s.len() - 1 {
    } else {
        lemma_window_map_index(s.drop_last(), i);
        assert(s.drop_last()[i] == s[i]);
        assert(s.last().0@ != s[i].0@);
    }
}

proof fn lemma_window_map_update(s: Seq<(String, RateWindow)>, i: int, w: RateWindow)
    requires
        unique_identities(s),
        0 <= i < s.len(),
    ensures
        window_map(s.update(i, (s[i].0, w))) == window_map(s).insert(s[i].0@, w),
    decreases s.len(),
{
    let t = s.update(i, (s[i].0, w));
    if i == s.len() - 1 {
        assert(t.drop_last() =~= s.drop_last());
        assert(window_map(t) =~= window_map(s).insert(s[i].0@, w));
    } else {
        lemma_window_map_update(s.drop_last(), i, w);
        assert(t.drop_last() =~= s.drop_last().update(i, (s[i].0, w)));
        assert(t.last() == s.last());
        assert(s.last().0@ != s[i].0@);
        assert(window_map(t) =~= window_map(s).insert(s[i].0@, w));
    }
}

/// The fixed-window rate limiter over all client identities.
pub struct RateLimiter {
    clients: Vec<(String, RateWindow)>,
    per_minute: u32,
    per_day: u32,
}

impl RateLimiter {
    /// The window state of each identity seen so far.
    pub closed spec fn windows(self) -> Map<Seq<char>, RateWindow> {
        window_map(self.clients@)
    }

    /// The per-minute admission budget.
    pub closed spec fn per_minute(self) -> u32 {
        self.per_minute
    }

    /// The per-day admission budget.
    pub closed spec fn per_day(self) -> u32 {
        self.per_day
    }

    /// Each identity holds at most one entry.
    pub closed spec fn wf(self) -> bool {
        unique_identities(self.clients@)
    }

    /// A limiter with the given budgets and no identity seen yet.
    pub fn new(per_minute: u32, per_day: u32) -> (r: RateLimiter)
        ensures
            r.wf(),
            r.windows() == Map::<Seq<char>, RateWindow>::empty(),
            r.per_minute() == per_minute,
            r.per_day() == per_day,
    {
        RateLimiter { clients: Vec::new(), per_minute, per_day }
    }

    /// Whether a check from `identity` at time `now` may proceed; admission
    /// consumes one unit from both of the identity's budgets, refusal
    /// consumes nothing. An identity not seen before starts two fresh
    /// windows at `now`.
    pub fn allow(&mut self, identity: &String, now: u64) -> (r: bool)
        requires
            old(self).wf(),
        ensures
            final(self).wf(),
            final(self).per_minute() == old(self).per_minute(),
            final(self).per_day() == old(self).per_day(),
            ({
                let w0 = if old(self).windows().contains_key(identity@) {
                    old(self).windows()[identity@]
                } else {
                    fresh_window(now)
                };
                let (w1, ok) = allow_step(w0, now, old(self).per_minute(), old(self).per_day());
                r == ok && final(self).windows() == old(self).windows().insert(identity@, w1)
            }),
    {
        let found = find_client(&self.clients, identity);
        match found {
            Some(i) => {
                proof {
                    lemma_window_map_index(self.clients@, i as int);
                }
                let w0 = self.clients[i].1;
                let (w1, ok) = apply_step(w0, now, self.per_minute, self.per_day);
                self.clients[i].1 = w1;
                proof {
                    assert(self.clients@ =~= old(self).clients@.update(
                        i as int,
                        (old(self).clients@[i as int].0, w1),
                    ));
                    lemma_window_map_update(old(self).clients@, i as int, w1);
                }
                ok
            },
            None => {
                proof {
                    lemma_window_map_dom(self.clients@, identity@);
                }
                let w0 = RateWindow {
                    minute_count: 0,
                    minute_start: now,
                    day_count: 0,
                    day_start: now,
                };
                let (w1, ok) = apply_step(w0, now, self.per_minute, self.per_day);
                self.clients.push((identity.clone(), w1));
                proof {
                    assert(self.clients@.drop_last() =~= old(self).clients@);
                }
                ok
            },
        }
    }
}

/// The entry index of `identity`, if one exists.
fn find_client(clients: &Vec<(String, RateWindow)>, identity: &String) -> (r: Option<usize>)
    ensures
        match r {
            Some(i) => i < clients@.len() && clients@[i as int].0@ == identity@,
            None => forall|j: int| 0 <= j < clients@.len() ==> clients@[j].0@ != identity@,
        },
{
    let n = clients.len();
    for i in 0..n
        invariant
            n == clients@.len(),
            forall|j: int| 0 <= j < i ==> clients@[j].0@ != identity@,
    {
        if clients[i].0 == *identity {
            return Some(i);
        }
    }
    None
}

/// One admission check, executably.
fn apply_step(w: RateWindow, now: u64, per_minute: u32, per_day: u32) -> (r: (RateWindow, bool))
    ensures
        r == allow_step(w, now, per_minute, per_day),
{
    let minute_elapsed: u64 = if now >= w.minute_start {
        now - w.minute_start
    } else {
        0
    };
    let day_elapsed: u64 = if now >= w.day_start {
        now - w.day_start
    } else {
        0
    };
    let mut rw = w;
    if minute_elapsed >= MINUTE_HORIZON {
        rw.minute_count = 0;
        rw.minute_start = now;
    }
    if day_elapsed >= DAY_HORIZON {
        rw.day_count = 0;
        rw.day_start = now;
    }
    if rw.minute_count < per_minute && rw.day_count < per_day {
        let admitted_w = RateWindow {
            minute_count: rw.minute_count + 1,
            minute_start: rw.minute_start,
            day_count: rw.day_count + 1,
            day_start: rw.day_start,
        };
        (admitted_w, true)
    } else {
        (rw, false)
    }
}

/// Law: with a per-minute budget of 1, of two admission checks for one
/// new identity within the same 60-second window the first is admitted
/// and the second refused, and a later check made once the window has
/// elapsed — the day budget allowing — is admitted again.
pub proof fn lemma_rate_limit_minute(t1: u64, t2: u64, t3: u64, per_day: u32)
    requires
        t1 <= t2,
        t2 < t1 + MINUTE_HORIZON,
        t2 <= t3,
        t3 >= t1 + MINUTE_HORIZON,
        t3 < t1 + DAY_HORIZON,
        per_day >= 2,
    ensures
        ({
            let (w1, a1) = allow_step(fresh_window(t1), t1, 1, per_day);
            let (w2, a2) = allow_step(w1, t2, 1, per_day);
            let (w3, a3) = allow_step(w2, t3, 1, per_day);
            a1 && !a2 && a3
        }),
{
}

/// Law: an identity whose day budget is spent is refused for the rest of
/// its 24-hour window, whatever the state of its minute window.
pub proof fn lemma_rate_limit_day(w: RateWindow, now: u64, per_minute: u32, per_day: u32)
    requires
        w.day_count >= per_day,
        elapsed(w.day_start, now) < DAY_HORIZON,
    ensures
        !allow_step(w, now, per_minute, per_day).1,
{
}

} // verus!
