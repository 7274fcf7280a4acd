use vstd::prelude::*;

use crate::rotation::Rotation;

verus! {

/// Milliseconds from `since` to `now`; zero if the clock reads earlier.
pub open spec fn elapsed(now: u64, since: u64) -> int {
    if now >= since {
        now - since
    } else {
        0
    }
}

/// Holds a candidate orientation until it has been stable for a delay.
/// `last` is the last candidate seen (`None` before any, or when it was
/// indeterminate) and `changed_at` the time in milliseconds when it changed.
#[derive(Debug, Clone, Copy, PartialEq, Eq, Structural)]
pub struct Debounce {
    pub last: Option<Rotation>,
    pub changed_at: u64,
}

/// One tick of the engine: the next state and what is to be written, if
/// anything. A change of candidate is stored with its time and writes
/// nothing; a stable candidate is written once the delay has passed since its
/// change, and on every stable tick after that.
pub open spec fn debounce_step(d: Debounce, candidate: Option<Rotation>, now: u64, delay: u64) -> (
    Debounce,
    Option<Rotation>,
) {
    if candidate != d.last {
        (Debounce { last: candidate, changed_at: now }, None)
    } else if elapsed(now, d.changed_at) >= delay {
        (d, candidate)
    } else {
        (d, None)
    }
}

/// What a run of ticks `(candidate, time)` writes, tick by tick.
pub open spec fn debounce_run(d: Debounce, ticks: Seq<(Option<Rotation>, u64)>, delay: u64) -> Seq<
    Option<Rotation>,
>
    decreases ticks.len(),
{
    if ticks.len() == 0 {
        Seq::empty()
    } else {
        let (next, w) = debounce_step(d, ticks[0].0, ticks[0].1, delay);
        seq![w] + debounce_run(next, ticks.drop_first(), delay)
    }
}

fn same_candidate(a: Option<Rotation>, b: Option<Rotation>) -> (r: bool)
    ensures
        r == (a == b),
{
    match (a, b) {
        (None, None) => true,
        (Some(x), Some(y)) => x == y,
        _ => false,
    }
}

impl Debounce {
    /// A fresh engine that has seen no candidate, started at time `now`.
    pub fn new(now: u64) -> (r: Debounce)
        ensures
            r.last.is_none(),
            r.changed_at == now,
    {
        Debounce { last: None, changed_at: now }
    }

    /// Feeds this tick's candidate, seen at time `now`; returns the
    /// orientation to write, if any.
    pub fn step(&mut self, candidate: Option<Rotation>, now: u64, delay: u64) -> (r: Option<
        Rotation,
    >)
        ensures
            (*final(self), r) == debounce_step(*old(self), candidate, now, delay),
            candidate != old(self).last ==> r.is_none(),
            r.is_some() ==> r == candidate,
    {
        if !same_candidate(candidate, self.last) {
            self.last = candidate;
            self.changed_at = now;
            None
        } else {
            let waited: u64 = if now >= self.changed_at {
                now - self.changed_at
            } else {
                0
            };
            if waited >= delay {
                candidate
            } else {
                None
            }
        }
    }
}

/// A candidate that changes on every tick never gets written, however long
/// the run.
pub proof fn lemma_changing_candidate_never_written(
    d: Debounce,
    ticks: Seq<(Option<Rotation>, u64)>,
    delay: u64,
)
    requires
        ticks.len() > 0 ==> ticks[0].0 != d.last,
        forall|i: int| 0 < i < ticks.len() ==> #[trigger] ticks[i].0 != ticks[i - 1].0,
    ensures
        debounce_run(d, ticks, delay).len() == ticks.len(),
        forall|i: int| 0 <= i < ticks.len() ==> (#[trigger] debounce_run(d, ticks, delay)[i]).is_none(),
    decreases ticks.len(),
{
    if ticks.len() > 0 {
        let (next, w) = debounce_step(d, ticks[0].0, ticks[0].1, delay);
        let rest = ticks.drop_first();
        assert forall|i: int| 0 < i < rest.len() implies #[trigger] rest[i].0 != rest[i - 1].0 by {
            assert(rest[i] == ticks[i + 1]);
            assert(rest[i - 1] == ticks[i]);
        }
        lemma_changing_candidate_never_written(next, rest, delay);
        let run = debounce_run(d, ticks, delay);
        assert forall|i: int| 0 <= i < ticks.len() implies (#[trigger] run[i]).is_none() by {
            if i > 0 {
                assert(run[i] == debounce_run(next, rest, delay)[i - 1]);
            }
        }
    }
}

/// A candidate orientation `r` that appears at time `t0` and then holds
/// steady is written exactly once, on the first tick at least `delay` after
/// `t0`: no tick before that writes anything.
pub proof fn lemma_steady_candidate_written_once(
    d: Debounce,
    r: Rotation,
    t0: u64,
    ticks: Seq<(Option<Rotation>, u64)>,
    delay: u64,
)
    requires
        d.last != Some(r),
        ticks.len() > 0,
        forall|i: int| 0 <= i < ticks.len() ==> (#[trigger] ticks[i]).0 == Some(r) && ticks[i].1 >= t0,
        forall|i: int| 0 <= i < ticks.len() - 1 ==> (#[trigger] ticks[i]).1 < t0 + delay,
        ticks[ticks.len() - 1].1 >= t0 + delay,
    ensures
        ({
            let run = debounce_run(d, seq![(Some(r), t0)] + ticks, delay);
            &&& run.len() == ticks.len() + 1
            &&& forall|i: int| 0 <= i < ticks.len() ==> (#[trigger] run[i]).is_none()
            &&& run[ticks.len() as int] == Some(r)
        }),
{
    let all = seq![(Some(r), t0)] + ticks;
    let held = Debounce { last: Some(r), changed_at: t0 };
    assert(all.drop_first() =~= ticks);
    assert(debounce_step(d, Some(r), t0, delay) == (held, None::<Rotation>));
    lemma_steady_run(held, ticks, delay);
    let run = debounce_run(d, all, delay);
    assert(run == seq![None::<Rotation>] + debounce_run(held, ticks, delay));
    assert forall|i: int| 0 <= i < ticks.len() implies (#[trigger] run[i]).is_none() by {
        if i > 0 {
            assert(run[i] == debounce_run(held, ticks, delay)[i - 1]);
        }
    }
}

proof fn lemma_steady_run(held: Debounce, ticks: Seq<(Option<Rotation>, u64)>, delay: u64)
    requires
        held.last.is_some(),
        ticks.len() > 0,
        forall|i: int|
            0 <= i < ticks.len() ==> (#[trigger] ticks[i]).0 == held.last && ticks[i].1
                >= held.changed_at,
        forall|i: int| 0 <= i < ticks.len() - 1 ==> (#[trigger] ticks[i]).1 < held.changed_at + delay,
        ticks[ticks.len() - 1].1 >= held.changed_at + delay,
    ensures
        debounce_run(held, ticks, delay).len() == ticks.len(),
        forall|i: int|
            0 <= i < ticks.len() - 1 ==> (#[trigger] debounce_run(held, ticks, delay)[i]).is_none(),
        debounce_run(held, ticks, delay)[ticks.len() - 1] == held.last,
    decreases ticks.len(),
{
    let rest = ticks.drop_first();
    let run = debounce_run(held, ticks, delay);
    assert(ticks[0].0 == held.last);
    if ticks.len() == 1 {
        assert(run == seq![held.last] + debounce_run(held, rest, delay));
    } else {
        assert(debounce_step(held, ticks[0].0, ticks[0].1, delay) == (held, None::<Rotation>));
        assert forall|i: int| 0 <= i < rest.len() implies (#[trigger] rest[i]).0 == held.last
            && rest[i].1 >= held.changed_at by {
            assert(rest[i] == ticks[i + 1]);
        }
        assert forall|i: int| 0 <= i < rest.len() - 1 implies (#[trigger] rest[i]).1
            < held.changed_at + delay by {
            assert(rest[i] == ticks[i + 1]);
        }
        assert(rest[rest.len() - 1] == ticks[ticks.len() - 1]);
        lemma_steady_run(held, rest, delay);
        assert(run == seq![None::<Rotation>] + debounce_run(held, rest, delay));
        assert forall|i: int| 0 <= i < ticks.len() - 1 implies (#[trigger] run[i]).is_none() by {
            if i > 0 {
                assert(run[i] == debounce_run(held, rest, delay)[i - 1]);
            }
        }
        assert(run[ticks.len() - 1] == debounce_run(held, rest, delay)[rest.len() - 1]);
    }
}

} // verus!
