use vstd::prelude::*;

use crate::debounce::{debounce_step, Debounce};
use crate::rotation::Rotation;

verus! {

/// Exit status of a clean shutdown.
pub const EXIT_OK: i32 = 0;

/// Exit status when no logger could be set up.
pub const EXIT_LOGGER_INIT: i32 = 2;

/// Exit status when the accelerometer could not be set up.
pub const EXIT_ACCEL_INIT: i32 = 3;

/// Exit status when the output file could not be opened and the policy is to quit.
pub const EXIT_SINK_OPEN: i32 = 4;

/// Exit status when the output file could not be written and the policy is to quit.
pub const EXIT_SINK_WRITE: i32 = 5;

/// Exit status when the signal watcher went away without reporting a signal.
pub const EXIT_SIGNAL_WATCHER: i32 = 17;

/// What a non-blocking look at the signal channel found.
#[derive(Debug, Clone, Copy, PartialEq, Eq, Structural)]
pub enum SignalStatus {
    /// No signal has arrived.
    Empty,
    /// A termination signal arrived.
    Received,
    /// The watcher is gone and never sent a signal.
    Disconnected,
}

/// How writing a committed orientation to the output file failed.
#[derive(Debug, Clone, Copy, PartialEq, Eq, Structural)]
pub enum SinkFailure {
    Open,
    Write,
}

/// The decisions of the polling loop. `exit` is `None` while the loop runs
/// and holds the exit status once it has stopped.
#[derive(Debug, Clone, Copy, PartialEq, Eq, Structural)]
pub struct RunLoop {
    pub debounce: Debounce,
    pub delay_ms: u64,
    pub quit_on_write_error: bool,
    pub quit_on_open_error: bool,
    pub exit: Option<i32>,
}

/// The loop's state after a look at the signal channel.
pub open spec fn after_signal(s: RunLoop, status: SignalStatus) -> RunLoop {
    if s.exit.is_some() {
        s
    } else {
        match status {
            SignalStatus::Empty => s,
            SignalStatus::Received => RunLoop { exit: Some(EXIT_OK), ..s },
            SignalStatus::Disconnected => RunLoop { exit: Some(EXIT_SIGNAL_WATCHER), ..s },
        }
    }
}

/// The loop's state after a failure of the output file, by the two policies.
pub open spec fn after_sink_failure(s: RunLoop, failure: SinkFailure) -> RunLoop {
    if s.exit.is_some() {
        s
    } else {
        match failure {
            SinkFailure::Open => if s.quit_on_open_error {
                RunLoop { exit: Some(EXIT_SINK_OPEN), ..s }
            } else {
                s
            },
            SinkFailure::Write => if s.quit_on_write_error {
                RunLoop { exit: Some(EXIT_SINK_WRITE), ..s }
            } else {
                s
            },
        }
    }
}

/// The loop's state and what is to be written after one tick; a stopped loop
/// does nothing.
pub open spec fn after_tick(s: RunLoop, candidate: Option<Rotation>, now: u64) -> (
    RunLoop,
    Option<Rotation>,
) {
    if s.exit.is_some() {
        (s, None)
    } else {
        let (d, w) = debounce_step(s.debounce, candidate, now, s.delay_ms);
        (RunLoop { debounce: d, ..s }, w)
    }
}

/// What a run of ticks `(candidate, time)` writes, tick by tick.
pub open spec fn tick_run(s: RunLoop, ticks: Seq<(Option<Rotation>, u64)>) -> Seq<Option<Rotation>>
    decreases ticks.len(),
{
    if ticks.len() == 0 {
        Seq::empty()
    } else {
        let (next, w) = after_tick(s, ticks[0].0, ticks[0].1);
        seq![w] + tick_run(next, ticks.drop_first())
    }
}

impl RunLoop {
    /// A running loop started at time `now`, which commits a candidate once it
    /// has been stable for `delay_ms`.
    pub fn new(now: u64, delay_ms: u64, quit_on_write_error: bool, quit_on_open_error: bool) -> (r:
        RunLoop)
        ensures
            r.debounce.last.is_none(),
            r.debounce.changed_at == now,
            r.delay_ms == delay_ms,
            r.quit_on_write_error == quit_on_write_error,
            r.quit_on_open_error == quit_on_open_error,
            r.exit.is_none(),
    {
        RunLoop {
            debounce: Debounce::new(now),
            delay_ms,
            quit_on_write_error,
            quit_on_open_error,
            exit: None,
        }
    }

    /// True while the loop has not stopped.
    pub fn is_running(&self) -> (r: bool)
        ensures
            r == self.exit.is_none(),
    {
        self.exit.is_none()
    }

    /// The exit status: that of the stop, or success while still running.
    pub fn exit_code(&self) -> (r: i32)
        ensures
            r == (match self.exit {
                Some(c) => c,
                None => EXIT_OK,
            }),
    {
        match self.exit {
            Some(c) => c,
            None => EXIT_OK,
        }
    }

    /// Takes in what the signal channel showed at the start of a tick. A
    /// signal stops the loop cleanly; a vanished watcher stops it with its own
    /// status.
    pub fn check_signal(&mut self, status: SignalStatus)
        ensures
            *final(self) == after_signal(*old(self), status),
            old(self).exit.is_none() && status == SignalStatus::Received ==> final(self).exit
                == Some(EXIT_OK),
            old(self).exit.is_none() && status == SignalStatus::Disconnected ==> final(self).exit
                == Some(EXIT_SIGNAL_WATCHER),
            status == SignalStatus::Empty ==> *final(self) == *old(self),
    {
        if self.exit.is_none() {
            match status {
                SignalStatus::Empty => {},
                SignalStatus::Received => {
                    self.exit = Some(EXIT_OK);
                },
                SignalStatus::Disconnected => {
                    self.exit = Some(EXIT_SIGNAL_WATCHER);
                },
            }
        }
    }

    /// Feeds this tick's candidate orientation, seen at time `now`; returns the
    /// orientation to write to the output file, if any.
    pub fn tick(&mut self, candidate: Option<Rotation>, now: u64) -> (r: Option<Rotation>)
        ensures
            (*final(self), r) == after_tick(*old(self), candidate, now),
            old(self).exit.is_some() ==> r.is_none() && *final(self) == *old(self),
    {
        if self.exit.is_some() {
            return None;
        }
        self.debounce.step(candidate, now, self.delay_ms)
    }

    /// Takes in a failure to open or write the output file; the loop stops
    /// with the matching status where its policy says to quit.
    pub fn sink_failed(&mut self, failure: SinkFailure)
        ensures
            *final(self) == after_sink_failure(*old(self), failure),
            old(self).exit.is_none() && failure == SinkFailure::Open && old(self).quit_on_open_error
                ==> final(self).exit == Some(EXIT_SINK_OPEN),
            old(self).exit.is_none() && failure == SinkFailure::Write
                && old(self).quit_on_write_error ==> final(self).exit == Some(EXIT_SINK_WRITE),
    {
        if self.exit.is_none() {
            match failure {
                SinkFailure::Open => {
                    if self.quit_on_open_error {
                        self.exit = Some(EXIT_SINK_OPEN);
                    }
                },
                SinkFailure::Write => {
                    if self.quit_on_write_error {
                        self.exit = Some(EXIT_SINK_WRITE);
                    }
                },
            }
        }
    }
}

/// Once a loop has stopped, no later tick writes anything and its exit
/// status stays as it is.
pub proof fn lemma_stopped_loop_is_inert(s: RunLoop, ticks: Seq<(Option<Rotation>, u64)>)
    requires
        s.exit.is_some(),
    ensures
        tick_run(s, ticks).len() == ticks.len(),
        forall|i: int| 0 <= i < ticks.len() ==> (#[trigger] tick_run(s, ticks)[i]).is_none(),
    decreases ticks.len(),
{
    if ticks.len() > 0 {
        let rest = ticks.drop_first();
        lemma_stopped_loop_is_inert(s, rest);
        let run = tick_run(s, ticks);
        assert(run == seq![None::<Rotation>] + tick_run(s, rest));
        assert forall|i: int| 0 <= i < ticks.len() implies (#[trigger] run[i]).is_none() by {
            if i > 0 {
                assert(run[i] == tick_run(s, rest)[i - 1]);
            }
        }
    }
}

/// A failure to open the output file under the quit-on-open-error policy
/// stops a running loop with the open-failure status, and no tick after it
/// writes anything.
pub proof fn lemma_open_failure_stops_loop(s: RunLoop, ticks: Seq<(Option<Rotation>, u64)>)
    requires
        s.exit.is_none(),
        s.quit_on_open_error,
    ensures
        after_sink_failure(s, SinkFailure::Open).exit == Some(EXIT_SINK_OPEN),
        forall|i: int|
            0 <= i < ticks.len() ==> (#[trigger] tick_run(
                after_sink_failure(s, SinkFailure::Open),
                ticks,
            )[i]).is_none(),
{
    lemma_stopped_loop_is_inert(after_sink_failure(s, SinkFailure::Open), ticks);
}

/// A termination signal seen by a running loop stops it with the success
/// status, and no tick after it writes anything.
pub proof fn lemma_signal_stops_loop_cleanly(s: RunLoop, ticks: Seq<(Option<Rotation>, u64)>)
    requires
        s.exit.is_none(),
    ensures
        after_signal(s, SignalStatus::Received).exit == Some(EXIT_OK),
        forall|i: int|
            0 <= i < ticks.len() ==> (#[trigger] tick_run(
                after_signal(s, SignalStatus::Received),
                ticks,
            )[i]).is_none(),
{
    lemma_stopped_loop_is_inert(after_signal(s, SignalStatus::Received), ticks);
}

} // verus!
