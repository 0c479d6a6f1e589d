//! The task that warns while a suite is still running.
//!
//! A watchdog sleeps for one timeout, wakes, and looks whether the suite
//! has completed. If not, it warns with the time slept so far and sleeps
//! again; if so, it stops. It never interrupts the suite: its warnings are
//! all there is to a timeout. Sleeping and looking are the caller's part; a
//! watchdog decides what follows from them.

use crate::event::Payload;
use crate::span::Span;
use vstd::prelude::*;

verus! {

/// Where a watchdog stands.
#[derive(Clone, Copy, Debug, PartialEq, Eq, Structural)]
pub enum Phase {
    /// Made, and not yet asleep.
    Idle,
    /// Asleep for one timeout, or just awake from it.
    Waiting,
    /// Stopped, having seen the suite complete or lost its listener.
    Done,
}

/// A watchdog as a contract sees it: the timeout in nanoseconds and a
/// count of warnings that has no upper limit.
pub struct WatchdogView {
    pub id: Seq<char>,
    pub timeout: nat,
    pub phase: Phase,
    pub warnings: nat,
}

impl WatchdogView {
    /// The watchdog of suite `id` before its first sleep.
    pub open spec fn idle(id: Seq<char>, timeout: nat) -> WatchdogView {
        WatchdogView { id, timeout, phase: Phase::Idle, warnings: 0 }
    }

    /// The watchdog once told to start: an idle one goes to sleep, any
    /// other is as it was.
    pub open spec fn start(self) -> WatchdogView {
        if self.phase is Idle {
            WatchdogView { phase: Phase::Waiting, ..self }
        } else {
            self
        }
    }

    /// The watchdog once nobody listens to it any more: it is done.
    pub open spec fn hang_up(self) -> WatchdogView {
        WatchdogView { phase: Phase::Done, ..self }
    }

    /// The elapsed time that the next warning carries: one timeout for
    /// each warning so far and one for the sleep just ended.
    pub open spec fn due(self) -> nat {
        self.timeout * (self.warnings + 1)
    }

    /// The watchdog after a wake at which the suite was seen `complete` or
    /// not, and the elapsed time of the warning that the wake gives rise to.
    pub open spec fn on_wake(self, complete: bool) -> (WatchdogView, Option<nat>) {
        if !(self.phase is Waiting) {
            (self, None)
        } else if complete {
            (WatchdogView { phase: Phase::Done, ..self }, None)
        } else {
            (WatchdogView { warnings: self.warnings + 1, ..self }, Some(self.due()))
        }
    }
}

/// The watchdog of one suite.
pub struct Watchdog {
    /// The id of the suite, which every warning carries.
    pub id: String,
    /// How long each sleep lasts.
    pub timeout: Span,
    pub phase: Phase,
    /// How many warnings have been given.
    pub warnings: u64,
}

impl View for Watchdog {
    type V = WatchdogView;

    open spec fn view(&self) -> WatchdogView {
        WatchdogView {
            id: self.id@,
            timeout: self.timeout@,
            phase: self.phase,
            warnings: self.warnings as nat,
        }
    }
}

impl Watchdog {
    /// Whether one more warning can be counted and its elapsed time held
    /// in a span.
    pub open spec fn has_room(self) -> bool {
        &&& self.warnings < u64::MAX
        &&& self@.due() <= Span::longest()
    }

    /// The watchdog of suite `id`, idle, that will sleep `timeout` at a time.
    pub fn new(id: String, timeout: Span) -> (r: Watchdog)
        ensures
            r@ == WatchdogView::idle(id@, timeout@),
            r.id == id,
            r.timeout == timeout,
    {
        Watchdog { id, timeout, phase: Phase::Idle, warnings: 0 }
    }

    /// Sends an idle watchdog to sleep and returns how long each sleep is
    /// to last. A watchdog that has started already is left as it is.
    pub fn start(&mut self) -> (nap: Span)
        ensures
            final(self)@ == old(self)@.start(),
            final(self).id == old(self).id,
            final(self).timeout == old(self).timeout,
            nap == old(self).timeout,
    {
        if let Phase::Idle = self.phase {
            self.phase = Phase::Waiting;
        }
        self.timeout
    }

    /// Takes note that a warning could not be sent because nobody listens
    /// any more. The watchdog stops, whatever it was doing, and warns no
    /// more.
    pub fn hang_up(&mut self)
        ensures
            final(self)@ == old(self)@.hang_up(),
            final(self).id == old(self).id,
            final(self).timeout == old(self).timeout,
    {
        self.phase = Phase::Done;
    }

    /// Whether `has_room` holds.
    pub fn can_warn(&self) -> (r: bool)
        ensures
            r == self.has_room(),
    {
        if self.warnings == u64::MAX {
            return false;
        }
        self.timeout.checked_mul(self.warnings + 1).is_some()
    }

    /// Takes note of a wake from one sleep, at which the suite was seen
    /// `complete` or not.
    ///
    /// A waiting watchdog that sees the suite still running returns a
    /// warning that carries the suite's id and the time slept so far, an
    /// exact multiple of the timeout, and waits on. One that sees the suite
    /// complete stops and returns nothing. A watchdog that is idle or done
    /// returns nothing and stays as it is.
    pub fn on_wake(&mut self, complete: bool) -> (warning: Option<Payload<Span>>)
        requires
            old(self).phase is Waiting && !complete ==> old(self).has_room(),
        ensures
            final(self)@ == old(self)@.on_wake(complete).0,
            final(self).id == old(self).id,
            final(self).timeout == old(self).timeout,
            match warning {
                Some(p) => p.id == old(self).id && old(self)@.on_wake(complete).1 == Some(p.body@),
                None => old(self)@.on_wake(complete).1 is None,
            },
    {
        match self.phase {
            Phase::Waiting => {
                if complete {
                    self.phase = Phase::Done;
                    None
                } else {
                    self.warnings = self.warnings + 1;
                    let body = self.timeout.checked_mul(self.warnings).unwrap();
                    Some(Payload { id: self.id.clone(), body })
                }
            },
            _ => None,
        }
    }
}

} // verus!
