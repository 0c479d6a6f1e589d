//! What a caller can see of a suite, whatever the order in which its two
//! tasks take their steps.
//!
//! A session is a suite after `run`: its watchdog, its worker, the flag by
//! which the worker tells the watchdog that it has finished, and the
//! channel that both send on. The tasks take three kinds of step. The
//! watchdog wakes, which is `Watchdog::on_wake` with the flag as it stands.
//! The worker reports, which is `Worker::finish`, and then raises the flag.
//! A schedule is the order in which the steps come.

use crate::event::RunEventView;
use crate::watchdog::Phase;
use crate::watchdog::WatchdogView;
use vstd::prelude::*;

verus! {

/// One step of one of the two tasks.
pub enum Step<R, E> {
    /// The watchdog wakes from a sleep and looks at the flag.
    Wake,
    /// The worker's execution has ended with this outcome, and the worker
    /// sends the terminal event.
    Report(Result<R, E>),
    /// The worker raises the flag.
    Raise,
}

/// A suite under way.
pub struct Session<R, E> {
    pub watchdog: WatchdogView,
    /// Whether the worker has reported.
    pub reported: bool,
    /// Whether the flag is up.
    pub raised: bool,
    /// The events sent so far, oldest first.
    pub channel: Seq<RunEventView<R, E>>,
}

impl<R, E> Session<R, E> {
    /// The session of suite `id` when both tasks have been started: the
    /// watchdog is in its first sleep, the worker is executing.
    pub open spec fn launch(id: Seq<char>, timeout: nat) -> Session<R, E> {
        Session {
            watchdog: WatchdogView::idle(id, timeout).start(),
            reported: false,
            raised: false,
            channel: Seq::empty(),
        }
    }

    /// The id of the suite.
    pub open spec fn id(self) -> Seq<char> {
        self.watchdog.id
    }

    /// What `step` sends: a wake that finds the flag down sends a warning,
    /// the first report sends the terminal event, and nothing else sends.
    pub open spec fn emits(self, step: Step<R, E>) -> Seq<RunEventView<R, E>> {
        match step {
            Step::Wake => match self.watchdog.on_wake(self.raised).1 {
                Some(elapsed) => seq![RunEventView::Slow { id: self.id(), elapsed }],
                None => Seq::empty(),
            },
            Step::Report(outcome) => if self.reported {
                Seq::empty()
            } else {
                seq![RunEventView::terminal(self.id(), outcome)]
            },
            Step::Raise => Seq::empty(),
        }
    }

    /// The session after `step`. A worker reports once, so a second report
    /// changes nothing; it raises the flag after it has reported, so a
    /// raise before the report changes nothing.
    pub open spec fn step(self, step: Step<R, E>) -> Session<R, E> {
        let channel = self.channel + self.emits(step);
        match step {
            Step::Wake => Session {
                watchdog: self.watchdog.on_wake(self.raised).0,
                channel,
                ..self
            },
            Step::Report(_) => Session { reported: true, channel, ..self },
            Step::Raise => Session { raised: self.raised || self.reported, channel, ..self },
        }
    }

    /// The session after the steps of `schedule`, first to last.
    pub open spec fn run(self, schedule: Seq<Step<R, E>>) -> Session<R, E>
        decreases schedule.len(),
    {
        if schedule.len() == 0 {
            self
        } else {
            self.run(schedule.drop_last()).step(schedule.last())
        }
    }

    /// The first `count` warnings of suite `id`: the k-th of them, counted
    /// from one, carries k timeouts.
    pub open spec fn warnings(id: Seq<char>, timeout: nat, count: nat) -> Seq<RunEventView<R, E>> {
        Seq::new(count, |k: int| RunEventView::Slow { id, elapsed: ((k + 1) * timeout) as nat })
    }

    /// The schedule in which the watchdog wakes `wakes` times while the
    /// worker executes, then the worker reports `outcome` and raises the
    /// flag, then the watchdog wakes once more.
    pub open spec fn orderly(wakes: nat, outcome: Result<R, E>) -> Seq<Step<R, E>> {
        Seq::new(wakes, |k: int| Step::Wake) + seq![
            Step::Report(outcome),
            Step::Raise,
            Step::Wake,
        ]
    }

    /// Whether `wakes` is a number of wakes that can come before the end
    /// of an execution that takes `duration`. The k-th wake is due k
    /// timeouts after the start: each wake counted was due by the end, and
    /// the one after them was not due before it.
    pub open spec fn timely(wakes: nat, timeout: nat, duration: nat) -> bool {
        &&& wakes * timeout <= duration
        &&& duration <= (wakes + 1) * timeout
    }

    /// The outcome that the worker reports in `schedule`: that of the
    /// first report, if there is one.
    pub open spec fn first_report(schedule: Seq<Step<R, E>>) -> Option<Result<R, E>>
        decreases schedule.len(),
    {
        if schedule.len() == 0 {
            None
        } else {
            match Self::first_report(schedule.drop_last()) {
                Some(outcome) => Some(outcome),
                None => match schedule.last() {
                    Step::Report(outcome) => Some(outcome),
                    _ => None,
                },
            }
        }
    }

    /// Whether the worker, in `schedule`, raises the flag right after it
    /// reports, with no wake of the watchdog in between.
    pub open spec fn synchronized(schedule: Seq<Step<R, E>>) -> bool {
        forall|i: int|
            0 <= i && i + 1 < schedule.len() && (#[trigger] schedule[i]) is Report
                ==> schedule[i + 1] is Raise
    }

    /// Whether no warning comes after a terminal event in `channel`.
    pub open spec fn settled(channel: Seq<RunEventView<R, E>>) -> bool {
        forall|i: int, j: int|
            0 <= i < j < channel.len() && (#[trigger] channel[i]).is_terminal()
                ==> !((#[trigger] channel[j]) is Slow)
    }

    /// Running a schedule and then one more step is running the schedule
    /// with that step at its end.
    pub proof fn lemma_run_push(self, schedule: Seq<Step<R, E>>, step: Step<R, E>)
        ensures
            self.run(schedule.push(step)) == self.run(schedule).step(step),
    {
        assert(schedule.push(step).drop_last() =~= schedule);
    }

    /// While the worker executes, each wake sends the next warning.
    pub proof fn lemma_wakes_warn(id: Seq<char>, timeout: nat, wakes: nat)
        ensures
            ({
                let s = Session::<R, E>::launch(id, timeout).run(Seq::new(wakes, |k: int| Step::Wake));
                &&& s.watchdog == WatchdogView {
                    id,
                    timeout,
                    phase: Phase::Waiting,
                    warnings: wakes,
                }
                &&& !s.reported
                &&& !s.raised
                &&& s.channel == Session::<R, E>::warnings(id, timeout, wakes)
            }),
        decreases wakes,
    {
        let start = Session::<R, E>::launch(id, timeout);
        let all = Seq::new(wakes, |k: int| Step::<R, E>::Wake);
        if wakes == 0 {
            assert(start.run(all).channel =~= Session::<R, E>::warnings(id, timeout, wakes));
        } else {
            let fewer: nat = (wakes - 1) as nat;
            let before = Seq::new(fewer, |k: int| Step::<R, E>::Wake);
            Self::lemma_wakes_warn(id, timeout, fewer);
            assert(all =~= before.push(Step::Wake));
            start.lemma_run_push(before, Step::Wake);
            let s = start.run(before);
            assert(s.watchdog.due() == wakes * timeout) by (nonlinear_arith)
                requires
                    s.watchdog.due() == timeout * (fewer + 1),
                    wakes == fewer + 1,
            ;
            assert(s.step(Step::Wake).channel =~= Session::<R, E>::warnings(id, timeout, wakes));
        }
    }

    /// An execution is warned about once for each timeout that it
    /// outlasts, and then it is reported.
    ///
    /// Let the execution take `duration` and let `wakes` wakes come before
    /// its end, as many as the clock allows. Then the caller sees `wakes`
    /// warnings, which carry one timeout, two timeouts and so on, each more
    /// than the one before, then the terminal event and nothing after it,
    /// and the watchdog stops. Where `duration` is no multiple of the
    /// timeout, `wakes` is `duration / timeout`. Where it is one, the last
    /// wake falls due at the very end of the execution and may come before
    /// the report or after it, so `wakes` is `duration / timeout` or one
    /// less.
    pub proof fn lemma_warnings_before_terminal(
        id: Seq<char>,
        timeout: nat,
        duration: nat,
        wakes: nat,
        outcome: Result<R, E>,
    )
        requires
            timeout > 0,
            Self::timely(wakes, timeout, duration),
        ensures
            duration % timeout != 0 ==> wakes == duration / timeout,
            duration % timeout == 0 ==> wakes == duration / timeout || wakes + 1 == duration
                / timeout,
            duration > timeout ==> wakes >= 1,
            duration < timeout ==> wakes == 0,
            ({
                let s = Session::<R, E>::launch(id, timeout).run(Self::orderly(wakes, outcome));
                &&& s.channel == Self::warnings(id, timeout, wakes).push(
                    RunEventView::terminal(id, outcome),
                )
                &&& s.watchdog.phase is Done
                &&& forall|i: int, j: int|
                    0 <= i < j < wakes ==> s.channel[i]->elapsed < s.channel[j]->elapsed
            }),
    {
        let q: nat = duration / timeout;
        let r: nat = duration % timeout;
        assert(duration == timeout * q + r && 0 <= r < timeout) by {
            vstd::arithmetic::div_mod::lemma_fundamental_div_mod(duration as int, timeout as int);
            vstd::arithmetic::div_mod::lemma_mod_bound(duration as int, timeout as int);
        }
        assert(wakes <= q && wakes + 1 >= q && (r != 0 ==> wakes == q) && (duration > timeout
            ==> wakes >= 1) && (duration < timeout ==> wakes == 0)) by (nonlinear_arith)
            requires
                timeout > 0,
                duration == timeout * q + r,
                0 <= r < timeout,
                wakes * timeout <= duration,
                duration <= (wakes + 1) * timeout,
        ;
        let start = Session::<R, E>::launch(id, timeout);
        let napping = Seq::new(wakes, |k: int| Step::<R, E>::Wake);
        let reported = napping.push(Step::Report(outcome));
        let raised = reported.push(Step::Raise);
        Self::lemma_wakes_warn(id, timeout, wakes);
        start.lemma_run_push(napping, Step::Report(outcome));
        start.lemma_run_push(reported, Step::Raise);
        start.lemma_run_push(raised, Step::Wake);
        assert(Self::orderly(wakes, outcome) =~= raised.push(Step::Wake));
        let s = start.run(Self::orderly(wakes, outcome));
        assert(s.channel =~= Self::warnings(id, timeout, wakes).push(
            RunEventView::terminal(id, outcome),
        ));
        assert forall|i: int, j: int| 0 <= i < j < wakes implies s.channel[i]->elapsed
            < s.channel[j]->elapsed by {
            assert((i + 1) * timeout < (j + 1) * timeout) by (nonlinear_arith)
                requires
                    0 <= i < j,
                    timeout > 0,
            ;
        }
    }

    /// No step takes anything back: a report stays made, the flag stays
    /// up, a stopped watchdog stays stopped, no warning is uncounted, and
    /// what has been sent stays on the channel, in its place.
    pub proof fn lemma_no_way_back(self, step: Step<R, E>)
        ensures
            self.reported ==> self.step(step).reported,
            self.raised ==> self.step(step).raised,
            self.watchdog.phase is Done ==> self.step(step).watchdog.phase is Done,
            self.watchdog.warnings <= self.step(step).watchdog.warnings,
            self.channel.is_prefix_of(self.step(step).channel),
    {
    }

    /// What a predicate keeps of the events of one step.
    proof fn lemma_filter_sent(
        sent: Seq<RunEventView<R, E>>,
        keep: spec_fn(RunEventView<R, E>) -> bool,
    )
        requires
            sent.len() <= 1,
        ensures
            sent.filter(keep) == if sent.len() == 1 && keep(sent[0]) {
                sent
            } else {
                Seq::empty()
            },
    {
        reveal(Seq::filter);
        if sent.len() == 1 {
            assert(sent.drop_last().filter(keep) =~= Seq::empty());
            assert(sent =~= Seq::empty().push(sent[0]));
        }
        assert(sent.filter(keep) =~= if sent.len() == 1 && keep(sent[0]) {
            sent
        } else {
            Seq::empty()
        });
    }

    /// What a predicate keeps of a channel after one more step: what it
    /// kept before, and what it keeps of the events of the step.
    proof fn lemma_filter_step(self, step: Step<R, E>, keep: spec_fn(RunEventView<R, E>) -> bool)
        ensures
            self.emits(step).len() <= 1,
            self.step(step).channel == self.channel + self.emits(step),
            self.step(step).channel.filter(keep) == self.channel.filter(keep) + if self.emits(
                step,
            ).len() == 1 && keep(self.emits(step)[0]) {
                self.emits(step)
            } else {
                Seq::empty()
            },
    {
        let sent = self.emits(step);
        Seq::filter_distributes_over_add(self.channel, sent, keep);
        Self::lemma_filter_sent(sent, keep);
    }

    /// Whatever the schedule, every event of a suite carries the id of
    /// that suite, and its watchdog keeps the id and the timeout that it
    /// was made with.
    pub proof fn lemma_events_name_the_suite(
        id: Seq<char>,
        timeout: nat,
        schedule: Seq<Step<R, E>>,
    )
        ensures
            ({
                let s = Session::<R, E>::launch(id, timeout).run(schedule);
                &&& s.id() == id
                &&& s.watchdog.timeout == timeout
                &&& forall|i: int| 0 <= i < s.channel.len() ==> (#[trigger] s.channel[i]).id() == id
            }),
        decreases schedule.len(),
    {
        if schedule.len() > 0 {
            let p = Session::<R, E>::launch(id, timeout).run(schedule.drop_last());
            let s = p.step(schedule.last());
            Self::lemma_events_name_the_suite(id, timeout, schedule.drop_last());
            assert forall|i: int| 0 <= i < s.channel.len() implies (#[trigger] s.channel[i]).id()
                == id by {
                if i >= p.channel.len() {
                    assert(s.channel[i] == p.emits(schedule.last())[0]);
                }
            }
        }
    }

    /// Whatever the schedule, the warnings of a suite carry one timeout,
    /// two timeouts and so on, in that order and with none left out: as
    /// many as the watchdog has counted.
    pub proof fn lemma_warnings_are_multiples(
        id: Seq<char>,
        timeout: nat,
        schedule: Seq<Step<R, E>>,
    )
        ensures
            ({
                let s = Session::<R, E>::launch(id, timeout).run(schedule);
                s.channel.filter(RunEventView::warning()) == Self::warnings(
                    id,
                    timeout,
                    s.watchdog.warnings,
                )
            }),
        decreases schedule.len(),
    {
        let s = Session::<R, E>::launch(id, timeout).run(schedule);
        let kept = s.channel.filter(RunEventView::warning());
        if schedule.len() == 0 {
            assert(kept =~= Self::warnings(id, timeout, 0)) by {
                reveal(Seq::filter);
            }
        } else {
            let p = Session::<R, E>::launch(id, timeout).run(schedule.drop_last());
            Self::lemma_warnings_are_multiples(id, timeout, schedule.drop_last());
            Self::lemma_events_name_the_suite(id, timeout, schedule.drop_last());
            p.lemma_filter_step(schedule.last(), RunEventView::warning());
            assert(p.watchdog.due() == (p.watchdog.warnings + 1) * timeout) by (nonlinear_arith)
                requires
                    p.watchdog.due() == timeout * (p.watchdog.warnings + 1),
            ;
            assert(kept =~= Self::warnings(id, timeout, s.watchdog.warnings));
        }
    }

    /// Whatever the schedule and however the execution ends, a suite has
    /// one terminal event once its worker has reported, and none before:
    /// the success or the error of the outcome that was reported.
    pub proof fn lemma_one_terminal_event(id: Seq<char>, timeout: nat, schedule: Seq<Step<R, E>>)
        ensures
            ({
                let s = Session::<R, E>::launch(id, timeout).run(schedule);
                &&& s.reported == (Self::first_report(schedule) is Some)
                &&& s.channel.filter(RunEventView::ending()) == match Self::first_report(schedule) {
                    Some(outcome) => seq![RunEventView::terminal(id, outcome)],
                    None => Seq::empty(),
                }
            }),
        decreases schedule.len(),
    {
        let s = Session::<R, E>::launch(id, timeout).run(schedule);
        let kept = s.channel.filter(RunEventView::ending());
        if schedule.len() == 0 {
            assert(kept =~= Seq::empty()) by {
                reveal(Seq::filter);
            }
        } else {
            let p = Session::<R, E>::launch(id, timeout).run(schedule.drop_last());
            Self::lemma_one_terminal_event(id, timeout, schedule.drop_last());
            Self::lemma_events_name_the_suite(id, timeout, schedule.drop_last());
            p.lemma_filter_step(schedule.last(), RunEventView::ending());
            assert(kept =~= match Self::first_report(schedule) {
                Some(outcome) => seq![RunEventView::terminal(id, outcome)],
                None => Seq::empty(),
            });
        }
    }

    /// What the law on schedules in step rests on: until the worker has
    /// reported no terminal event is in the channel, and once it has, the
    /// flag is up unless the report was the last step.
    proof fn lemma_settled_course(id: Seq<char>, timeout: nat, schedule: Seq<Step<R, E>>)
        requires
            Self::synchronized(schedule),
        ensures
            ({
                let s = Session::<R, E>::launch(id, timeout).run(schedule);
                &&& Self::settled(s.channel)
                &&& !s.reported ==> forall|i: int|
                    0 <= i < s.channel.len() ==> !(#[trigger] s.channel[i]).is_terminal()
                &&& s.reported ==> s.raised || schedule.last() is Report
            }),
        decreases schedule.len(),
    {
        if schedule.len() > 0 {
            let before = schedule.drop_last();
            let step = schedule.last();
            let p = Session::<R, E>::launch(id, timeout).run(before);
            let s = p.step(step);
            assert(Self::synchronized(before)) by {
                assert forall|i: int|
                    0 <= i && i + 1 < before.len() && (#[trigger] before[i]) is Report
                    implies before[i + 1] is Raise by {
                    assert(schedule[i] == before[i]);
                    assert(schedule[i + 1] == before[i + 1]);
                }
            }
            Self::lemma_settled_course(id, timeout, before);
            let sent = p.emits(step);
            assert(sent.len() <= 1);
            assert(s.channel == p.channel + sent);
            if step is Wake && p.reported && !p.raised {
                let at: int = before.len() - 1;
                assert(before.last() == schedule[at]);
                assert(schedule[at + 1] == step);
            }
            assert(sent.len() == 1 && sent[0] is Slow ==> !p.reported);
            assert forall|i: int, j: int|
                0 <= i < j < s.channel.len() && (#[trigger] s.channel[i]).is_terminal()
                implies !((#[trigger] s.channel[j]) is Slow) by {
                assert(s.channel[i] == p.channel[i]);
                if j < p.channel.len() {
                    assert(s.channel[j] == p.channel[j]);
                } else {
                    assert(s.channel[j] == sent[0]);
                }
            }
            if !s.reported {
                assert forall|i: int| 0 <= i < s.channel.len() implies !(
                #[trigger] s.channel[i]).is_terminal() by {
                    if i < p.channel.len() {
                        assert(s.channel[i] == p.channel[i]);
                    } else {
                        assert(s.channel[i] == sent[0]);
                    }
                }
            }
        }
    }

    /// Where the worker raises the flag right after it reports, with no
    /// wake in between, no warning comes after the terminal event.
    pub proof fn lemma_no_warning_after_terminal(
        id: Seq<char>,
        timeout: nat,
        schedule: Seq<Step<R, E>>,
    )
        requires
            Self::synchronized(schedule),
        ensures
            Self::settled(Session::<R, E>::launch(id, timeout).run(schedule).channel),
    {
        Self::lemma_settled_course(id, timeout, schedule);
    }

    /// Where the watchdog wakes between the report and the raising of the
    /// flag, it finds the flag down and warns once more: the caller sees
    /// the warning after the terminal event.
    pub proof fn lemma_wake_before_raise_warns(id: Seq<char>, timeout: nat, outcome: Result<R, E>)
        ensures
            ({
                let schedule = seq![Step::Report(outcome), Step::Wake, Step::Raise];
                let s = Session::<R, E>::launch(id, timeout).run(schedule);
                &&& !Self::synchronized(schedule)
                &&& s.channel == seq![
                    RunEventView::terminal(id, outcome),
                    RunEventView::Slow { id, elapsed: timeout },
                ]
                &&& !Self::settled(s.channel)
            }),
    {
        let start = Session::<R, E>::launch(id, timeout);
        let one = Seq::<Step<R, E>>::empty().push(Step::Report(outcome));
        let two = one.push(Step::Wake);
        let schedule = seq![Step::Report(outcome), Step::Wake, Step::Raise];
        assert(schedule =~= two.push(Step::Raise));
        start.lemma_run_push(Seq::empty(), Step::Report(outcome));
        start.lemma_run_push(one, Step::Wake);
        start.lemma_run_push(two, Step::Raise);
        let s = start.run(schedule);
        assert(s.channel =~= seq![
            RunEventView::terminal(id, outcome),
            RunEventView::Slow { id, elapsed: timeout },
        ]);
        assert(schedule[0] is Report && !(schedule[1] is Raise));
        assert(s.channel[0].is_terminal() && s.channel[1] is Slow);
    }
}

} // verus!
