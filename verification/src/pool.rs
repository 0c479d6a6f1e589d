//! Several suites that send on one channel.
//!
//! The channel keeps no order between the events of different suites, so
//! a caller tells them apart by the id that each event carries, and by
//! that alone.

use crate::event::RunEventView;
use crate::protocol::Session;
use crate::protocol::Step;
use vstd::prelude::*;

verus! {

/// A step of one suite among several: `suite` is its place among them.
pub struct Turn<R, E> {
    pub suite: int,
    pub step: Step<R, E>,
}

/// Suites under way that share a channel.
pub struct Pool<R, E> {
    pub sessions: Seq<Session<R, E>>,
    /// The events that the suites have sent so far, oldest first.
    pub channel: Seq<RunEventView<R, E>>,
}

impl<R, E> Pool<R, E> {
    /// The pool of the suites with these ids and timeouts, each launched
    /// and none with a step taken.
    pub open spec fn launch(suites: Seq<(Seq<char>, nat)>) -> Pool<R, E> {
        Pool {
            sessions: Seq::new(
                suites.len(),
                |k: int| Session::<R, E>::launch(suites[k].0, suites[k].1),
            ),
            channel: Seq::empty(),
        }
    }

    /// The pool after the step of `turn`: the suite takes the step, and
    /// what it sends goes to the end of the shared channel. A turn of a
    /// suite that is not in the pool changes nothing.
    pub open spec fn step(self, turn: Turn<R, E>) -> Pool<R, E> {
        if 0 <= turn.suite < self.sessions.len() {
            let session = self.sessions[turn.suite];
            Pool {
                sessions: self.sessions.update(turn.suite, session.step(turn.step)),
                channel: self.channel + session.emits(turn.step),
            }
        } else {
            self
        }
    }

    /// The pool after `turns`, first to last.
    pub open spec fn run(self, turns: Seq<Turn<R, E>>) -> Pool<R, E>
        decreases turns.len(),
    {
        if turns.len() == 0 {
            self
        } else {
            self.run(turns.drop_last()).step(turns.last())
        }
    }

    /// The steps that suite `k` takes in `turns`, in order.
    pub open spec fn own(turns: Seq<Turn<R, E>>, k: int) -> Seq<Step<R, E>>
        decreases turns.len(),
    {
        if turns.len() == 0 {
            Seq::empty()
        } else if turns.last().suite == k {
            Self::own(turns.drop_last(), k).push(turns.last().step)
        } else {
            Self::own(turns.drop_last(), k)
        }
    }

    /// Whether no two of `suites` have the same id.
    pub open spec fn distinct(suites: Seq<(Seq<char>, nat)>) -> bool {
        forall|i: int, j: int|
            0 <= i < suites.len() && 0 <= j < suites.len() && i != j ==> (#[trigger] suites[i]).0
                != (#[trigger] suites[j]).0
    }

    /// The other suites of a pool change nothing of a suite: it is where
    /// its own steps alone would have brought it.
    pub proof fn lemma_own_course(suites: Seq<(Seq<char>, nat)>, turns: Seq<Turn<R, E>>, k: int)
        requires
            0 <= k < suites.len(),
        ensures
            ({
                let pool = Pool::<R, E>::launch(suites).run(turns);
                &&& pool.sessions.len() == suites.len()
                &&& pool.sessions[k] == Session::<R, E>::launch(suites[k].0, suites[k].1).run(
                    Self::own(turns, k),
                )
            }),
        decreases turns.len(),
    {
        if turns.len() > 0 {
            Self::lemma_own_course(suites, turns.drop_last(), k);
            if turns.last().suite == k {
                Session::<R, E>::launch(suites[k].0, suites[k].1).lemma_run_push(
                    Self::own(turns.drop_last(), k),
                    turns.last().step,
                );
            }
        }
    }

    /// Where no two suites of a pool have the same id, their events never
    /// mix: the events on the shared channel that carry the id of a suite
    /// are the events of that suite, all of them and in the order in which
    /// it sent them; and the warnings among them carry one, two and more
    /// of that suite's own timeout.
    pub proof fn lemma_streams_never_mix(
        suites: Seq<(Seq<char>, nat)>,
        turns: Seq<Turn<R, E>>,
        k: int,
    )
        requires
            0 <= k < suites.len(),
            Self::distinct(suites),
        ensures
            ({
                let pool = Pool::<R, E>::launch(suites).run(turns);
                let stream = pool.channel.filter(RunEventView::about(suites[k].0));
                &&& stream == pool.sessions[k].channel
                &&& stream.filter(RunEventView::warning()) == Session::<R, E>::warnings(
                    suites[k].0,
                    suites[k].1,
                    pool.sessions[k].watchdog.warnings,
                )
            }),
        decreases turns.len(),
    {
        let pool = Pool::<R, E>::launch(suites).run(turns);
        let keep = RunEventView::<R, E>::about(suites[k].0);
        Self::lemma_own_course(suites, turns, k);
        Session::<R, E>::lemma_warnings_are_multiples(suites[k].0, suites[k].1, Self::own(turns, k));
        if turns.len() == 0 {
            assert(pool.channel.filter(keep) =~= pool.sessions[k].channel) by {
                reveal(Seq::filter);
            }
        } else {
            let before = Pool::<R, E>::launch(suites).run(turns.drop_last());
            let turn = turns.last();
            Self::lemma_streams_never_mix(suites, turns.drop_last(), k);
            Self::lemma_own_course(suites, turns.drop_last(), k);
            if 0 <= turn.suite < before.sessions.len() {
                let i: int = turn.suite;
                let sent = before.sessions[i].emits(turn.step);
                Self::lemma_own_course(suites, turns.drop_last(), i);
                Session::<R, E>::lemma_events_name_the_suite(
                    suites[i].0,
                    suites[i].1,
                    Self::own(turns.drop_last(), i),
                );
                assert(sent.len() == 1 ==> sent[0].id() == suites[i].0);
                Seq::filter_distributes_over_add(before.channel, sent, keep);
                assert(sent.filter(keep) =~= if i == k {
                    sent
                } else {
                    Seq::empty()
                }) by {
                    reveal(Seq::filter);
                    if sent.len() == 1 {
                        assert(sent.drop_last().filter(keep) =~= Seq::empty());
                        assert(sent =~= Seq::empty().push(sent[0]));
                    }
                }
                assert(pool.channel.filter(keep) =~= pool.sessions[k].channel);
            }
        }
    }
}

} // verus!
