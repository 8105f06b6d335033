//! The order of events in a run: which request is due, how long to wait for
//! it, and when the run is over.
//!
//! A run of `rep` requests goes through its requests one by one. Each one is
//! announced first. Every request but the first is then delayed by
//! `wait_time` milliseconds: one second at a time, each of them shown in a
//! countdown, and the rest below a second in one piece. The schedule decides;
//! its caller performs each action and calls [`Schedule::advance`].

use crate::config::MILLIS_PER_SECOND;
use vstd::prelude::*;

verus! {

/// Where the schedule stands within the request that is due.
#[derive(Clone, Copy, Debug, PartialEq, Eq)]
pub enum Phase {
    /// The request is to be announced.
    Announce,
    /// `seconds` whole seconds of the delay are still to be waited.
    Countdown { seconds: u128 },
    /// The part of the delay below a second is still to be waited.
    Rest,
    /// The request is to be sent.
    Request,
    /// All requests were made.
    Finished,
}

/// What the caller of the schedule has to do next.
#[derive(Clone, Copy, Debug, PartialEq, Eq)]
pub enum Action {
    /// Show that request `step` of `total` is due.
    Announce { step: u128, total: u128 },
    /// Show that request `step` of `total` is due in `seconds` seconds, and
    /// wait one second.
    Countdown { step: u128, total: u128, seconds: u128 },
    /// Wait `millis` milliseconds.
    Sleep { millis: u64 },
    /// Send request `step` of `total` and measure it.
    Request { step: u128, total: u128 },
    /// Report the results: the run is over.
    Report,
}

impl Action {
    /// The time that performing this action takes by design, in milliseconds.
    pub open spec fn wait(self) -> nat {
        match self {
            Action::Countdown { .. } => MILLIS_PER_SECOND as nat,
            Action::Sleep { millis } => millis as nat,
            _ => 0,
        }
    }

    /// 1 for a request, 0 for anything else.
    pub open spec fn requests(self) -> nat {
        if self is Request {
            1
        } else {
            0
        }
    }
}

/// The number of requests among `actions`.
pub open spec fn count_requests(actions: Seq<Action>) -> nat
    decreases actions.len(),
{
    if actions.len() == 0 {
        0
    } else {
        actions[0].requests() + count_requests(actions.drop_first())
    }
}

/// The time that `actions` take by design, in milliseconds.
pub open spec fn total_wait(actions: Seq<Action>) -> nat
    decreases actions.len(),
{
    if actions.len() == 0 {
        0
    } else {
        actions[0].wait() + total_wait(actions.drop_first())
    }
}

/// The state of the schedule of one run.
#[derive(Clone, Copy, Debug, PartialEq, Eq)]
pub struct Schedule {
    /// The number of requests of the run.
    pub rep: u128,
    /// The delay before every request but the first, in milliseconds.
    pub wait_time: u128,
    /// The number of requests that were made.
    pub done: u128,
    /// Where the schedule stands within the request that is due.
    pub phase: Phase,
}

impl Schedule {
    /// The states that a run can be in.
    pub open spec fn wf(self) -> bool {
        match self.phase {
            Phase::Announce => self.done < self.rep,
            Phase::Countdown { seconds } => {
                &&& 1 <= self.done < self.rep
                &&& 1 <= seconds <= self.wait_time / MILLIS_PER_SECOND
            },
            Phase::Rest => 1 <= self.done < self.rep && self.wait_time > 0,
            Phase::Request => self.done < self.rep,
            Phase::Finished => self.done == self.rep,
        }
    }

    /// The state in which a run of `rep` requests starts.
    pub open spec fn initial(rep: u128, wait_time: u128) -> Schedule {
        Schedule {
            rep,
            wait_time,
            done: 0,
            phase: if rep == 0 {
                Phase::Finished
            } else {
                Phase::Announce
            },
        }
    }

    /// The number of the request that is due, counted from 1.
    pub open spec fn step(self) -> u128
        recommends
            self.done < self.rep,
    {
        (self.done + 1) as u128
    }

    /// The action that is due in this state.
    pub open spec fn pending(self) -> Action {
        match self.phase {
            Phase::Announce => Action::Announce { step: self.step(), total: self.rep },
            Phase::Countdown { seconds } => Action::Countdown {
                step: self.step(),
                total: self.rep,
                seconds,
            },
            Phase::Rest => Action::Sleep { millis: (self.wait_time % MILLIS_PER_SECOND) as u64 },
            Phase::Request => Action::Request { step: self.step(), total: self.rep },
            Phase::Finished => Action::Report,
        }
    }

    /// The phase that follows the announcement of a request: the first
    /// request, and every request of a run without delay, is sent at once.
    pub open spec fn after_announce(self) -> Phase {
        if self.done == 0 || self.wait_time == 0 {
            Phase::Request
        } else if self.wait_time >= MILLIS_PER_SECOND {
            Phase::Countdown { seconds: self.wait_time / MILLIS_PER_SECOND }
        } else {
            Phase::Rest
        }
    }

    /// The state that follows once the pending action was performed. A
    /// finished schedule stays as it is.
    pub open spec fn after(self) -> Schedule {
        match self.phase {
            Phase::Announce => Schedule { phase: self.after_announce(), ..self },
            Phase::Countdown { seconds } => if seconds > 1 {
                Schedule { phase: Phase::Countdown { seconds: (seconds - 1) as u128 }, ..self }
            } else {
                Schedule { phase: Phase::Rest, ..self }
            },
            Phase::Rest => Schedule { phase: Phase::Request, ..self },
            Phase::Request => Schedule {
                done: self.step(),
                phase: if self.step() == self.rep {
                    Phase::Finished
                } else {
                    Phase::Announce
                },
                ..self
            },
            Phase::Finished => self,
        }
    }

    /// The place of the phase within one request, counted down to the request
    /// itself.
    pub open spec fn rank(self) -> nat {
        match self.phase {
            Phase::Announce => 3,
            Phase::Countdown { .. } => 2,
            Phase::Rest => 1,
            Phase::Request => 0,
            Phase::Finished => 0,
        }
    }

    /// The seconds left in a countdown, and 0 outside one.
    pub open spec fn seconds_left(self) -> nat {
        match self.phase {
            Phase::Countdown { seconds } => seconds as nat,
            _ => 0,
        }
    }

    /// The actions that are performed from this state on until the run is
    /// over, in their order. The closing report is not among them.
    pub open spec fn actions(self) -> Seq<Action>
        decreases self.rep - self.done, self.rank(), self.seconds_left(),
    {
        if !self.wf() || self.phase is Finished {
            Seq::empty()
        } else {
            seq![self.pending()] + self.after().actions()
        }
    }

    /// The delay that is still to be waited before the request that is due.
    pub open spec fn wait_before_request(self) -> nat {
        match self.phase {
            Phase::Announce => if self.done == 0 {
                0
            } else {
                self.wait_time as nat
            },
            Phase::Countdown { seconds } => (seconds * MILLIS_PER_SECOND + self.wait_time
                % MILLIS_PER_SECOND) as nat,
            Phase::Rest => (self.wait_time % MILLIS_PER_SECOND) as nat,
            Phase::Request => 0,
            Phase::Finished => 0,
        }
    }

    /// The delay that is still to be waited until the run is over.
    pub open spec fn wait_left(self) -> nat {
        if self.phase is Finished {
            0
        } else {
            (self.wait_before_request() + (self.rep - self.done - 1) * self.wait_time) as nat
        }
    }

    /// The schedule of a run of `rep` requests, `wait_time` milliseconds
    /// apart.
    pub fn new(rep: u128, wait_time: u128) -> (schedule: Schedule)
        ensures
            schedule == Schedule::initial(rep, wait_time),
            schedule.wf(),
    {
        if rep == 0 {
            Schedule { rep, wait_time, done: 0, phase: Phase::Finished }
        } else {
            Schedule { rep, wait_time, done: 0, phase: Phase::Announce }
        }
    }

    /// The action that is due.
    pub fn action(&self) -> (action: Action)
        requires
            self.wf(),
        ensures
            action == self.pending(),
    {
        match self.phase {
            Phase::Announce => Action::Announce { step: self.done + 1, total: self.rep },
            Phase::Countdown { seconds } => Action::Countdown {
                step: self.done + 1,
                total: self.rep,
                seconds,
            },
            Phase::Rest => Action::Sleep { millis: (self.wait_time % MILLIS_PER_SECOND) as u64 },
            Phase::Request => Action::Request { step: self.done + 1, total: self.rep },
            Phase::Finished => Action::Report,
        }
    }

    /// Whether all requests were made.
    pub fn is_finished(&self) -> (finished: bool)
        ensures
            finished == (self.phase is Finished),
    {
        match self.phase {
            Phase::Finished => true,
            _ => false,
        }
    }

    /// Moves on once the pending action was performed.
    pub fn advance(&mut self)
        requires
            old(self).wf(),
        ensures
            *final(self) == old(self).after(),
            final(self).wf(),
    {
        match self.phase {
            Phase::Announce => {
                if self.done == 0 || self.wait_time == 0 {
                    self.phase = Phase::Request;
                } else if self.wait_time >= MILLIS_PER_SECOND {
                    self.phase = Phase::Countdown { seconds: self.wait_time / MILLIS_PER_SECOND };
                } else {
                    self.phase = Phase::Rest;
                }
            },
            Phase::Countdown { seconds } => {
                if seconds > 1 {
                    self.phase = Phase::Countdown { seconds: seconds - 1 };
                } else {
                    self.phase = Phase::Rest;
                }
            },
            Phase::Rest => {
                self.phase = Phase::Request;
            },
            Phase::Request => {
                self.done = self.done + 1;
                if self.done == self.rep {
                    self.phase = Phase::Finished;
                } else {
                    self.phase = Phase::Announce;
                }
            },
            Phase::Finished => {},
        }
    }
}

/// Counting requests and adding up waits, with one action put in front.
proof fn lemma_count_with_first(first: Action, rest: Seq<Action>)
    ensures
        count_requests(seq![first] + rest) == first.requests() + count_requests(rest),
        total_wait(seq![first] + rest) == first.wait() + total_wait(rest),
{
    assert((seq![first] + rest).drop_first() =~= rest);
}

/// From any state of a run, the actions that remain hold one request for each
/// request that was not made yet, and wait exactly the delay that is left.
pub proof fn lemma_remaining_actions(schedule: Schedule)
    requires
        schedule.wf(),
    ensures
        count_requests(schedule.actions()) == schedule.rep - schedule.done,
        total_wait(schedule.actions()) == schedule.wait_left(),
    decreases schedule.rep - schedule.done, schedule.rank(), schedule.seconds_left(),
{
    if !(schedule.phase is Finished) {
        let next = schedule.after();
        assert(next.wf());
        lemma_remaining_actions(next);
        lemma_count_with_first(schedule.pending(), next.actions());
        assert(schedule.wait_left() == schedule.pending().wait() + next.wait_left()) by {
            let w = schedule.wait_time as int;
            let left = schedule.rep - schedule.done - 1;
            if schedule.phase is Request && !(next.phase is Finished) {
                assert(left * w == w + (left - 1) * w) by (nonlinear_arith);
            }
            if schedule.phase is Request && next.phase is Finished {
                assert(left * w == 0) by (nonlinear_arith)
                    requires
                        left == 0,
                ;
            }
        }
    }
}

/// A run of `rep` requests makes exactly `rep` requests, whatever their
/// outcomes, and waits `wait_time` milliseconds before each of them but the
/// first: `(rep - 1) * wait_time` in all.
pub proof fn lemma_whole_run(rep: u128, wait_time: u128)
    ensures
        count_requests(Schedule::initial(rep, wait_time).actions()) == rep,
        rep >= 1 ==> total_wait(Schedule::initial(rep, wait_time).actions()) == (rep - 1)
            * wait_time,
        rep == 0 ==> Schedule::initial(rep, wait_time).actions() == Seq::<Action>::empty(),
{
    lemma_remaining_actions(Schedule::initial(rep, wait_time));
}

/// The first request of a run is announced and then sent at once: no delay
/// comes before it.
pub proof fn lemma_first_request_at_once(rep: u128, wait_time: u128)
    requires
        rep >= 1,
    ensures
        Schedule::initial(rep, wait_time).actions().len() >= 2,
        Schedule::initial(rep, wait_time).actions()[0] == (Action::Announce {
            step: 1,
            total: rep,
        }),
        Schedule::initial(rep, wait_time).actions()[1] == (Action::Request {
            step: 1,
            total: rep,
        }),
{
    let start = Schedule::initial(rep, wait_time);
    let sending = start.after();
    assert(start.actions() == seq![start.pending()] + sending.actions());
    assert(sending.actions() == seq![sending.pending()] + sending.after().actions());
}

} // verus!
