//! A run in progress: its schedule together with what its requests gave so
//! far.

use crate::sample::Sample;
use crate::schedule::{Action, Schedule};
use vstd::prelude::*;

verus! {

/// The lowest status that counts as a success.
pub const SUCCESS_FROM: u16 = 200;

/// The lowest status above the successes.
pub const SUCCESS_BELOW: u16 = 300;

/// How one request ended.
#[derive(Clone, Copy, Debug, PartialEq, Eq)]
pub enum Outcome {
    /// No response came: the connection failed, timed out, or the like.
    NoResponse,
    /// A response came, with this status.
    Status(u16),
}

impl Outcome {
    /// The status by which the outcome is judged: that of the response, and 0
    /// where there was none.
    pub open spec fn nominal_status(self) -> u16 {
        match self {
            Outcome::NoResponse => 0,
            Outcome::Status(status) => status,
        }
    }

    /// A request succeeded when its response has a status from 200 to 299.
    pub open spec fn succeeded(self) -> bool {
        SUCCESS_FROM <= self.nominal_status() < SUCCESS_BELOW
    }

    /// The status by which the outcome is judged.
    pub fn status(&self) -> (status: u16)
        ensures
            status == self.nominal_status(),
    {
        match self {
            Outcome::NoResponse => 0,
            Outcome::Status(status) => *status,
        }
    }

    /// Whether the request succeeded.
    pub fn is_success(&self) -> (success: bool)
        ensures
            success == self.succeeded(),
    {
        let status = self.status();
        SUCCESS_FROM <= status && status < SUCCESS_BELOW
    }
}

/// One request that was made: how it ended and how long it took.
#[derive(Clone, Copy, Debug, PartialEq, Eq)]
pub struct Attempt {
    /// How the request ended.
    pub outcome: Outcome,
    /// The time from sending the request to its end.
    pub elapsed: Sample,
}

/// The durations of the successful ones among `attempts`, in their order.
pub open spec fn samples_of(attempts: Seq<Attempt>) -> Seq<Sample> {
    attempts.filter(|a: Attempt| a.outcome.succeeded()).map_values(|a: Attempt| a.elapsed)
}

/// The number of those among `attempts` that did not succeed.
pub open spec fn failures_of(attempts: Seq<Attempt>) -> nat {
    attempts.filter(|a: Attempt| !a.outcome.succeeded()).len()
}

/// A run in progress.
pub struct Run {
    schedule: Schedule,
    response_times: Vec<Sample>,
    failed_requests: u128,
    history: Ghost<Seq<Attempt>>,
}

impl Run {
    /// Where the run stands.
    pub closed spec fn schedule(&self) -> Schedule {
        self.schedule
    }

    /// The requests that were made, in their order.
    pub closed spec fn history(&self) -> Seq<Attempt> {
        self.history@
    }

    /// The durations of the successful requests, in their order.
    pub closed spec fn samples(&self) -> Seq<Sample> {
        self.response_times@
    }

    /// The number of failed requests.
    pub closed spec fn failed(&self) -> nat {
        self.failed_requests as nat
    }

    /// What holds of every run: the schedule is in one of its states, it has
    /// counted the requests that were made, and the samples and the failure
    /// count are those of these requests.
    pub open spec fn wf(&self) -> bool {
        &&& self.schedule().wf()
        &&& self.history().len() == self.schedule().done
        &&& self.samples() == samples_of(self.history())
        &&& self.failed() == failures_of(self.history())
    }

    #[verifier::type_invariant]
    spec fn always_wf(&self) -> bool {
        self.wf()
    }

    /// A run of `rep` requests, `wait_time` milliseconds apart, of which none
    /// was made yet.
    pub fn new(rep: u128, wait_time: u128) -> (run: Run)
        ensures
            run.wf(),
            run.schedule() == Schedule::initial(rep, wait_time),
            run.history() == Seq::<Attempt>::empty(),
            run.samples() == Seq::<Sample>::empty(),
            run.failed() == 0,
    {
        proof {
            lemma_tally_of_none();
        }
        Run {
            schedule: Schedule::new(rep, wait_time),
            response_times: Vec::new(),
            failed_requests: 0,
            history: Ghost(Seq::empty()),
        }
    }

    /// The action that is due.
    pub fn action(&self) -> (action: Action)
        ensures
            action == self.schedule().pending(),
    {
        proof {
            use_type_invariant(self);
        }
        self.schedule.action()
    }

    /// Whether all requests were made.
    pub fn is_finished(&self) -> (finished: bool)
        ensures
            finished == (self.schedule().phase is Finished),
    {
        self.schedule.is_finished()
    }

    /// The number of failed requests: those without a response and those
    /// whose response has a status outside 200 to 299.
    pub fn failed_requests(&self) -> (failed: u128)
        ensures
            failed == self.failed(),
    {
        self.failed_requests
    }

    /// The durations of the successful requests, in the order in which they
    /// were made.
    pub fn response_times(&self) -> (times: &Vec<Sample>)
        ensures
            times@ == self.samples(),
    {
        &self.response_times
    }

    /// Moves on once the pending action was performed, where that action is
    /// not a request: a request is answered by [`Run::record`].
    pub fn advance(self) -> (next: Run)
        requires
            !(self.schedule().phase is Request),
        ensures
            next.wf(),
            next.schedule() == self.schedule().after(),
            next.history() == self.history(),
            next.samples() == self.samples(),
            next.failed() == self.failed(),
    {
        proof {
            use_type_invariant(&self);
        }
        let Run { mut schedule, response_times, failed_requests, history } = self;
        schedule.advance();
        Run { schedule, response_times, failed_requests, history }
    }

    /// Takes in how the request that was due has ended, and moves on. A
    /// success adds its duration to the samples; anything else adds one to
    /// the failures and leaves the samples as they are.
    pub fn record(self, outcome: Outcome, elapsed: Sample) -> (next: Run)
        requires
            self.schedule().phase is Request,
        ensures
            next.wf(),
            next.schedule() == self.schedule().after(),
            next.history() == self.history().push(Attempt { outcome, elapsed }),
            outcome.succeeded() ==> next.samples() == self.samples().push(elapsed)
                && next.failed() == self.failed(),
            !outcome.succeeded() ==> next.samples() == self.samples() && next.failed()
                == self.failed() + 1,
    {
        proof {
            use_type_invariant(&self);
            lemma_tally_of_one_more(self.history(), Attempt { outcome, elapsed });
            lemma_tally_is_complete(self.history());
        }
        let Run { mut schedule, mut response_times, mut failed_requests, history } = self;
        schedule.advance();
        if outcome.is_success() {
            response_times.push(elapsed);
        } else {
            failed_requests = failed_requests + 1;
        }
        Run {
            schedule,
            response_times,
            failed_requests,
            history: Ghost(history@.push(Attempt { outcome, elapsed })),
        }
    }
}

/// Without a request there is neither a sample nor a failure.
pub proof fn lemma_tally_of_none()
    ensures
        samples_of(Seq::<Attempt>::empty()) == Seq::<Sample>::empty(),
        failures_of(Seq::<Attempt>::empty()) == 0,
{
    assert(samples_of(Seq::<Attempt>::empty()) =~= Seq::<Sample>::empty());
}

/// One more request adds one sample, its duration, if it succeeded, and one
/// failure if it did not; it changes nothing else.
pub proof fn lemma_tally_of_one_more(attempts: Seq<Attempt>, last: Attempt)
    ensures
        last.outcome.succeeded() ==> samples_of(attempts.push(last)) == samples_of(attempts).push(
            last.elapsed,
        ) && failures_of(attempts.push(last)) == failures_of(attempts),
        !last.outcome.succeeded() ==> samples_of(attempts.push(last)) == samples_of(attempts)
            && failures_of(attempts.push(last)) == failures_of(attempts) + 1,
{
    let all = attempts.push(last);
    let good = |a: Attempt| a.outcome.succeeded();
    let bad = |a: Attempt| !a.outcome.succeeded();
    assert(all.drop_last() =~= attempts);
    reveal_with_fuel(Seq::filter, 2);
    if last.outcome.succeeded() {
        assert(all.filter(good) == attempts.filter(good).push(last));
        assert(all.filter(bad) == attempts.filter(bad));
        assert(samples_of(all) =~= samples_of(attempts).push(last.elapsed));
    } else {
        assert(all.filter(good) == attempts.filter(good));
        assert(all.filter(bad) == attempts.filter(bad).push(last));
    }
}

/// Every request is counted once: as a sample or as a failure.
pub proof fn lemma_tally_is_complete(attempts: Seq<Attempt>)
    ensures
        samples_of(attempts).len() + failures_of(attempts) == attempts.len(),
    decreases attempts.len(),
{
    if attempts.len() == 0 {
        lemma_tally_of_none();
    } else {
        lemma_tally_is_complete(attempts.drop_last());
        lemma_tally_of_one_more(attempts.drop_last(), attempts.last());
        assert(attempts.drop_last().push(attempts.last()) =~= attempts);
    }
}

/// There is no sample exactly when no request succeeded.
pub proof fn lemma_no_sample_without_success(attempts: Seq<Attempt>)
    ensures
        samples_of(attempts).len() == 0 <==> forall|i: int|
            0 <= i < attempts.len() ==> !(#[trigger] attempts[i]).outcome.succeeded(),
    decreases attempts.len(),
{
    if attempts.len() == 0 {
        lemma_tally_of_none();
    } else {
        let before = attempts.drop_last();
        let last = attempts.last();
        lemma_no_sample_without_success(before);
        lemma_tally_of_one_more(before, last);
        assert(before.push(last) =~= attempts);
        if samples_of(attempts).len() == 0 {
            assert forall|i: int| 0 <= i < attempts.len() implies !(
            #[trigger] attempts[i]).outcome.succeeded() by {
                if i < before.len() {
                    assert(attempts[i] == before[i]);
                }
            }
        } else if !last.outcome.succeeded() {
            let i = choose|i: int| 0 <= i < before.len() && before[i].outcome.succeeded();
            assert(attempts[i] == before[i]);
        }
    }
}

/// At every moment of a run, each request that was made is counted once, as
/// a sample or as a failure, so that the two together never exceed the number
/// of requests of the run and reach it when the run is over. There is no
/// sample exactly when none of the requests that were made has succeeded.
pub proof fn lemma_run_counts(run: Run)
    requires
        run.wf(),
    ensures
        run.samples().len() + run.failed() == run.schedule().done,
        0 <= run.samples().len() + run.failed() <= run.schedule().rep,
        run.schedule().phase is Finished ==> run.samples().len() + run.failed()
            == run.schedule().rep,
        run.samples().len() == 0 <==> forall|i: int|
            0 <= i < run.history().len() ==> !(#[trigger] run.history()[i]).outcome.succeeded(),
{
    lemma_tally_is_complete(run.history());
    lemma_no_sample_without_success(run.history());
}

} // verus!
