//! The decisions of the background loop that the timed-retry adapter spawns.
//!
//! The loop runs a scan pass, then waits for the polling interval or for its
//! cancellation, whichever comes first, and goes round again. A pass that
//! fails ends the loop, and so does a cancellation seen while waiting. The
//! scheduler that owns the loop carries out each [`ScanLoopAction`] and reports
//! what came of it as a [`ScanLoopEvent`].

use vstd::prelude::*;

verus! {

/// The time between the end of one scan pass and the start of the next.
pub const SCAN_INTERVAL_MILLIS: u64 = 1000;

/// Where the loop stands.
#[derive(Debug, Clone, Copy, PartialEq, Eq, Structural)]
pub enum ScanLoopState {
    /// A scan pass is due or under way.
    Scanning,
    /// The last pass succeeded; the loop sits out the polling interval.
    Waiting,
    /// The loop has ended. It does not come back to life.
    Finished,
}

/// What the scheduler observed while it carried out the last action.
#[derive(Debug, Clone, Copy, PartialEq, Eq, Structural)]
pub enum ScanLoopEvent {
    /// The scan pass came back without an error.
    PassSucceeded,
    /// The scan pass came back with an error.
    PassFailed,
    /// The polling interval ran out before any cancellation.
    IntervalElapsed,
    /// The cancellation signal was seen.
    Cancelled,
}

/// What the scheduler is to do next.
#[derive(Debug, Clone, Copy, PartialEq, Eq, Structural)]
pub enum ScanLoopAction {
    /// Run one scan pass of the backend.
    Scan,
    /// Wait until `millis` milliseconds have passed or the cancellation signal
    /// arrives, whichever is first.
    Wait { millis: u64 },
    /// Leave the loop.
    Exit,
}

impl ScanLoopState {
    /// The state that follows `self` once `event` has been observed.
    ///
    /// A failed pass and a cancellation end the loop wherever it stands. A
    /// finished pass leads to the wait and a finished wait leads to the next
    /// pass; reported out of turn they change nothing.
    pub open spec fn step_spec(self, event: ScanLoopEvent) -> ScanLoopState {
        match (self, event) {
            (ScanLoopState::Finished, _) => ScanLoopState::Finished,
            (_, ScanLoopEvent::PassFailed) => ScanLoopState::Finished,
            (_, ScanLoopEvent::Cancelled) => ScanLoopState::Finished,
            (ScanLoopState::Scanning, ScanLoopEvent::PassSucceeded) => ScanLoopState::Waiting,
            (ScanLoopState::Waiting, ScanLoopEvent::IntervalElapsed) => ScanLoopState::Scanning,
            (state, _) => state,
        }
    }

    /// What the scheduler has to do in state `self`.
    pub open spec fn action_spec(self) -> ScanLoopAction {
        match self {
            ScanLoopState::Scanning => ScanLoopAction::Scan,
            ScanLoopState::Waiting => ScanLoopAction::Wait { millis: SCAN_INTERVAL_MILLIS },
            ScanLoopState::Finished => ScanLoopAction::Exit,
        }
    }

    /// The state that `self` reaches through `events`, taken in order.
    pub open spec fn run_spec(self, events: Seq<ScanLoopEvent>) -> ScanLoopState
        decreases events.len(),
    {
        if events.len() == 0 {
            self
        } else {
            self.run_spec(events.drop_last()).step_spec(events.last())
        }
    }

    /// The state in which a freshly spawned loop begins: its first pass is due.
    pub fn start() -> (state: ScanLoopState)
        ensures
            state == ScanLoopState::Scanning,
    {
        ScanLoopState::Scanning
    }

    /// Takes in what the scheduler observed and moves on.
    pub fn step(self, event: ScanLoopEvent) -> (next: ScanLoopState)
        ensures
            next == self.step_spec(event),
    {
        match self {
            ScanLoopState::Finished => ScanLoopState::Finished,
            ScanLoopState::Scanning => match event {
                ScanLoopEvent::PassSucceeded => ScanLoopState::Waiting,
                ScanLoopEvent::IntervalElapsed => ScanLoopState::Scanning,
                ScanLoopEvent::PassFailed | ScanLoopEvent::Cancelled => ScanLoopState::Finished,
            },
            ScanLoopState::Waiting => match event {
                ScanLoopEvent::IntervalElapsed => ScanLoopState::Scanning,
                ScanLoopEvent::PassSucceeded => ScanLoopState::Waiting,
                ScanLoopEvent::PassFailed | ScanLoopEvent::Cancelled => ScanLoopState::Finished,
            },
        }
    }

    /// Tells the scheduler what to do next.
    pub fn action(self) -> (action: ScanLoopAction)
        ensures
            action == self.action_spec(),
    {
        match self {
            ScanLoopState::Scanning => ScanLoopAction::Scan,
            ScanLoopState::Waiting => ScanLoopAction::Wait { millis: SCAN_INTERVAL_MILLIS },
            ScanLoopState::Finished => ScanLoopAction::Exit,
        }
    }
}

/// A loop that has ended stays ended, whatever is reported to it afterwards.
pub proof fn lemma_finished_is_final(events: Seq<ScanLoopEvent>)
    ensures
        ScanLoopState::Finished.run_spec(events) == ScanLoopState::Finished,
    decreases events.len(),
{
    if events.len() > 0 {
        lemma_finished_is_final(events.drop_last());
    }
}

/// Running through `events` is running through the first `n` of them and then
/// through the rest.
pub proof fn lemma_run_split(state: ScanLoopState, events: Seq<ScanLoopEvent>, n: int)
    requires
        0 <= n <= events.len(),
    ensures
        state.run_spec(events) == state.run_spec(events.take(n)).run_spec(events.skip(n)),
    decreases events.len() - n,
{
    if n == events.len() {
        assert(events.take(n) == events);
        assert(events.skip(n).len() == 0);
    } else {
        lemma_run_split(state, events.drop_last(), n);
        assert(events.drop_last().take(n) == events.take(n));
        assert(events.drop_last().skip(n) == events.skip(n).drop_last());
        assert(events.skip(n).last() == events.last());
    }
}

/// Once the loop has seen the cancellation signal it never asks for another
/// scan pass: after any event sequence whose event at `at` is the
/// cancellation, and however many events follow it, the loop is finished and
/// its only action is to exit. A pass that was under way when cancellation was
/// requested is reported before the signal is seen and is the last one.
pub proof fn lemma_no_scan_after_cancellation(
    state: ScanLoopState,
    events: Seq<ScanLoopEvent>,
    at: int,
)
    requires
        0 <= at < events.len(),
        events[at] == ScanLoopEvent::Cancelled,
    ensures
        state.run_spec(events) == ScanLoopState::Finished,
        state.run_spec(events).action_spec() == ScanLoopAction::Exit,
{
    lemma_ends_at(state, events, at);
}

/// A failed scan pass ends the loop without any outside help, and nothing
/// restarts it: after any event sequence whose event at `at` is a failed pass
/// the loop is finished and its only action is to exit.
pub proof fn lemma_failed_pass_ends_loop(
    state: ScanLoopState,
    events: Seq<ScanLoopEvent>,
    at: int,
)
    requires
        0 <= at < events.len(),
        events[at] == ScanLoopEvent::PassFailed,
    ensures
        state.run_spec(events) == ScanLoopState::Finished,
        state.run_spec(events).action_spec() == ScanLoopAction::Exit,
{
    lemma_ends_at(state, events, at);
}

/// While every pass succeeds and no cancellation is seen, a loop that is
/// driven as it asks (a pass when it asks for a scan, the elapsed interval when
/// it asks to wait) alternates between scanning and waiting and never ends.
pub proof fn lemma_loop_repeats_while_passes_succeed(rounds: nat)
    ensures
        ScanLoopState::Scanning.run_spec(successful_rounds(rounds)) == ScanLoopState::Scanning,
        ScanLoopState::Scanning.run_spec(
            successful_rounds(rounds).push(ScanLoopEvent::PassSucceeded),
        ) == ScanLoopState::Waiting,
    decreases rounds,
{
    let events = successful_rounds(rounds);
    if rounds > 0 {
        lemma_loop_repeats_while_passes_succeed((rounds - 1) as nat);
        let before = successful_rounds((rounds - 1) as nat);
        let middle = before.push(ScanLoopEvent::PassSucceeded);
        assert(events.drop_last() == middle);
        assert(middle.drop_last() == before);
    }
    assert(events.push(ScanLoopEvent::PassSucceeded).drop_last() == events);
}

/// The events of `rounds` full turns of the loop: a successful pass followed
/// by the elapsed interval, `rounds` times over.
pub open spec fn successful_rounds(rounds: nat) -> Seq<ScanLoopEvent>
    decreases rounds,
{
    if rounds == 0 {
        Seq::empty()
    } else {
        successful_rounds((rounds - 1) as nat).push(ScanLoopEvent::PassSucceeded).push(
            ScanLoopEvent::IntervalElapsed,
        )
    }
}

proof fn lemma_ends_at(state: ScanLoopState, events: Seq<ScanLoopEvent>, at: int)
    requires
        0 <= at < events.len(),
        events[at] == ScanLoopEvent::Cancelled || events[at] == ScanLoopEvent::PassFailed,
    ensures
        state.run_spec(events) == ScanLoopState::Finished,
{
    let upto = events.take(at + 1);
    assert(upto.last() == events[at]);
    assert(state.run_spec(upto) == ScanLoopState::Finished);
    lemma_run_split(state, events, at + 1);
    lemma_finished_is_final(events.skip(at + 1));
}

} // verus!
