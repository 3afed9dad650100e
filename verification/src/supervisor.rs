//! The bounded stop-then-apply protocol.
//!
//! Every request that changes what the runtime does is funnelled through
//! one primitive: wait until the runtime is at rest, then act. A caller
//! makes rounds. In each round it takes exclusive access to the machine,
//! reads its clock and calls [`PlcStateMachine::attempt`], which applies
//! `Stop` and answers with a [`Verdict`]: apply the requested event now,
//! under the same exclusive access; release, sleep and come back; or give
//! up because the deadline has passed. The round that finds the deadline
//! passed is still made, so a caller always gets one attempt.
//!
//! Time is the caller's: milliseconds on a clock that does not go back.
//! [`spec_transition`] describes a whole call as the series of its rounds.
use vstd::prelude::*;

use crate::plc::{
    spec_launch_request, spec_next, spec_run, LaunchRequest, LaunchRequestView, Pid, PlcError,
    PlcErrorView, PlcEvent, PlcEventView, PlcState, PlcStateMachine, Platform, Step,
};

verus! {

/// The longest a caller sleeps between two rounds, in milliseconds.
pub const POLL_INTERVAL_MS: u64 = 100;

/// The time, in milliseconds, from one reconciliation of the recorded
/// state with the process table to the next.
pub const RECONCILE_PERIOD_MS: u64 = 5000;

/// What a caller does after a round.
#[derive(Debug, Clone, PartialEq, Eq)]
pub enum Verdict {
    /// The runtime is at rest: run the command, if one is named, and apply
    /// the event before giving up exclusive access.
    Apply(Option<LaunchRequest>),
    /// The runtime is not at rest: sleep this many milliseconds without
    /// holding the machine, then make another round.
    Retry(u64),
    /// The runtime is not at rest and the deadline has passed.
    GiveUp(PlcError),
}

/// The mathematical value of a [`Verdict`].
pub enum VerdictView {
    Apply(Option<LaunchRequestView>),
    Retry(u64),
    GiveUp(PlcErrorView),
}

impl View for Verdict {
    type V = VerdictView;

    open spec fn view(&self) -> VerdictView {
        match *self {
            Verdict::Apply(request) => VerdictView::Apply(
                match request {
                    Some(r) => Some(r@),
                    None => None,
                },
            ),
            Verdict::Retry(millis) => VerdictView::Retry(millis),
            Verdict::GiveUp(error) => VerdictView::GiveUp(error@),
        }
    }
}

/// The moment at which a call that began at `start` with `timeout` stops
/// waiting; the end of the clock's range where the sum lies beyond it.
pub open spec fn spec_deadline(start: u64, timeout: u64) -> u64 {
    if start + timeout <= u64::MAX {
        (start + timeout) as u64
    } else {
        u64::MAX
    }
}

/// The moment at which a call that begins at `start_ms` stops waiting.
pub fn deadline_after(start_ms: u64, timeout_ms: u64) -> (deadline: u64)
    ensures
        deadline == spec_deadline(start_ms, timeout_ms),
{
    match start_ms.checked_add(timeout_ms) {
        Some(deadline) => deadline,
        None => u64::MAX,
    }
}

/// What follows a round that did not find the runtime at rest: before the
/// deadline a sleep of the poll interval, cut to the time that remains;
/// from the deadline on, the timeout.
pub open spec fn spec_backoff(now: u64, deadline: u64) -> VerdictView {
    if now < deadline {
        if deadline - now < POLL_INTERVAL_MS {
            VerdictView::Retry((deadline - now) as u64)
        } else {
            VerdictView::Retry(POLL_INTERVAL_MS)
        }
    } else {
        VerdictView::GiveUp(PlcErrorView::StopTimeout)
    }
}

/// What follows a round that did not find the runtime at rest, or that
/// could not take the machine at all.
pub fn backoff(now_ms: u64, deadline_ms: u64) -> (verdict: Verdict)
    ensures
        verdict@ == spec_backoff(now_ms, deadline_ms),
{
    if now_ms < deadline_ms {
        let remaining: u64 = deadline_ms - now_ms;
        if remaining < POLL_INTERVAL_MS {
            Verdict::Retry(remaining)
        } else {
            Verdict::Retry(POLL_INTERVAL_MS)
        }
    } else {
        Verdict::GiveUp(PlcError::StopTimeout)
    }
}

/// A sleep between rounds is never empty, never longer than the poll
/// interval, and never reaches past the deadline.
pub proof fn lemma_sleep_is_bounded(now: u64, deadline: u64)
    ensures
        spec_backoff(now, deadline) matches VerdictView::Retry(millis) ==> {
            &&& 0 < millis <= POLL_INTERVAL_MS
            &&& now + millis <= deadline
        },
        spec_backoff(now, deadline) is Retry <==> now < deadline,
        spec_backoff(now, deadline) !is Apply,
{
}

/// The `Stop` that opens every round.
pub open spec fn spec_stop_step(found: Option<Pid>) -> Step {
    Step { event: PlcEventView::Stop, launch: None, found, alive: false }
}

/// The verdict of a round, from the state that the forced `Stop` led to.
pub open spec fn spec_verdict(
    stopped_in: PlcState,
    event: PlcEventView,
    platform: Platform,
    now: u64,
    deadline: u64,
) -> VerdictView {
    if stopped_in == PlcState::Stopped {
        VerdictView::Apply(spec_launch_request(PlcState::Stopped, event, platform))
    } else {
        spec_backoff(now, deadline)
    }
}

impl PlcStateMachine {
    /// One round of the protocol, to be made under exclusive access.
    ///
    /// Applies `Stop`, which no state refuses, and records the state it
    /// leads to. Where that state is `Stopped` the verdict is `Apply`, with
    /// the command that `event` needs; the caller runs it and hands `event`
    /// to [`PlcStateMachine::run`] without letting go of the machine.
    /// Otherwise the verdict is that of [`backoff`].
    pub fn attempt(&mut self, event: &PlcEvent, now_ms: u64, deadline_ms: u64) -> (verdict: Verdict)
        ensures
            final(self).platform == old(self).platform,
            exists|found: Option<Pid>|
                final(self).state == spec_run(old(self).state, spec_stop_step(found)),
            old(self).state != PlcState::Initialize ==> final(self).state == spec_run(
                old(self).state,
                spec_stop_step(None),
            ),
            verdict@ == spec_verdict(
                final(self).state,
                event@,
                old(self).platform,
                now_ms,
                deadline_ms,
            ),
    {
        let stopped = self.run(PlcEvent::Stop, None);
        proof {
            let (found, alive) = choose|found: Option<Pid>, alive: bool|
                self.state == #[trigger] spec_run(
                    old(self).state,
                    (Step { event: PlcEventView::Stop, launch: None, found, alive }),
                );
            assert(self.state == spec_run(old(self).state, spec_stop_step(found)));
        }
        match self.state {
            PlcState::Stopped => Verdict::Apply(self.launch_request(event)),
            _ => backoff(now_ms, deadline_ms),
        }
    }
}

/// What one round of a call met: the caller's clock, the state it found
/// the machine in, and what the process table showed if it was asked.
pub struct Round {
    pub now: u64,
    pub seen: PlcState,
    pub found: Option<Pid>,
}

/// The state that the forced `Stop` of a round leads to.
pub open spec fn spec_stopped_in(round: Round) -> PlcState {
    spec_run(round.seen, spec_stop_step(round.found))
}

/// Whether a round finds the runtime at rest: the machine is `Stopped`, or
/// it is in `Initialize` and the process table holds no runtime.
pub open spec fn spec_at_rest(round: Round) -> bool {
    spec_stopped_in(round) == PlcState::Stopped
}

/// The result of a call that makes `rounds`, earliest first, with
/// `deadline`, where `apply` holds the event and what its application
/// reads. `None` says that the rounds end with the call still waiting.
pub open spec fn spec_transition(
    rounds: Seq<Round>,
    deadline: u64,
    platform: Platform,
    apply: Step,
) -> Option<Result<PlcState, PlcErrorView>>
    decreases rounds.len(),
{
    if rounds.len() == 0 {
        None
    } else {
        let round = rounds.first();
        match spec_verdict(spec_stopped_in(round), apply.event, platform, round.now, deadline) {
            VerdictView::Apply(_) => Some(
                spec_next(PlcState::Stopped, apply.event, apply.launch, apply.found, apply.alive),
            ),
            VerdictView::GiveUp(error) => Some(Err(error)),
            VerdictView::Retry(_) => spec_transition(
                rounds.drop_first(),
                deadline,
                platform,
                apply,
            ),
        }
    }
}

/// A round finds the runtime at rest exactly when the machine is stopped,
/// or has seen nothing yet and finds no runtime.
pub proof fn lemma_at_rest(round: Round)
    ensures
        spec_at_rest(round) <==> (round.seen == PlcState::Stopped || (round.seen
            == PlcState::Initialize && round.found is None)),
{
}

/// A call that asks for `Stop` succeeds, with `Stopped`, as soon as one of
/// its rounds finds the runtime at rest, provided that every round before
/// it was made before the deadline.
pub proof fn lemma_stop_succeeds_once_at_rest(
    rounds: Seq<Round>,
    deadline: u64,
    platform: Platform,
    apply: Step,
    at: int,
)
    requires
        apply.event is Stop,
        0 <= at < rounds.len(),
        spec_at_rest(rounds[at]),
        forall|i: int| 0 <= i < at ==> (#[trigger] rounds[i]).now < deadline,
    ensures
        spec_transition(rounds, deadline, platform, apply) == Some(
            Ok::<PlcState, PlcErrorView>(PlcState::Stopped),
        ),
    decreases rounds.len(),
{
    let first = rounds.first();
    if !spec_at_rest(first) {
        assert(at > 0);
        assert(rounds[0].now < deadline);
        let rest = rounds.drop_first();
        assert(rest[at - 1] == rounds[at]);
        assert forall|i: int| 0 <= i < at - 1 implies (#[trigger] rest[i]).now < deadline by {
            assert(rest[i] == rounds[i + 1]);
        }
        lemma_stop_succeeds_once_at_rest(rest, deadline, platform, apply, at - 1);
    }
}

/// A call none of whose rounds finds the runtime at rest fails with
/// `StopTimeout`, whatever the event, once a round is made at or after the
/// deadline.
pub proof fn lemma_times_out_unless_at_rest(
    rounds: Seq<Round>,
    deadline: u64,
    platform: Platform,
    apply: Step,
    last: int,
)
    requires
        0 <= last < rounds.len(),
        rounds[last].now >= deadline,
        forall|i: int| 0 <= i <= last ==> !spec_at_rest(#[trigger] rounds[i]),
    ensures
        spec_transition(rounds, deadline, platform, apply) == Some(
            Err::<PlcState, PlcErrorView>(PlcErrorView::StopTimeout),
        ),
    decreases rounds.len(),
{
    let first = rounds.first();
    assert(!spec_at_rest(rounds[0]));
    if first.now < deadline {
        assert(last > 0);
        let rest = rounds.drop_first();
        assert(rest[last - 1] == rounds[last]);
        assert forall|i: int| 0 <= i <= last - 1 implies !spec_at_rest(#[trigger] rest[i]) by {
            assert(rest[i] == rounds[i + 1]);
        }
        lemma_times_out_unless_at_rest(rest, deadline, platform, apply, last - 1);
    }
}

/// A call applies its event only to a stopped machine: whatever it
/// returns is the timeout or a row of the table for `Stopped`.
pub proof fn lemma_applies_only_when_stopped(
    rounds: Seq<Round>,
    deadline: u64,
    platform: Platform,
    apply: Step,
)
    ensures
        spec_transition(rounds, deadline, platform, apply) matches Some(result) ==> {
            ||| result == Err::<PlcState, PlcErrorView>(PlcErrorView::StopTimeout)
            ||| result == spec_next(
                PlcState::Stopped,
                apply.event,
                apply.launch,
                apply.found,
                apply.alive,
            )
        },
    decreases rounds.len(),
{
    if rounds.len() > 0 {
        lemma_applies_only_when_stopped(rounds.drop_first(), deadline, platform, apply);
    }
}

} // verus!
