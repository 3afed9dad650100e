//! What holds of the transition table for all inputs.
use vstd::prelude::*;

use crate::plc::{
    spec_discovered, spec_launch_request, spec_next, spec_probe, spec_run, spec_run_all,
    LaunchOutcomeView, Pid, Platform, PlcErrorView, PlcEventView, PlcState, Step,
};

verus! {

/// The pairs of state and event that the transition table has a row for.
pub open spec fn spec_enumerated(state: PlcState, event: PlcEventView) -> bool {
    match state {
        PlcState::Initialize => event is NoOp || event is Stop,
        PlcState::Stopped => true,
        PlcState::Stopping(_) | PlcState::Running(_) | PlcState::Compiling(_) => event is NoOp
            || event is Stop,
    }
}

/// The first `NoOp` or `Stop` leaves `Initialize` for the state that the
/// search of the process table stands for: `Running` with the pid found, or
/// `Stopped` where none was.
pub proof fn lemma_first_event_discovers(
    event: PlcEventView,
    launch: Option<LaunchOutcomeView>,
    found: Option<Pid>,
    alive: bool,
)
    requires
        event is NoOp || event is Stop,
    ensures
        spec_next(PlcState::Initialize, event, launch, found, alive) == Ok::<
            PlcState,
            PlcErrorView,
        >(spec_discovered(found)),
        found matches Some(pid) ==> spec_discovered(found) == PlcState::Running(pid),
        found is None ==> spec_discovered(found) == PlcState::Stopped,
{
}

/// However often `NoOp` and `Stop` are applied to a stopped machine, it
/// stays stopped.
pub proof fn lemma_stopped_is_idempotent(steps: Seq<Step>)
    requires
        forall|i: int|
            0 <= i < steps.len() ==> (#[trigger] steps[i]).event is NoOp || steps[i].event is Stop,
    ensures
        spec_run_all(PlcState::Stopped, steps) == PlcState::Stopped,
    decreases steps.len(),
{
    if steps.len() > 0 {
        let earlier = steps.drop_last();
        assert forall|i: int| 0 <= i < earlier.len() implies (#[trigger] earlier[i]).event is NoOp
            || earlier[i].event is Stop by {
            assert(earlier[i] == steps[i]);
        }
        lemma_stopped_is_idempotent(earlier);
    }
}

/// A pair of state and event has no row in the table exactly when the
/// transition is refused as invalid; the error then carries the pair, and
/// the machine keeps its state.
pub proof fn lemma_unlisted_is_invalid(state: PlcState, step: Step)
    ensures
        !spec_enumerated(state, step.event) <==> spec_next(
            state,
            step.event,
            step.launch,
            step.found,
            step.alive,
        ) == Err::<PlcState, PlcErrorView>(PlcErrorView::InvalidTransition(state, step.event)),
        !spec_enumerated(state, step.event) ==> spec_run(state, step) == state,
{
}

/// No transition leads to `Initialize`.
pub proof fn lemma_next_is_settled(state: PlcState, step: Step)
    ensures
        spec_next(state, step.event, step.launch, step.found, step.alive) matches Ok(next)
            ==> next.is_settled(),
        state.is_settled() ==> spec_run(state, step).is_settled(),
{
}

/// However the applications of several callers are ordered, the machine
/// holds its first state or a state that the table gives for the state
/// before it; once it has left `Initialize` it does not come back.
pub proof fn lemma_every_order_stays_valid(state: PlcState, steps: Seq<Step>)
    ensures
        state.is_settled() ==> spec_run_all(state, steps).is_settled(),
        spec_run_all(state, steps) == state || spec_run_all(state, steps).is_settled(),
        steps.len() > 0 ==> {
            let before = spec_run_all(state, steps.drop_last());
            let last = steps.last();
            let after = spec_run_all(state, steps);
            after == before || spec_next(
                before,
                last.event,
                last.launch,
                last.found,
                last.alive,
            ) == Ok::<PlcState, PlcErrorView>(after)
        },
    decreases steps.len(),
{
    if steps.len() > 0 {
        lemma_every_order_stays_valid(state, steps.drop_last());
        lemma_next_is_settled(spec_run_all(state, steps.drop_last()), steps.last());
    }
}

/// A transition depends on the process table only through the query that
/// [`spec_probe`] names: observations it does not ask for change nothing.
pub proof fn lemma_unprobed_is_irrelevant(
    state: PlcState,
    event: PlcEventView,
    launch: Option<LaunchOutcomeView>,
    platform: Platform,
    found1: Option<Pid>,
    alive1: bool,
    found2: Option<Pid>,
    alive2: bool,
)
    requires
        spec_probe(state, event, launch, platform) is ByName ==> found1 == found2,
        spec_probe(state, event, launch, platform) is ByPid ==> alive1 == alive2,
    ensures
        spec_next(state, event, launch, found1, alive1) == spec_next(
            state,
            event,
            launch,
            found2,
            alive2,
        ),
{
}

/// A transition reads the report of a command only where
/// [`spec_launch_request`] names one: elsewhere any two reports give the
/// same result.
pub proof fn lemma_unrequested_launch_is_irrelevant(
    state: PlcState,
    event: PlcEventView,
    platform: Platform,
    launch1: Option<LaunchOutcomeView>,
    launch2: Option<LaunchOutcomeView>,
    found: Option<Pid>,
    alive: bool,
)
    requires
        spec_launch_request(state, event, platform) is None,
    ensures
        spec_next(state, event, launch1, found, alive) == spec_next(
            state,
            event,
            launch2,
            found,
            alive,
        ),
{
}

/// A transition that fails on its command leaves the machine stopped: only
/// a stopped machine runs commands, and an error does not change the state.
pub proof fn lemma_launch_fails_in_stopped(state: PlcState, step: Step)
    requires
        spec_next(state, step.event, step.launch, step.found, step.alive) matches Err(
            PlcErrorView::LaunchFailed(_),
        ),
    ensures
        state == PlcState::Stopped,
        spec_run(state, step) == PlcState::Stopped,
{
}

/// `NoOp` and `Stop` are valid in every state.
pub proof fn lemma_noop_and_stop_never_fail(state: PlcState, step: Step)
    requires
        step.event is NoOp || step.event is Stop,
    ensures
        spec_next(state, step.event, step.launch, step.found, step.alive) is Ok,
{
}

} // verus!
