//! What holds of every run of the engine's control loop.
//!
//! A run is a start state and the sequence of events that the driver
//! reported. The laws below are stated over [`EngineState::next`], the
//! function that [`Client::step`](crate::net::client::Client::step)
//! computes, and hold whatever the driver reports.

use crate::net::client::{namespace_text, ActionView, EngineState, LoopEvent, Phase, Stage};
use crate::net::command::{unit_text, CommandErrorView, CommandWrapper};
use vstd::prelude::*;

verus! {

/// The state that the events lead to from `start`.
pub open spec fn run(start: EngineState, events: Seq<LoopEvent>) -> EngineState
    decreases events.len(),
{
    if events.len() == 0 {
        start
    } else {
        run(start, events.drop_last()).next(events.last()).0
    }
}

/// The state in which the event at index `i` arrives.
pub open spec fn state_at(start: EngineState, events: Seq<LoopEvent>, i: int) -> EngineState {
    run(start, events.take(i))
}

/// The action with which the engine answers the event at index `i`.
pub open spec fn action_at(start: EngineState, events: Seq<LoopEvent>, i: int) -> ActionView {
    state_at(start, events, i).next(events[i]).1
}

/// The event at index `k` is the arrival of `envelope`, and the engine takes
/// it.
pub open spec fn accepted_at(
    start: EngineState,
    events: Seq<LoopEvent>,
    k: int,
    envelope: CommandWrapper,
) -> bool {
    &&& 0 <= k < events.len()
    &&& state_at(start, events, k).accepts()
    &&& events[k] == LoopEvent::Command(envelope)
}

/// The state after the event at index `i` is the step from the state before
/// it.
pub proof fn lemma_state_unfolds(start: EngineState, events: Seq<LoopEvent>, i: int)
    requires
        0 <= i < events.len(),
    ensures
        state_at(start, events, i + 1) == state_at(start, events, i).next(events[i]).0,
        state_at(start, events, 0) == start,
{
    assert(events.take(i + 1).drop_last() =~= events.take(i));
    assert(events.take(i + 1).last() == events[i]);
}

/// A step keeps a state well-formed.
pub proof fn lemma_step_keeps_wf(state: EngineState, event: LoopEvent)
    requires
        state.wf(),
    ensures
        state.next(event).0.wf(),
{
}

/// A run keeps a state well-formed.
pub proof fn lemma_run_keeps_wf(start: EngineState, events: Seq<LoopEvent>)
    requires
        start.wf(),
    ensures
        run(start, events).wf(),
    decreases events.len(),
{
    if events.len() > 0 {
        lemma_run_keeps_wf(start, events.drop_last());
        lemma_step_keeps_wf(run(start, events.drop_last()), events.last());
    }
}

/// Liveness is never regained in a step: an engine that is not alive stays
/// so, whatever is reported to it.
pub proof fn lemma_step_never_revives(state: EngineState, event: LoopEvent)
    requires
        !state.alive(),
    ensures
        !state.next(event).0.alive(),
{
}

/// Liveness is monotone over a run: once an engine is seen not to be alive,
/// it is not alive at any later point of the run.
pub proof fn lemma_liveness_is_monotone(
    start: EngineState,
    events: Seq<LoopEvent>,
    i: int,
    j: int,
)
    requires
        0 <= i <= j <= events.len(),
        !state_at(start, events, i).alive(),
    ensures
        !state_at(start, events, j).alive(),
    decreases j - i,
{
    if i < j {
        lemma_liveness_is_monotone(start, events, i, j - 1);
        lemma_state_unfolds(start, events, j - 1);
        lemma_step_never_revives(state_at(start, events, j - 1), events[j - 1]);
    }
}

/// The loop is left only with both channels closed and the listener gone:
/// whenever the engine tells its driver to finish, it is terminated and has
/// closed the command channel and the event channel.
pub proof fn lemma_finish_closes_channels(state: EngineState, event: LoopEvent)
    requires
        state.wf(),
        state.next(event).1 is Finish,
    ensures
        state.next(event).0.phase == Phase::Terminated,
        !state.next(event).0.commands_open,
        !state.next(event).0.events_open,
        !state.next(event).0.listening,
{
}

/// At every point of a run from a well-formed state, a terminated engine has
/// both channels closed, and it stays terminated.
pub proof fn lemma_terminated_is_closed_for_good(
    start: EngineState,
    events: Seq<LoopEvent>,
    i: int,
    j: int,
)
    requires
        start.wf(),
        0 <= i <= j <= events.len(),
        state_at(start, events, i).phase == Phase::Terminated,
    ensures
        state_at(start, events, j).phase == Phase::Terminated,
        !state_at(start, events, j).commands_open,
        !state_at(start, events, j).events_open,
    decreases j - i,
{
    lemma_run_keeps_wf(start, events.take(j));
    if i < j {
        lemma_terminated_is_closed_for_good(start, events, i, j - 1);
        lemma_state_unfolds(start, events, j - 1);
    }
}

/// A registration is only ever asked for in answer to a successful dial of a
/// rendezvous command, and is addressed to that command's peer.
pub proof fn lemma_registration_follows_successful_dial(state: EngineState, event: LoopEvent)
    requires
        state.next(event).1 is Register,
    ensures
        state.phase == Phase::Running,
        event matches LoopEvent::Dialed(Ok(_)),
        state.pending matches Some(p) && p.stage == Stage::Dialing
            && p.envelope.command is AddRendezvous && state.next(event).1 == (
            ActionView::Register {
                namespace: namespace_text(),
                rendezvous: p.envelope.command.peer().id@,
            }),
{
}

/// A rendezvous command whose dial fails is answered with exactly the dial
/// error, and the engine is back where it was: no registration is asked for
/// on the way.
pub proof fn lemma_failed_dial_is_the_answer(
    state: EngineState,
    envelope: CommandWrapper,
    message: String,
)
    requires
        state.accepts(),
    ensures
        ({
            let (dialing, first) = state.next(LoopEvent::Command(envelope));
            let (after, second) = dialing.next(LoopEvent::Dialed(Err(message)));
            &&& first == ActionView::Dial { address: envelope.command.peer().address@ }
            &&& second == ActionView::Respond {
                envelope,
                response: Err(CommandErrorView::Dial(message@)),
            }
            &&& after == state
        }),
{
}

/// A relay command is answered with the outcome of its dial.
pub proof fn lemma_relay_reports_the_dial(
    state: EngineState,
    envelope: CommandWrapper,
    dialed: Result<(), String>,
)
    requires
        state.accepts(),
        envelope.command is AddRelay,
    ensures
        ({
            let (dialing, first) = state.next(LoopEvent::Command(envelope));
            let (after, second) = dialing.next(LoopEvent::Dialed(dialed));
            &&& first == ActionView::Dial { address: envelope.command.peer().address@ }
            &&& second == ActionView::Respond {
                envelope,
                response: match dialed {
                    Ok(_) => Ok(unit_text()),
                    Err(m) => Err(CommandErrorView::Dial(m@)),
                },
            }
            &&& after == state
        }),
{
}

/// A rendezvous command whose dial succeeds is answered with the outcome of
/// the registration, not of the dial: success where the peer accepts it, the
/// registration error where it does not.
pub proof fn lemma_rendezvous_reports_the_registration(
    state: EngineState,
    envelope: CommandWrapper,
    registered: Result<(), String>,
)
    requires
        state.accepts(),
        envelope.command is AddRendezvous,
    ensures
        ({
            let (dialing, first) = state.next(LoopEvent::Command(envelope));
            let (registering, second) = dialing.next(LoopEvent::Dialed(Ok(())));
            let (after, third) = registering.next(LoopEvent::Registered(registered));
            &&& first == ActionView::Dial { address: envelope.command.peer().address@ }
            &&& second == ActionView::Register {
                namespace: namespace_text(),
                rendezvous: envelope.command.peer().id@,
            }
            &&& third == ActionView::Respond {
                envelope,
                response: match registered {
                    Ok(_) => Ok(unit_text()),
                    Err(m) => Err(CommandErrorView::Register(m@)),
                },
            }
            &&& after == state
        }),
{
}

/// A response always answers the command in hand, and leaves none in hand.
pub proof fn lemma_response_answers_the_pending(state: EngineState, event: LoopEvent)
    requires
        state.next(event).1 is Respond,
    ensures
        state.phase == Phase::Running,
        state.pending matches Some(p) && state.next(event).1->Respond_envelope == p.envelope,
        state.next(event).0.pending is None,
{
}

/// A command in hand was taken earlier in the run: if none was in hand at
/// index `a` and one is at index `b`, its envelope arrived and was accepted
/// in between.
pub proof fn lemma_pending_was_accepted(
    start: EngineState,
    events: Seq<LoopEvent>,
    a: int,
    b: int,
) -> (k: int)
    requires
        0 <= a <= b <= events.len(),
        state_at(start, events, a).pending is None,
        state_at(start, events, b).pending is Some,
    ensures
        a <= k < b,
        accepted_at(start, events, k, state_at(start, events, b).pending->0.envelope),
    decreases b - a,
{
    let before = state_at(start, events, b - 1);
    lemma_state_unfolds(start, events, b - 1);
    if before.pending is None {
        b - 1
    } else {
        lemma_pending_was_accepted(start, events, a, b - 1)
    }
}

/// No envelope is answered twice: between any two responses of a run, the
/// envelope that the later one answers arrived and was accepted. Each
/// response thus belongs to an acceptance of its own.
pub proof fn lemma_responses_are_separated(
    start: EngineState,
    events: Seq<LoopEvent>,
    i: int,
    j: int,
) -> (k: int)
    requires
        0 <= i < j < events.len(),
        action_at(start, events, i) is Respond,
        action_at(start, events, j) is Respond,
    ensures
        i < k < j,
        accepted_at(start, events, k, action_at(start, events, j)->Respond_envelope),
{
    lemma_state_unfolds(start, events, i);
    lemma_response_answers_the_pending(state_at(start, events, i), events[i]);
    lemma_response_answers_the_pending(state_at(start, events, j), events[j]);
    lemma_pending_was_accepted(start, events, i + 1, j)
}

} // verus!
