//! The decisions of the listener and of each connection handler, as state
//! machines: the driver performs the operation a state asks for and hands
//! back how it ended; the machine says what comes next.

use vstd::prelude::*;

verus! {

/// How an awaited operation ended.
#[derive(Clone, Copy, Debug, PartialEq, Eq, Structural)]
pub enum Outcome {
    /// It succeeded and moved this many bytes.
    Done(usize),
    /// It failed.
    Failed,
}

/// The states of a connection handler.
#[derive(Clone, Copy, Debug, PartialEq, Eq, Structural)]
pub enum HandlerState {
    /// Waiting for bytes from the peer.
    Reading,
    /// Writing the response back to the peer.
    Responding,
    /// Done with the connection.
    Closed,
}

/// What the driver of a handler does next.
#[derive(Clone, Copy, Debug, PartialEq, Eq, Structural)]
pub enum Operation {
    /// Read from the connection.
    Read,
    /// Write the whole response to the connection.
    Respond,
    /// Drop the connection.
    Stop,
}

/// The operation on a connection that failed.
#[derive(Clone, Copy, Debug, PartialEq, Eq, Structural)]
pub enum Fault {
    Read,
    Write,
}

/// One move of a handler: the state it enters and the failure to report,
/// if one ended the connection.
#[derive(Clone, Copy, Debug, PartialEq, Eq, Structural)]
pub struct Step {
    pub next: HandlerState,
    pub fault: Option<Fault>,
}

/// The state that follows `state` when its operation ended with `outcome`.
/// A read of no bytes is the peer closing; a failure closes the connection;
/// a closed handler stays closed.
pub open spec fn handler_next(state: HandlerState, outcome: Outcome) -> HandlerState {
    match (state, outcome) {
        (HandlerState::Reading, Outcome::Done(count)) => if count == 0 {
            HandlerState::Closed
        } else {
            HandlerState::Responding
        },
        (HandlerState::Responding, Outcome::Done(_)) => HandlerState::Reading,
        _ => HandlerState::Closed,
    }
}

/// The failure to report when the operation of `state` ended with `outcome`.
pub open spec fn handler_fault(state: HandlerState, outcome: Outcome) -> Option<Fault> {
    match (state, outcome) {
        (HandlerState::Reading, Outcome::Failed) => Some(Fault::Read),
        (HandlerState::Responding, Outcome::Failed) => Some(Fault::Write),
        _ => None,
    }
}

/// The operation that a state asks of the driver.
pub open spec fn operation_of(state: HandlerState) -> Operation {
    match state {
        HandlerState::Reading => Operation::Read,
        HandlerState::Responding => Operation::Respond,
        HandlerState::Closed => Operation::Stop,
    }
}

/// The state of a handler after a run of outcomes, the first one first.
pub open spec fn handler_after(state: HandlerState, outcomes: Seq<Outcome>) -> HandlerState
    decreases outcomes.len(),
{
    if outcomes.len() == 0 {
        state
    } else {
        handler_after(handler_next(state, outcomes.first()), outcomes.drop_first())
    }
}

/// The number of responses a handler has written in full over a run of
/// outcomes.
pub open spec fn responses_in(state: HandlerState, outcomes: Seq<Outcome>) -> nat
    decreases outcomes.len(),
{
    if outcomes.len() == 0 {
        0
    } else {
        let written: nat = if state == HandlerState::Responding && outcomes.first() is Done {
            1
        } else {
            0
        };
        written + responses_in(handler_next(state, outcomes.first()), outcomes.drop_first())
    }
}

/// The response that every request gets.
pub open spec fn response_text() -> Seq<char> {
    "test"@
}

/// The response that every request gets.
pub fn response() -> (r: &'static str)
    ensures
        r@ == response_text(),
{
    "test"
}

impl HandlerState {
    /// The state of a handler whose connection was just accepted.
    pub fn start() -> (r: Self)
        ensures
            r == HandlerState::Reading,
    {
        HandlerState::Reading
    }

    /// The operation that the driver performs in this state.
    pub fn operation(self) -> (r: Operation)
        ensures
            r == operation_of(self),
    {
        match self {
            HandlerState::Reading => Operation::Read,
            HandlerState::Responding => Operation::Respond,
            HandlerState::Closed => Operation::Stop,
        }
    }

    /// Moves the handler on, given how the operation of this state ended.
    pub fn advance(self, outcome: Outcome) -> (r: Step)
        ensures
            r.next == handler_next(self, outcome),
            r.fault == handler_fault(self, outcome),
    {
        match self {
            HandlerState::Reading => match outcome {
                Outcome::Done(count) => if count == 0 {
                    Step { next: HandlerState::Closed, fault: None }
                } else {
                    Step { next: HandlerState::Responding, fault: None }
                },
                Outcome::Failed => Step { next: HandlerState::Closed, fault: Some(Fault::Read) },
            },
            HandlerState::Responding => match outcome {
                Outcome::Done(_) => Step { next: HandlerState::Reading, fault: None },
                Outcome::Failed => Step { next: HandlerState::Closed, fault: Some(Fault::Write) },
            },
            HandlerState::Closed => Step { next: HandlerState::Closed, fault: None },
        }
    }
}

/// How an attempt of the listener ended.
#[derive(Clone, Copy, Debug, PartialEq, Eq, Structural)]
pub enum Attempt {
    Succeeded,
    Failed,
}

/// The phases of the service, from start-up to the end of accepting.
#[derive(Clone, Copy, Debug, PartialEq, Eq, Structural)]
pub enum ServicePhase {
    /// The runtime is being built.
    Building,
    /// The listener is being bound.
    Binding,
    /// The listener waits for the next connection.
    Accepting,
    /// No further connection is accepted.
    Stopped,
}

/// The attempt of the service that failed.
#[derive(Clone, Copy, Debug, PartialEq, Eq, Structural)]
pub enum ServiceFault {
    Runtime,
    Bind,
    Accept,
}

/// One move of the service: the phase it enters, whether a handler is
/// spawned for a connection just accepted, and the failure to report, if
/// one stopped the service.
#[derive(Clone, Copy, Debug, PartialEq, Eq, Structural)]
pub struct ServiceStep {
    pub next: ServicePhase,
    pub spawn: bool,
    pub fault: Option<ServiceFault>,
}

/// The phase that follows `phase` when its attempt ended with `attempt`.
/// Any failure stops the service; a stopped service stays stopped.
pub open spec fn service_next(phase: ServicePhase, attempt: Attempt) -> ServicePhase {
    match (phase, attempt) {
        (ServicePhase::Building, Attempt::Succeeded) => ServicePhase::Binding,
        (ServicePhase::Binding, Attempt::Succeeded) => ServicePhase::Accepting,
        (ServicePhase::Accepting, Attempt::Succeeded) => ServicePhase::Accepting,
        _ => ServicePhase::Stopped,
    }
}

/// Whether a handler is spawned: for each connection that was accepted.
pub open spec fn service_spawns(phase: ServicePhase, attempt: Attempt) -> bool {
    phase == ServicePhase::Accepting && attempt == Attempt::Succeeded
}

/// The failure to report when the attempt of `phase` ended with `attempt`.
pub open spec fn service_fault(phase: ServicePhase, attempt: Attempt) -> Option<ServiceFault> {
    match (phase, attempt) {
        (ServicePhase::Building, Attempt::Failed) => Some(ServiceFault::Runtime),
        (ServicePhase::Binding, Attempt::Failed) => Some(ServiceFault::Bind),
        (ServicePhase::Accepting, Attempt::Failed) => Some(ServiceFault::Accept),
        _ => None,
    }
}

impl ServicePhase {
    /// The phase in which the service starts.
    pub fn start() -> (r: Self)
        ensures
            r == ServicePhase::Building,
    {
        ServicePhase::Building
    }

    /// Moves the service on, given how the attempt of this phase ended.
    pub fn advance(self, attempt: Attempt) -> (r: ServiceStep)
        ensures
            r.next == service_next(self, attempt),
            r.spawn == service_spawns(self, attempt),
            r.fault == service_fault(self, attempt),
    {
        match attempt {
            Attempt::Succeeded => match self {
                ServicePhase::Building => ServiceStep {
                    next: ServicePhase::Binding,
                    spawn: false,
                    fault: None,
                },
                ServicePhase::Binding => ServiceStep {
                    next: ServicePhase::Accepting,
                    spawn: false,
                    fault: None,
                },
                ServicePhase::Accepting => ServiceStep {
                    next: ServicePhase::Accepting,
                    spawn: true,
                    fault: None,
                },
                ServicePhase::Stopped => ServiceStep {
                    next: ServicePhase::Stopped,
                    spawn: false,
                    fault: None,
                },
            },
            Attempt::Failed => {
                let fault = match self {
                    ServicePhase::Building => Some(ServiceFault::Runtime),
                    ServicePhase::Binding => Some(ServiceFault::Bind),
                    ServicePhase::Accepting => Some(ServiceFault::Accept),
                    ServicePhase::Stopped => None,
                };
                ServiceStep { next: ServicePhase::Stopped, spawn: false, fault }
            },
        }
    }
}

/// A closed handler stays closed and writes nothing, whatever is handed to
/// it afterwards.
pub proof fn lemma_closed_is_final(outcomes: Seq<Outcome>)
    ensures
        handler_after(HandlerState::Closed, outcomes) == HandlerState::Closed,
        responses_in(HandlerState::Closed, outcomes) == 0,
    decreases outcomes.len(),
{
    if outcomes.len() > 0 {
        lemma_closed_is_final(outcomes.drop_first());
    }
}

/// A reading handler answers every read that brought bytes: after the
/// read and the write of the response it reads again, one response on,
/// and goes on from there as a handler that just started.
pub proof fn lemma_exchange_repeats(received: usize, sent: usize, rest: Seq<Outcome>)
    requires
        received > 0,
    ensures
        handler_after(
            HandlerState::Reading,
            seq![Outcome::Done(received), Outcome::Done(sent)] + rest,
        ) == handler_after(HandlerState::Reading, rest),
        responses_in(
            HandlerState::Reading,
            seq![Outcome::Done(received), Outcome::Done(sent)] + rest,
        ) == 1 + responses_in(HandlerState::Reading, rest),
{
    let run = seq![Outcome::Done(received), Outcome::Done(sent)] + rest;
    let tail = seq![Outcome::Done(sent)] + rest;
    assert(run.drop_first() == tail);
    assert(tail.drop_first() == rest);
    assert(handler_after(HandlerState::Reading, run) == handler_after(
        HandlerState::Responding,
        tail,
    ));
    assert(responses_in(HandlerState::Reading, run) == responses_in(
        HandlerState::Responding,
        tail,
    ));
}

/// A peer that closes before it sends anything closes the handler at once:
/// nothing is written and no failure is reported.
pub proof fn lemma_immediate_close(rest: Seq<Outcome>)
    ensures
        handler_next(HandlerState::Reading, Outcome::Done(0)) == HandlerState::Closed,
        handler_fault(HandlerState::Reading, Outcome::Done(0)) is None,
        handler_after(HandlerState::Reading, seq![Outcome::Done(0)] + rest) == HandlerState::Closed,
        responses_in(HandlerState::Reading, seq![Outcome::Done(0)] + rest) == 0,
{
    let run = seq![Outcome::Done(0)] + rest;
    assert(run.drop_first() == rest);
    lemma_closed_is_final(rest);
}

/// A failure is reported exactly when an operation of an open handler
/// failed, and it closes the handler.
pub proof fn lemma_fault_closes(state: HandlerState, outcome: Outcome)
    ensures
        handler_fault(state, outcome) is Some <==> state != HandlerState::Closed && outcome
            == Outcome::Failed,
        handler_fault(state, outcome) is Some ==> handler_next(state, outcome)
            == HandlerState::Closed,
{
}

/// The states of a number of handlers after a run of events, each event
/// being the outcome of one handler's operation. An event moves the handler
/// it belongs to and no other.
pub open spec fn fleet_after(states: Seq<HandlerState>, events: Seq<(int, Outcome)>) -> Seq<
    HandlerState,
>
    decreases events.len(),
{
    if events.len() == 0 {
        states
    } else {
        fleet_after(fleet_next(states, events.first()), events.drop_first())
    }
}

/// The states of a number of handlers after one event.
pub open spec fn fleet_next(states: Seq<HandlerState>, event: (int, Outcome)) -> Seq<HandlerState> {
    if 0 <= event.0 < states.len() {
        states.update(event.0, handler_next(states[event.0], event.1))
    } else {
        states
    }
}

/// The outcomes that belong to one handler among a run of events, in order.
pub open spec fn outcomes_of(events: Seq<(int, Outcome)>, handler: int) -> Seq<Outcome>
    decreases events.len(),
{
    if events.len() == 0 {
        Seq::empty()
    } else if events.first().0 == handler {
        seq![events.first().1] + outcomes_of(events.drop_first(), handler)
    } else {
        outcomes_of(events.drop_first(), handler)
    }
}

/// Handlers do not interfere: however the events of many connections are
/// interleaved, each handler ends where its own outcomes alone lead it.
pub proof fn lemma_handlers_are_independent(
    states: Seq<HandlerState>,
    events: Seq<(int, Outcome)>,
    handler: int,
)
    requires
        0 <= handler < states.len(),
    ensures
        fleet_after(states, events).len() == states.len(),
        fleet_after(states, events)[handler] == handler_after(
            states[handler],
            outcomes_of(events, handler),
        ),
    decreases events.len(),
{
    if events.len() > 0 {
        let moved = fleet_next(states, events.first());
        lemma_handlers_are_independent(moved, events.drop_first(), handler);
        if events.first().0 == handler {
            let own = seq![events.first().1] + outcomes_of(events.drop_first(), handler);
            assert(own.first() == events.first().1);
            assert(own.drop_first() == outcomes_of(events.drop_first(), handler));
        }
    }
}

/// A handler is spawned only for an accepted connection, and a failure of
/// the listener stops the accepting for good without a spawn.
pub proof fn lemma_service_stops_on_failure(phase: ServicePhase, attempt: Attempt)
    ensures
        service_spawns(phase, attempt) ==> service_next(phase, attempt) == ServicePhase::Accepting,
        attempt == Attempt::Failed ==> service_next(phase, attempt) == ServicePhase::Stopped
            && !service_spawns(phase, attempt),
        service_fault(phase, attempt) is Some <==> phase != ServicePhase::Stopped && attempt
            == Attempt::Failed,
        service_next(ServicePhase::Stopped, attempt) == ServicePhase::Stopped,
{
}

} // verus!
