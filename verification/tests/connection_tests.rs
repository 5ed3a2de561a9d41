use ibis::connection::{
    response, Attempt, Fault, HandlerState, Operation, Outcome, ServiceFault, ServicePhase,
    ServiceStep, Step,
};

#[test]
fn response_is_the_fixed_text() {
    assert_eq!(response(), "test");
}

#[test]
fn request_response_repeats_on_one_connection() {
    let state = HandlerState::start();
    assert_eq!(state.operation(), Operation::Read);
    let step = state.advance(Outcome::Done(5));
    assert_eq!(step, Step { next: HandlerState::Responding, fault: None });
    assert_eq!(step.next.operation(), Operation::Respond);
    let step = step.next.advance(Outcome::Done(response().len()));
    assert_eq!(step, Step { next: HandlerState::Reading, fault: None });
    assert_eq!(step.next.operation(), Operation::Read);
    let step = step.next.advance(Outcome::Done(3));
    assert_eq!(step, Step { next: HandlerState::Responding, fault: None });
    let step = step.next.advance(Outcome::Done(response().len()));
    assert_eq!(step, Step { next: HandlerState::Reading, fault: None });
}

#[test]
fn immediate_close_writes_nothing_and_reports_nothing() {
    let step = HandlerState::start().advance(Outcome::Done(0));
    assert_eq!(step, Step { next: HandlerState::Closed, fault: None });
    assert_eq!(step.next.operation(), Operation::Stop);
}

#[test]
fn failed_read_closes_with_a_report() {
    let step = HandlerState::Reading.advance(Outcome::Failed);
    assert_eq!(step, Step { next: HandlerState::Closed, fault: Some(Fault::Read) });
}

#[test]
fn failed_write_closes_with_a_report() {
    let step = HandlerState::Responding.advance(Outcome::Failed);
    assert_eq!(step, Step { next: HandlerState::Closed, fault: Some(Fault::Write) });
}

#[test]
fn closed_handler_stays_closed() {
    assert_eq!(
        HandlerState::Closed.advance(Outcome::Done(9)),
        Step { next: HandlerState::Closed, fault: None }
    );
    assert_eq!(
        HandlerState::Closed.advance(Outcome::Failed),
        Step { next: HandlerState::Closed, fault: None }
    );
}

#[test]
fn handlers_do_not_interfere() {
    let mut handlers = vec![HandlerState::start(); 4];
    let events = [
        (0, Outcome::Done(5)),
        (1, Outcome::Done(0)),
        (2, Outcome::Failed),
        (0, Outcome::Done(4)),
        (3, Outcome::Done(1)),
        (0, Outcome::Done(3)),
        (3, Outcome::Failed),
    ];
    for (index, outcome) in events {
        handlers[index] = handlers[index].advance(outcome).next;
    }
    assert_eq!(
        handlers,
        vec![
            HandlerState::Responding,
            HandlerState::Closed,
            HandlerState::Closed,
            HandlerState::Closed,
        ]
    );
}

#[test]
fn service_starts_binds_and_accepts() {
    let phase = ServicePhase::start();
    assert_eq!(phase, ServicePhase::Building);
    let step = phase.advance(Attempt::Succeeded);
    assert_eq!(step, ServiceStep { next: ServicePhase::Binding, spawn: false, fault: None });
    let step = step.next.advance(Attempt::Succeeded);
    assert_eq!(step, ServiceStep { next: ServicePhase::Accepting, spawn: false, fault: None });
    let step = step.next.advance(Attempt::Succeeded);
    assert_eq!(step, ServiceStep { next: ServicePhase::Accepting, spawn: true, fault: None });
    let step = step.next.advance(Attempt::Succeeded);
    assert_eq!(step, ServiceStep { next: ServicePhase::Accepting, spawn: true, fault: None });
}

#[test]
fn each_failure_stops_the_service() {
    assert_eq!(
        ServicePhase::Building.advance(Attempt::Failed),
        ServiceStep { next: ServicePhase::Stopped, spawn: false, fault: Some(ServiceFault::Runtime) }
    );
    assert_eq!(
        ServicePhase::Binding.advance(Attempt::Failed),
        ServiceStep { next: ServicePhase::Stopped, spawn: false, fault: Some(ServiceFault::Bind) }
    );
    assert_eq!(
        ServicePhase::Accepting.advance(Attempt::Failed),
        ServiceStep { next: ServicePhase::Stopped, spawn: false, fault: Some(ServiceFault::Accept) }
    );
}

#[test]
fn stopped_service_stays_stopped() {
    assert_eq!(
        ServicePhase::Stopped.advance(Attempt::Succeeded),
        ServiceStep { next: ServicePhase::Stopped, spawn: false, fault: None }
    );
    assert_eq!(
        ServicePhase::Stopped.advance(Attempt::Failed),
        ServiceStep { next: ServicePhase::Stopped, spawn: false, fault: None }
    );
}
