use story_service::auth::session_cookie;
use story_service::lifecycle::{Action, Event, Lifecycle, Phase, Signal};

#[test]
fn new_lifecycle_serves_with_nothing_in_flight() {
    assert_eq!(Lifecycle::new(), Lifecycle { phase: Phase::Serving, in_flight: 0 });
}

#[test]
fn signal_with_nothing_in_flight_exits() {
    for signal in [Signal::Interrupt, Signal::Terminate] {
        let mut l = Lifecycle::new();
        assert_eq!(l.step(Event::Signalled(signal)), Action::Exit);
        assert_eq!(l, Lifecycle { phase: Phase::Stopped, in_flight: 0 });
    }
}

#[test]
fn signal_waits_for_requests_in_flight() {
    let mut l = Lifecycle::new();
    assert_eq!(l.step(Event::RequestArrived), Action::Accept);
    assert_eq!(l.step(Event::RequestArrived), Action::Accept);
    assert_eq!(l, Lifecycle { phase: Phase::Serving, in_flight: 2 });
    assert_eq!(l.step(Event::Signalled(Signal::Terminate)), Action::StopAccepting);
    assert_eq!(l, Lifecycle { phase: Phase::Draining, in_flight: 2 });
    assert_eq!(l.step(Event::RequestArrived), Action::Refuse);
    assert_eq!(l.step(Event::Signalled(Signal::Interrupt)), Action::Proceed);
    assert_eq!(l.step(Event::RequestFinished), Action::Proceed);
    assert_eq!(l, Lifecycle { phase: Phase::Draining, in_flight: 1 });
    assert_eq!(l.step(Event::RequestFinished), Action::Exit);
    assert_eq!(l, Lifecycle { phase: Phase::Stopped, in_flight: 0 });
    assert_eq!(l.step(Event::RequestArrived), Action::Refuse);
    assert_eq!(l.step(Event::RequestFinished), Action::Proceed);
    assert_eq!(l.step(Event::Signalled(Signal::Interrupt)), Action::Proceed);
    assert_eq!(l, Lifecycle { phase: Phase::Stopped, in_flight: 0 });
}

#[test]
fn serving_counts_requests() {
    let mut l = Lifecycle::new();
    assert_eq!(l.step(Event::RequestFinished), Action::Proceed);
    assert_eq!(l.in_flight, 0);
    assert_eq!(l.step(Event::RequestArrived), Action::Accept);
    assert_eq!(l.step(Event::RequestFinished), Action::Proceed);
    assert_eq!(l, Lifecycle { phase: Phase::Serving, in_flight: 0 });
}

#[test]
fn full_server_refuses() {
    let mut l = Lifecycle { phase: Phase::Serving, in_flight: u64::MAX };
    assert_eq!(l.step(Event::RequestArrived), Action::Refuse);
    assert_eq!(l.in_flight, u64::MAX);
}

#[test]
fn session_cookie_carries_the_token() {
    assert_eq!(session_cookie("12345"), "session-id:12345");
    assert_eq!(session_cookie(""), "session-id:");
}
