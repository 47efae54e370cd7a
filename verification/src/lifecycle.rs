//! Graceful shutdown: after a termination signal no new request is accepted,
//! and the process exits once the requests in flight have finished.

use vstd::prelude::*;

verus! {

/// The termination signals that are listened for.
#[derive(Clone, Copy, Debug, PartialEq, Eq, Structural)]
pub enum Signal {
    Interrupt,
    Terminate,
}

/// Where the server is in its life.
#[derive(Clone, Copy, Debug, PartialEq, Eq, Structural)]
pub enum Phase {
    /// Requests are accepted.
    Serving,
    /// A signal has arrived; requests in flight are being completed.
    Draining,
    /// Nothing is in flight and nothing will be accepted.
    Stopped,
}

/// What happens to the server.
#[derive(Clone, Copy, Debug, PartialEq, Eq, Structural)]
pub enum Event {
    Signalled(Signal),
    RequestArrived,
    RequestFinished,
}

/// What the server is to do in answer to an event.
#[derive(Clone, Copy, Debug, PartialEq, Eq, Structural)]
pub enum Action {
    /// Handle the request that arrived.
    Accept,
    /// Turn the request that arrived away.
    Refuse,
    /// Stop accepting and wait for the requests in flight.
    StopAccepting,
    /// Exit the process.
    Exit,
    /// Carry on.
    Proceed,
}

/// The phase and the number of requests in flight.
#[derive(Clone, Copy, Debug, PartialEq, Eq, Structural)]
pub struct Lifecycle {
    pub phase: Phase,
    pub in_flight: u64,
}

/// While draining something is in flight; once stopped nothing is.
pub open spec fn consistent(l: Lifecycle) -> bool {
    match l.phase {
        Phase::Serving => true,
        Phase::Draining => l.in_flight > 0,
        Phase::Stopped => l.in_flight == 0,
    }
}

/// The state after an event.
pub open spec fn next_state(l: Lifecycle, event: Event) -> Lifecycle {
    match (l.phase, event) {
        (Phase::Serving, Event::Signalled(_)) => if l.in_flight == 0 {
            Lifecycle { phase: Phase::Stopped, in_flight: 0 }
        } else {
            Lifecycle { phase: Phase::Draining, in_flight: l.in_flight }
        },
        (Phase::Serving, Event::RequestArrived) => if l.in_flight < u64::MAX {
            Lifecycle { phase: Phase::Serving, in_flight: (l.in_flight + 1) as u64 }
        } else {
            l
        },
        (Phase::Serving, Event::RequestFinished) => if l.in_flight > 0 {
            Lifecycle { phase: Phase::Serving, in_flight: (l.in_flight - 1) as u64 }
        } else {
            l
        },
        (Phase::Draining, Event::RequestFinished) => if l.in_flight <= 1 {
            Lifecycle { phase: Phase::Stopped, in_flight: 0 }
        } else {
            Lifecycle { phase: Phase::Draining, in_flight: (l.in_flight - 1) as u64 }
        },
        (Phase::Draining, _) => l,
        (Phase::Stopped, _) => l,
    }
}

/// The action owed for an event.
pub open spec fn action_for(l: Lifecycle, event: Event) -> Action {
    match event {
        Event::RequestArrived => if l.phase == Phase::Serving && l.in_flight < u64::MAX {
            Action::Accept
        } else {
            Action::Refuse
        },
        Event::Signalled(_) => if l.phase == Phase::Serving {
            if l.in_flight == 0 {
                Action::Exit
            } else {
                Action::StopAccepting
            }
        } else {
            Action::Proceed
        },
        Event::RequestFinished => if l.phase == Phase::Draining && l.in_flight <= 1 {
            Action::Exit
        } else {
            Action::Proceed
        },
    }
}

impl Lifecycle {
    /// A server that accepts requests and has none in flight.
    pub fn new() -> (l: Lifecycle)
        ensures
            l == (Lifecycle { phase: Phase::Serving, in_flight: 0 }),
            consistent(l),
    {
        Lifecycle { phase: Phase::Serving, in_flight: 0 }
    }

    /// Takes an event, moves to the next state and says what to do.
    pub fn step(&mut self, event: Event) -> (action: Action)
        ensures
            *final(self) == next_state(*old(self), event),
            consistent(*old(self)) ==> consistent(*final(self)),
            action == action_for(*old(self), event),
    {
        match event {
            Event::Signalled(_) => {
                match self.phase {
                    Phase::Serving => {
                        if self.in_flight == 0 {
                            self.phase = Phase::Stopped;
                            Action::Exit
                        } else {
                            self.phase = Phase::Draining;
                            Action::StopAccepting
                        }
                    },
                    _ => Action::Proceed,
                }
            },
            Event::RequestArrived => {
                match self.phase {
                    Phase::Serving => {
                        if self.in_flight < u64::MAX {
                            self.in_flight = self.in_flight + 1;
                            Action::Accept
                        } else {
                            Action::Refuse
                        }
                    },
                    _ => Action::Refuse,
                }
            },
            Event::RequestFinished => {
                match self.phase {
                    Phase::Serving => {
                        if self.in_flight > 0 {
                            self.in_flight = self.in_flight - 1;
                        }
                        Action::Proceed
                    },
                    Phase::Draining => {
                        if self.in_flight <= 1 {
                            self.in_flight = 0;
                            self.phase = Phase::Stopped;
                            Action::Exit
                        } else {
                            self.in_flight = self.in_flight - 1;
                            Action::Proceed
                        }
                    },
                    Phase::Stopped => Action::Proceed,
                }
            },
        }
    }
}

/// Both signals are treated alike.
pub proof fn law_signals_alike(l: Lifecycle)
    ensures
        next_state(l, Event::Signalled(Signal::Interrupt)) == next_state(
            l,
            Event::Signalled(Signal::Terminate),
        ),
        action_for(l, Event::Signalled(Signal::Interrupt)) == action_for(
            l,
            Event::Signalled(Signal::Terminate),
        ),
{
}

/// After a signal the server no longer serves, and it never serves again:
/// whatever happens next, no request is accepted.
pub proof fn law_no_accept_after_signal(l: Lifecycle, signal: Signal, later: Event)
    ensures
        next_state(l, Event::Signalled(signal)).phase != Phase::Serving,
        l.phase != Phase::Serving ==> next_state(l, later).phase != Phase::Serving && action_for(
            l,
            later,
        ) != Action::Accept,
{
}

/// The server exits only when nothing is left in flight, and a request in
/// flight when the signal arrives is waited for.
pub proof fn law_exit_waits_for_requests(l: Lifecycle, event: Event)
    requires
        consistent(l),
    ensures
        consistent(next_state(l, event)),
        action_for(l, event) == Action::Exit ==> next_state(l, event) == (Lifecycle {
            phase: Phase::Stopped,
            in_flight: 0,
        }),
        l.phase == Phase::Serving && l.in_flight > 0 && event is Signalled ==> next_state(l, event)
            == (Lifecycle { phase: Phase::Draining, in_flight: l.in_flight }),
{
}

} // verus!
