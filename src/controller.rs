//! The controller: sole owner of the interaction state.
use vstd::prelude::*;
use crate::machine::{
    next, publish_reply, Action, Command, Event, InteractionState, Notification, OverlayError,
    Phase,
};
use crate::laws::lemma_next_keeps_consistent;

verus! {

/// Owns the interaction state and applies `next` to it, one event at a time.
///
/// Every mutation goes through `&mut self`, so a host that shares the
/// controller behind a mutex serialises whole operations: the driver call and
/// the commit of one toggle cannot interleave with another's.
pub struct OverlayController {
    state: InteractionState,
}

impl View for OverlayController {
    type V = InteractionState;

    closed spec fn view(&self) -> InteractionState {
        self.state
    }
}

impl OverlayController {
    #[verifier::type_invariant]
    closed spec fn inv(self) -> bool {
        self.state.consistent()
    }

    /// A controller in the startup state: click-through, idle.
    pub fn new() -> (r: OverlayController)
        ensures
            r@ == InteractionState::initial(),
    {
        OverlayController {
            state: InteractionState { interactive: false, click_through: true, phase: Phase::Idle },
        }
    }

    /// The committed interaction mode. A pure read.
    pub fn is_interactive(&self) -> (r: bool)
        ensures
            r == self@.interactive,
            r == !self@.click_through,
    {
        proof {
            use_type_invariant(self);
        }
        self.state.interactive
    }

    /// The whole state, for inspection.
    pub fn state(&self) -> (r: InteractionState)
        ensures
            r == self@,
            r.consistent(),
    {
        proof {
            use_type_invariant(self);
        }
        self.state
    }

    /// Takes one event and returns the action that the host must perform next.
    pub fn step(&mut self, e: Event) -> (a: Action)
        ensures
            (final(self)@, a) == next(old(self)@, e),
            final(self)@.consistent(),
    {
        proof {
            use_type_invariant(&*self);
            lemma_next_keeps_consistent(self@, e);
        }
        let s = self.state;
        let out_of_turn = Action::Reply(Err(OverlayError::OutOfTurn));
        match e {
            Event::Invoke(cmd) => match s.phase {
                Phase::Idle => match cmd {
                    Command::EnableInteraction => {
                        self.state = InteractionState { phase: Phase::AwaitingDriver(true), ..s };
                        Action::ApplyClickThrough(false)
                    },
                    Command::DisableInteraction => {
                        self.state = InteractionState { phase: Phase::AwaitingDriver(false), ..s };
                        Action::ApplyClickThrough(true)
                    },
                },
                _ => out_of_turn,
            },
            Event::DriverReturned(r) => match s.phase {
                Phase::AwaitingDriver(target) => match r {
                    Ok(()) => {
                        self.state = InteractionState {
                            interactive: target,
                            click_through: !target,
                            phase: Phase::AwaitingPublish,
                        };
                        Action::Publish(Notification::InteractionMode(target))
                    },
                    Err(msg) => {
                        self.state = InteractionState { phase: Phase::Idle, ..s };
                        Action::Reply(Err(OverlayError::Driver(msg)))
                    },
                },
                _ => out_of_turn,
            },
            Event::PublishReturned(r) => match s.phase {
                Phase::AwaitingPublish => {
                    self.state = InteractionState { phase: Phase::Idle, ..s };
                    Action::Reply(publish_reply(r))
                },
                _ => out_of_turn,
            },
        }
    }
}

} // verus!
