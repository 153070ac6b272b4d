//! Types of the controller and the transition function that governs it.
use vstd::prelude::*;

verus! {

/// A change of interaction mode that a caller asks of the controller.
///
/// Visual-state labels are no command: they never touch the interaction
/// state and go straight to publication (see `label_notification`).
#[derive(Clone, Copy, Debug, PartialEq, Eq, Structural)]
pub enum Command {
    /// Stop ignoring pointer events, so that the window accepts input.
    EnableInteraction,
    /// Ignore pointer events again, so that clicks reach what lies beneath.
    DisableInteraction,
}

/// A notification published to the rendering layer.
#[derive(Clone, Debug, PartialEq, Eq)]
pub enum Notification {
    /// The committed interaction mode, as a level signal.
    InteractionMode(bool),
    /// An opaque visual-state label.
    OverlayState(String),
}

/// Why an operation failed.
#[derive(Clone, Debug, PartialEq, Eq)]
pub enum OverlayError {
    /// The window attribute driver rejected the change; its text, verbatim.
    Driver(String),
    /// Publishing the notification failed, after the state was committed.
    Notification(String),
    /// An event that does not answer the step in progress, or a new command
    /// while another one is still in progress.
    OutOfTurn,
}

impl OverlayError {
    /// The text handed to a caller: a driver's or channel's text verbatim.
    pub open spec fn text(self) -> Seq<char> {
        match self {
            OverlayError::Driver(msg) => msg@,
            OverlayError::Notification(msg) => msg@,
            OverlayError::OutOfTurn => "another interaction change is in progress"@,
        }
    }

    /// The error as a descriptive string, fit for display.
    pub fn message(&self) -> (r: String)
        ensures
            r@ == self.text(),
    {
        match self {
            OverlayError::Driver(msg) => msg.clone(),
            OverlayError::Notification(msg) => msg.clone(),
            OverlayError::OutOfTurn => "another interaction change is in progress".to_owned(),
        }
    }
}

impl Notification {
    /// The name of the event under which the rendering layer receives it.
    pub open spec fn channel_spec(self) -> Seq<char> {
        match self {
            Notification::InteractionMode(_) => "interaction-mode"@,
            Notification::OverlayState(_) => "overlay-state"@,
        }
    }

    /// The name of the event under which the rendering layer receives it.
    pub fn channel(&self) -> (r: &'static str)
        ensures
            r@ == self.channel_spec(),
    {
        match self {
            Notification::InteractionMode(_) => "interaction-mode",
            Notification::OverlayState(_) => "overlay-state",
        }
    }
}

/// Where the controller stands within one operation.
#[derive(Clone, Copy, Debug, PartialEq, Eq, Structural)]
pub enum Phase {
    /// No operation in progress.
    Idle,
    /// The driver was asked to enter the mode held here (`true`: interactive).
    AwaitingDriver(bool),
    /// The new mode was committed and its notification handed out.
    AwaitingPublish,
}

/// What the host reports back to the controller.
#[derive(Debug, PartialEq, Eq)]
pub enum Event {
    /// A caller invoked a command.
    Invoke(Command),
    /// The driver's answer to `Action::ApplyClickThrough`.
    DriverReturned(Result<(), String>),
    /// The answer of the notification channel to `Action::Publish`.
    PublishReturned(Result<(), String>),
}

/// What the controller asks the host to do next.
#[derive(Debug, PartialEq, Eq)]
pub enum Action {
    /// Set the window's click-through (ignore pointer events) to this value.
    ApplyClickThrough(bool),
    /// Publish this notification.
    Publish(Notification),
    /// The operation is over: hand this result to the caller.
    Reply(Result<(), OverlayError>),
}

/// The controller's whole state.
#[derive(Clone, Copy, Debug, PartialEq, Eq, Structural)]
pub struct InteractionState {
    /// The committed interaction mode.
    pub interactive: bool,
    /// The click-through setting that the driver last applied successfully.
    pub click_through: bool,
    /// The step of the operation in progress.
    pub phase: Phase,
}

impl InteractionState {
    /// Right after startup: click-through, with the driver's setting applied
    /// during setup, and no operation in progress.
    pub open spec fn initial() -> InteractionState {
        InteractionState { interactive: false, click_through: true, phase: Phase::Idle }
    }

    /// The committed mode never claims what the driver did not apply.
    pub open spec fn consistent(self) -> bool {
        self.interactive == !self.click_through
    }
}

/// A reply that ends the operation in an error, leaving the state as it was
/// but for the phase.
pub open spec fn refuse(s: InteractionState, e: OverlayError) -> (InteractionState, Action) {
    (InteractionState { phase: Phase::Idle, ..s }, Action::Reply(Err(e)))
}

/// One transition: the state after event `e`, and the action asked for.
pub open spec fn next(s: InteractionState, e: Event) -> (InteractionState, Action) {
    match e {
        Event::Invoke(cmd) => {
            if s.phase is Idle {
                match cmd {
                    Command::EnableInteraction => (
                        InteractionState { phase: Phase::AwaitingDriver(true), ..s },
                        Action::ApplyClickThrough(false),
                    ),
                    Command::DisableInteraction => (
                        InteractionState { phase: Phase::AwaitingDriver(false), ..s },
                        Action::ApplyClickThrough(true),
                    ),
                }
            } else {
                (s, Action::Reply(Err(OverlayError::OutOfTurn)))
            }
        },
        Event::DriverReturned(r) => match s.phase {
            Phase::AwaitingDriver(target) => match r {
                Ok(()) => (
                    InteractionState {
                        interactive: target,
                        click_through: !target,
                        phase: Phase::AwaitingPublish,
                    },
                    Action::Publish(Notification::InteractionMode(target)),
                ),
                Err(msg) => refuse(s, OverlayError::Driver(msg)),
            },
            _ => (s, Action::Reply(Err(OverlayError::OutOfTurn))),
        },
        Event::PublishReturned(r) => {
            if s.phase is AwaitingPublish {
                match r {
                    Ok(()) => (InteractionState { phase: Phase::Idle, ..s }, Action::Reply(Ok(()))),
                    Err(msg) => refuse(s, OverlayError::Notification(msg)),
                }
            } else {
                (s, Action::Reply(Err(OverlayError::OutOfTurn)))
            }
        },
    }
}

/// The state and the actions after a whole sequence of events.
pub open spec fn run(s: InteractionState, evs: Seq<Event>) -> (InteractionState, Seq<Action>)
    decreases evs.len(),
{
    if evs.len() == 0 {
        (s, Seq::empty())
    } else {
        let (s1, a) = next(s, evs[0]);
        let (s2, rest) = run(s1, evs.drop_first());
        (s2, seq![a] + rest)
    }
}

/// One whole operation as a caller sees it: the command, and what the driver
/// and the notification channel answer when they are asked.
pub ghost struct Attempt {
    pub command: Command,
    pub driver: Result<(), String>,
    pub publish: Result<(), String>,
}

/// The events that a host feeds for one operation: it answers each
/// `ApplyClickThrough` with the driver's result and each `Publish` with the
/// channel's, and stops at the `Reply`.
pub open spec fn script(a: Attempt) -> Seq<Event> {
    if a.driver is Ok {
        seq![
            Event::Invoke(a.command),
            Event::DriverReturned(a.driver),
            Event::PublishReturned(a.publish),
        ]
    } else {
        seq![Event::Invoke(a.command), Event::DriverReturned(a.driver)]
    }
}

/// The state and the actions after one whole operation.
pub open spec fn perform(s: InteractionState, a: Attempt) -> (InteractionState, Seq<Action>) {
    run(s, script(a))
}

/// The state after a sequence of whole operations, in order.
pub open spec fn settle(s: InteractionState, ops: Seq<Attempt>) -> InteractionState
    decreases ops.len(),
{
    if ops.len() == 0 {
        s
    } else {
        perform(settle(s, ops.drop_last()), ops.last()).0
    }
}

/// The notifications among a sequence of actions, in order.
pub open spec fn published(acts: Seq<Action>) -> Seq<Notification>
    decreases acts.len(),
{
    if acts.len() == 0 {
        Seq::empty()
    } else {
        let first = match acts[0] {
            Action::Publish(n) => seq![n],
            _ => Seq::empty(),
        };
        first + published(acts.drop_first())
    }
}

/// The reply that the channel's answer leads to once a notification is out.
pub open spec fn reply_after_publish(p: Result<(), String>) -> Result<(), OverlayError> {
    match p {
        Ok(()) => Ok(()),
        Err(msg) => Err(OverlayError::Notification(msg)),
    }
}

/// The notification for a visual-state label.
pub open spec fn label_of(label: String) -> Notification {
    Notification::OverlayState(label)
}

/// The notification for a visual-state label: the label, passed through.
/// Publishing it needs no controller and reads no interaction state.
pub fn label_notification(label: String) -> (n: Notification)
    ensures
        n == label_of(label),
{
    Notification::OverlayState(label)
}

/// The caller's result once a notification has been handed to the channel.
pub fn publish_reply(p: Result<(), String>) -> (r: Result<(), OverlayError>)
    ensures
        r == reply_after_publish(p),
{
    match p {
        Ok(()) => Ok(()),
        Err(msg) => Err(OverlayError::Notification(msg)),
    }
}

} // verus!
