//! Properties of the controller, proved once for every input.
use vstd::prelude::*;
use crate::machine::{
    label_of, next, perform, published, reply_after_publish, run, script, settle, Action, Attempt,
    Command,
    Event, InteractionState, Notification, OverlayError, Phase,
};

verus! {

/// Every transition keeps the committed mode in agreement with the
/// click-through setting that the driver last applied.
pub proof fn lemma_next_keeps_consistent(s: InteractionState, e: Event)
    requires
        s.consistent(),
    ensures
        next(s, e).0.consistent(),
{
}

/// The committed mode and the recorded click-through setting change only on a
/// successful driver answer to a pending toggle, and then both at once.
pub proof fn lemma_commit_only_on_driver_success(s: InteractionState, e: Event)
    ensures
        (next(s, e).0.interactive != s.interactive || next(s, e).0.click_through
            != s.click_through) ==> (s.phase is AwaitingDriver && e matches Event::DriverReturned(Ok(_))),
{
}

/// Whatever events arrive, in whatever order the mutual exclusion lets them
/// through, the committed mode never disagrees with the driver's last applied
/// setting.
pub proof fn lemma_run_keeps_consistent(s: InteractionState, evs: Seq<Event>)
    requires
        s.consistent(),
    ensures
        run(s, evs).0.consistent(),
    decreases evs.len(),
{
    if evs.len() > 0 {
        lemma_run_keeps_consistent(next(s, evs[0]).0, evs.drop_first());
    }
}

/// The actions of one toggle, from an idle state: the driver call, then, on
/// success only, the commit and the notification.
pub proof fn lemma_perform(s: InteractionState, a: Attempt)
    requires
        s.phase is Idle,
    ensures
        perform(s, a) == ({
            let target = a.command is EnableInteraction;
            match a.driver {
                Ok(()) => (
                    InteractionState { interactive: target, click_through: !target, phase: Phase::Idle },
                    seq![
                        Action::ApplyClickThrough(!target),
                        Action::Publish(Notification::InteractionMode(target)),
                        Action::Reply(reply_after_publish(a.publish)),
                    ],
                ),
                Err(msg) => (
                    s,
                    seq![
                        Action::ApplyClickThrough(!target),
                        Action::Reply(Err(OverlayError::Driver(msg))),
                    ],
                ),
            }
        }),
{
    reveal_with_fuel(run, 4);
    let evs = script(a);
    assert(evs.drop_first().drop_first() =~= evs.subrange(2, evs.len() as int));
    assert(evs.drop_first() =~= evs.subrange(1, evs.len() as int));
    let (s1, a1) = next(s, evs[0]);
    let (s2, a2) = next(s1, evs[1]);
    assert(run(s2, evs.subrange(2, evs.len() as int)).0 == perform(s, a).0);
}

/// The mode that a sequence of whole operations leaves: the target of the last
/// toggle that the driver carried out, or `before` if none was.
pub open spec fn mode_after(before: bool, ops: Seq<Attempt>) -> bool
    decreases ops.len(),
{
    if ops.len() == 0 {
        before
    } else {
        let a = ops.last();
        match a.command {
            _ if a.driver is Err => mode_after(before, ops.drop_last()),
            Command::EnableInteraction => true,
            Command::DisableInteraction => false,
        }
    }
}

/// After any sequence of operations the controller is interactive exactly
/// when the most recent successful toggle was an enable; failed toggles leave
/// the mode alone, and the controller is idle again.
pub proof fn lemma_mode_follows_last_success(s: InteractionState, ops: Seq<Attempt>)
    requires
        s.phase is Idle,
        s.consistent(),
    ensures
        settle(s, ops) == (InteractionState {
            interactive: mode_after(s.interactive, ops),
            click_through: !mode_after(s.interactive, ops),
            phase: Phase::Idle,
        }),
    decreases ops.len(),
{
    if ops.len() > 0 {
        lemma_mode_follows_last_success(s, ops.drop_last());
        lemma_perform(settle(s, ops.drop_last()), ops.last());
    }
}

/// From startup, the mode after any sequence of operations is that of the
/// last successful toggle, and click-through when there was none.
pub proof fn lemma_from_startup(ops: Seq<Attempt>)
    ensures
        settle(InteractionState::initial(), ops).interactive == mode_after(false, ops),
        settle(InteractionState::initial(), ops).click_through == !mode_after(false, ops),
{
    lemma_mode_follows_last_success(InteractionState::initial(), ops);
}

/// Enabling twice in a row leaves the state that enabling once leaves; the
/// second time the driver call is made again and the notification published
/// again.
pub proof fn lemma_enable_twice(s: InteractionState, first: Attempt, second: Attempt)
    requires
        s.phase is Idle,
        first.command == Command::EnableInteraction,
        second.command == Command::EnableInteraction,
        first.driver is Ok,
        second.driver is Ok,
    ensures
        perform(perform(s, first).0, second).0 == perform(s, first).0,
        perform(s, first).1 == seq![
            Action::ApplyClickThrough(false),
            Action::Publish(Notification::InteractionMode(true)),
            Action::Reply(reply_after_publish(first.publish)),
        ],
        perform(perform(s, first).0, second).1 == seq![
            Action::ApplyClickThrough(false),
            Action::Publish(Notification::InteractionMode(true)),
            Action::Reply(reply_after_publish(second.publish)),
        ],
{
    lemma_perform(s, first);
    lemma_perform(perform(s, first).0, second);
}

/// A toggle that the driver refuses leaves the state exactly as it was,
/// publishes nothing, and hands the driver's text to the caller.
pub proof fn lemma_driver_failure_changes_nothing(s: InteractionState, a: Attempt, msg: String)
    requires
        s.phase is Idle,
        a.driver == Err::<(), String>(msg),
    ensures
        perform(s, a).0 == s,
        published(perform(s, a).1) == Seq::<Notification>::empty(),
        perform(s, a).1.last() == Action::Reply(Err(OverlayError::Driver(msg))),
{
    lemma_perform(s, a);
    reveal_with_fuel(published, 3);
    let acts = perform(s, a).1;
    assert(acts.drop_first().drop_first() =~= Seq::<Action>::empty());
    assert(published(acts.drop_first()) =~= Seq::<Notification>::empty());
}

/// Two labels in a row give exactly two notifications, in call order. Neither
/// call takes the controller, so the interaction state is left as it was.
pub proof fn lemma_labels_in_order(first: String, second: String)
    ensures
        seq![label_of(first), label_of(second)] == seq![
            Notification::OverlayState(first),
            Notification::OverlayState(second),
        ],
{
}

} // verus!
