use overlay_interaction::controller::OverlayController;
use overlay_interaction::machine::{
    label_notification, publish_reply, Action, Command, Event, InteractionState, Notification,
    OverlayError, Phase,
};

/// Runs one whole operation, answering the driver and the channel as given,
/// and returns every action the controller asked for.
fn perform(
    c: &mut OverlayController,
    cmd: Command,
    driver: Result<(), String>,
    publish: Result<(), String>,
) -> Vec<Action> {
    let mut actions = Vec::new();
    let mut action = c.step(Event::Invoke(cmd));
    loop {
        let event = match &action {
            Action::ApplyClickThrough(_) => Event::DriverReturned(driver.clone()),
            Action::Publish(_) => Event::PublishReturned(publish.clone()),
            Action::Reply(_) => {
                actions.push(action);
                return actions;
            }
        };
        actions.push(action);
        action = c.step(event);
    }
}

fn published(actions: &[Action]) -> Vec<Notification> {
    actions
        .iter()
        .filter_map(|a| match a {
            Action::Publish(n) => Some(n.clone()),
            _ => None,
        })
        .collect()
}

fn ok() -> Result<(), String> {
    Ok(())
}

#[test]
fn startup_is_click_through_and_idle() {
    let c = OverlayController::new();
    assert!(!c.is_interactive());
    assert_eq!(
        c.state(),
        InteractionState { interactive: false, click_through: true, phase: Phase::Idle }
    );
}

#[test]
fn enable_then_disable() {
    let mut c = OverlayController::new();
    let acts = perform(&mut c, Command::EnableInteraction, ok(), ok());
    assert_eq!(
        acts,
        vec![
            Action::ApplyClickThrough(false),
            Action::Publish(Notification::InteractionMode(true)),
            Action::Reply(Ok(())),
        ]
    );
    assert!(c.is_interactive());
    assert!(!c.state().click_through);

    let acts = perform(&mut c, Command::DisableInteraction, ok(), ok());
    assert_eq!(
        acts,
        vec![
            Action::ApplyClickThrough(true),
            Action::Publish(Notification::InteractionMode(false)),
            Action::Reply(Ok(())),
        ]
    );
    assert!(!c.is_interactive());
    assert!(c.state().click_through);
}

#[test]
fn mode_follows_most_recent_successful_toggle() {
    let mut c = OverlayController::new();
    let fail = || Err::<(), String>("denied".to_string());
    let plan = vec![
        (Command::EnableInteraction, ok(), true),
        (Command::DisableInteraction, fail(), true),
        (Command::DisableInteraction, ok(), false),
        (Command::EnableInteraction, fail(), false),
        (Command::DisableInteraction, ok(), false),
        (Command::EnableInteraction, ok(), true),
    ];
    for (cmd, driver, expected) in plan {
        perform(&mut c, cmd, driver, ok());
        assert_eq!(c.is_interactive(), expected);
        assert_eq!(c.state().click_through, !expected);
        assert_eq!(c.state().phase, Phase::Idle);
    }
}

#[test]
fn enabling_twice_reapplies_and_republishes() {
    let mut once = OverlayController::new();
    perform(&mut once, Command::EnableInteraction, ok(), ok());

    let mut twice = OverlayController::new();
    let first = perform(&mut twice, Command::EnableInteraction, ok(), ok());
    let second = perform(&mut twice, Command::EnableInteraction, ok(), ok());
    assert_eq!(twice.state(), once.state());
    assert_eq!(first, second);
    assert_eq!(second[0], Action::ApplyClickThrough(false));
    assert_eq!(published(&second), vec![Notification::InteractionMode(true)]);
}

#[test]
fn driver_failure_leaves_state_and_publishes_nothing() {
    let mut c = OverlayController::new();
    let acts = perform(
        &mut c,
        Command::EnableInteraction,
        Err("invalid window handle".to_string()),
        ok(),
    );
    assert!(!c.is_interactive());
    assert_eq!(c.state(), InteractionState { interactive: false, click_through: true, phase: Phase::Idle });
    assert!(published(&acts).is_empty());
    assert_eq!(
        acts.last(),
        Some(&Action::Reply(Err(OverlayError::Driver("invalid window handle".to_string()))))
    );

    perform(&mut c, Command::EnableInteraction, ok(), ok());
    let acts = perform(&mut c, Command::DisableInteraction, Err("rejected".to_string()), ok());
    assert!(c.is_interactive());
    assert!(published(&acts).is_empty());
}

#[test]
fn labels_are_published_in_order_without_touching_mode() {
    let c = OverlayController::new();
    let before = c.state();
    let sent = vec![
        label_notification("listening".to_string()),
        label_notification("thinking".to_string()),
    ];
    assert_eq!(
        sent,
        vec![
            Notification::OverlayState("listening".to_string()),
            Notification::OverlayState("thinking".to_string()),
        ]
    );
    assert_eq!(publish_reply(Ok(())), Ok(()));
    assert_eq!(c.state(), before);
    assert!(!c.is_interactive());
}

#[test]
fn labels_do_not_wait_for_a_pending_toggle() {
    let mut c = OverlayController::new();
    assert_eq!(c.step(Event::Invoke(Command::EnableInteraction)), Action::ApplyClickThrough(false));
    assert_eq!(
        label_notification("speaking".to_string()),
        Notification::OverlayState("speaking".to_string())
    );
    assert_eq!(
        publish_reply(Err("no listener attached".to_string())),
        Err(OverlayError::Notification("no listener attached".to_string()))
    );
    assert_eq!(c.state().phase, Phase::AwaitingDriver(true));
    assert!(!c.is_interactive());
}

#[test]
fn publish_failure_keeps_the_commit() {
    let mut c = OverlayController::new();
    let acts = perform(
        &mut c,
        Command::EnableInteraction,
        ok(),
        Err("no listener attached".to_string()),
    );
    assert!(c.is_interactive());
    assert_eq!(
        acts.last(),
        Some(&Action::Reply(Err(OverlayError::Notification("no listener attached".to_string()))))
    );
}

#[test]
fn events_out_of_turn_are_refused() {
    let mut c = OverlayController::new();
    assert_eq!(
        c.step(Event::DriverReturned(Ok(()))),
        Action::Reply(Err(OverlayError::OutOfTurn))
    );
    assert_eq!(c.state().phase, Phase::Idle);

    assert_eq!(c.step(Event::Invoke(Command::EnableInteraction)), Action::ApplyClickThrough(false));
    // a second caller arrives before the first toggle is committed
    assert_eq!(
        c.step(Event::Invoke(Command::DisableInteraction)),
        Action::Reply(Err(OverlayError::OutOfTurn))
    );
    assert_eq!(
        c.step(Event::PublishReturned(Ok(()))),
        Action::Reply(Err(OverlayError::OutOfTurn))
    );
    assert!(!c.is_interactive());
    assert_eq!(c.state().phase, Phase::AwaitingDriver(true));

    assert_eq!(
        c.step(Event::DriverReturned(Ok(()))),
        Action::Publish(Notification::InteractionMode(true))
    );
    assert!(c.is_interactive());
    assert_eq!(c.step(Event::PublishReturned(Ok(()))), Action::Reply(Ok(())));
    assert!(c.is_interactive());
    assert_eq!(c.state().phase, Phase::Idle);
}

#[test]
fn alternating_callers_stay_consistent() {
    let mut c = OverlayController::new();
    for i in 0..40u32 {
        let cmd = if i % 2 == 0 { Command::EnableInteraction } else { Command::DisableInteraction };
        let driver = if i % 7 == 3 { Err(format!("failure {}", i)) } else { ok() };
        let before = c.is_interactive();
        let acts = perform(&mut c, cmd.clone(), driver.clone(), ok());
        let expected = match (&cmd, &driver) {
            (Command::EnableInteraction, Ok(())) => true,
            (Command::DisableInteraction, Ok(())) => false,
            _ => before,
        };
        assert_eq!(c.is_interactive(), expected);
        assert_eq!(c.state().click_through, !c.is_interactive());
        if driver.is_err() {
            assert!(published(&acts).is_empty());
        }
    }
}

#[test]
fn error_messages_are_descriptive() {
    assert_eq!(OverlayError::Driver("bad handle".to_string()).message(), "bad handle");
    assert_eq!(OverlayError::Notification("closed".to_string()).message(), "closed");
    assert_eq!(
        OverlayError::OutOfTurn.message(),
        "another interaction change is in progress"
    );
}

#[test]
fn notification_channel_names() {
    assert_eq!(Notification::InteractionMode(true).channel(), "interaction-mode");
    assert_eq!(Notification::OverlayState("x".to_string()).channel(), "overlay-state");
}
