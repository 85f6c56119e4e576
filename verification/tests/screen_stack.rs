use screen_stack::dispatch::{Dispatch, DispatchError};
use screen_stack::event::{Event, Signal, ADVANCE_KEY};
use screen_stack::screen::{GameplayScreen, PauseScreen, Screens, TitleScreen};
use screen_stack::stack::ScreenStack;

fn registered_dispatch() -> Dispatch {
    let mut dispatch = Dispatch::new();
    dispatch
        .register_custom_event(Signal::PushGameplayScreen)
        .expect("Already registered that event");
    dispatch
        .register_custom_event(Signal::PopCurrentScreen)
        .expect("Already registered that event");
    dispatch
}

/// Feed one event into the stack, then drain every queued signal back into
/// the stack within the same pass, as the owning loop does each frame.
fn pump(stack: &mut ScreenStack, event: &Event, dispatch: &mut Dispatch) {
    assert!(stack.process_event(event, dispatch));
    while let Some(signal) = dispatch.poll() {
        assert!(stack.process_event(&Event::User { signal }, dispatch));
    }
}

#[test]
fn initial_stack_is_single_title() {
    let stack = ScreenStack::new();
    assert_eq!(stack.screens.len(), 1);
    assert_eq!(
        stack.screens[0],
        Screens::Title(TitleScreen { ticks: 0, events: 0 })
    );
}

#[test]
fn register_twice_is_rejected() {
    let mut dispatch = Dispatch::new();
    assert_eq!(
        dispatch.register_custom_event(Signal::PushGameplayScreen),
        Ok(())
    );
    assert_eq!(
        dispatch.register_custom_event(Signal::PushGameplayScreen),
        Err(DispatchError::AlreadyRegistered)
    );
    // The rejection happens at registration time and leaves the first
    // registration standing: publishing still works.
    assert_eq!(
        dispatch.push_custom_event(Signal::PushGameplayScreen),
        Ok(())
    );
}

#[test]
fn register_twice_is_rejected_for_pop_too() {
    let mut dispatch = Dispatch::new();
    assert_eq!(
        dispatch.register_custom_event(Signal::PopCurrentScreen),
        Ok(())
    );
    assert_eq!(
        dispatch.register_custom_event(Signal::PopCurrentScreen),
        Err(DispatchError::AlreadyRegistered)
    );
}

#[test]
fn publish_unregistered_is_rejected() {
    let mut dispatch = Dispatch::new();
    assert_eq!(
        dispatch.push_custom_event(Signal::PushGameplayScreen),
        Err(DispatchError::NotRegistered)
    );
    assert_eq!(
        dispatch.push_custom_event(Signal::PopCurrentScreen),
        Err(DispatchError::NotRegistered)
    );
    assert_eq!(dispatch.poll(), None);
}

#[test]
fn queue_is_drained_in_publish_order() {
    let mut dispatch = registered_dispatch();
    dispatch
        .push_custom_event(Signal::PushGameplayScreen)
        .unwrap();
    dispatch
        .push_custom_event(Signal::PopCurrentScreen)
        .unwrap();
    assert_eq!(dispatch.poll(), Some(Signal::PushGameplayScreen));
    assert_eq!(dispatch.poll(), Some(Signal::PopCurrentScreen));
    assert_eq!(dispatch.poll(), None);
}

#[test]
fn advance_key_on_title_pushes_gameplay() {
    let mut dispatch = registered_dispatch();
    let mut stack = ScreenStack::new();

    // The title screen consumes the advance key and queues a push signal.
    let mut title = TitleScreen::new();
    assert!(title.process_event(&Event::KeyDown { key: ADVANCE_KEY }, &mut dispatch));
    assert_eq!(dispatch.poll(), Some(Signal::PushGameplayScreen));

    // Through the stack: after the routing pass, gameplay sits on top and
    // the title screen remains underneath, suspended.
    pump(
        &mut stack,
        &Event::KeyDown { key: ADVANCE_KEY },
        &mut dispatch,
    );
    assert_eq!(stack.screens.len(), 2);
    assert!(matches!(stack.screens[0], Screens::Title(_)));
    assert!(matches!(stack.screens[1], Screens::Gameplay(_)));
}

#[test]
fn advance_key_on_gameplay_pops_back_to_title() {
    let mut dispatch = registered_dispatch();
    let mut stack = ScreenStack::new();
    pump(
        &mut stack,
        &Event::KeyDown { key: ADVANCE_KEY },
        &mut dispatch,
    );
    assert_eq!(stack.screens.len(), 2);

    // The gameplay screen consumes the same key and queues a pop signal;
    // after routing, the title screen is back on top.
    pump(
        &mut stack,
        &Event::KeyDown { key: ADVANCE_KEY },
        &mut dispatch,
    );
    assert_eq!(stack.screens.len(), 1);
    assert!(matches!(stack.screens[0], Screens::Title(_)));

    // The title screen resumes receiving ticks.
    let ticks_before = match stack.screens[0] {
        Screens::Title(t) => t.ticks,
        _ => unreachable!(),
    };
    assert!(!stack.run_tick());
    match stack.screens[0] {
        Screens::Title(t) => assert_eq!(t.ticks, ticks_before + 1),
        _ => unreachable!(),
    }
}

#[test]
fn unrelated_key_is_passed_through_unchanged() {
    let mut dispatch = registered_dispatch();
    let mut stack = ScreenStack::new();

    // At the screen level the event is reported unconsumed.
    let mut title = TitleScreen::new();
    assert!(!title.process_event(&Event::KeyDown { key: ADVANCE_KEY + 1 }, &mut dispatch));
    assert_eq!(dispatch.poll(), None);

    // Through the stack: no signal queued, stack unchanged but for the
    // event count of the top screen.
    assert!(stack.process_event(&Event::KeyDown { key: ADVANCE_KEY + 1 }, &mut dispatch));
    assert_eq!(dispatch.poll(), None);
    assert_eq!(stack.screens.len(), 1);
    assert_eq!(
        stack.screens[0],
        Screens::Title(TitleScreen { ticks: 0, events: 1 })
    );
}

#[test]
fn only_the_top_screen_is_invoked() {
    let mut dispatch = registered_dispatch();
    let mut stack = ScreenStack::new();
    pump(
        &mut stack,
        &Event::KeyDown { key: ADVANCE_KEY },
        &mut dispatch,
    );
    let title_before = stack.screens[0];

    // Ticks and events land on the gameplay screen only; the suspended
    // title screen's counters observe zero further invocations.
    assert!(!stack.run_tick());
    assert!(stack.process_event(&Event::KeyDown { key: ADVANCE_KEY + 3 }, &mut dispatch));
    assert!(stack.process_event(&Event::Other, &mut dispatch));
    assert_eq!(stack.screens[0], title_before);
    assert_eq!(
        stack.screens[1],
        Screens::Gameplay(GameplayScreen { ticks: 1, events: 2 })
    );
}

#[test]
fn stack_size_follows_pushes_and_clamped_pops() {
    let mut dispatch = registered_dispatch();
    let mut stack = ScreenStack::new();
    let signals = [
        Signal::PopCurrentScreen,      // 1 -> 0
        Signal::PopCurrentScreen,      // clamped: still 0
        Signal::PushGameplayScreen,    // 0 -> 1
        Signal::PushGameplayScreen,    // 1 -> 2
        Signal::PushGameplayScreen,    // 2 -> 3
        Signal::PopCurrentScreen,      // 3 -> 2
    ];
    let expected_sizes: [usize; 6] = [0, 0, 1, 2, 3, 2];
    for (signal, expected) in signals.iter().zip(expected_sizes.iter()) {
        assert!(stack.process_event(&Event::User { signal: *signal }, &mut dispatch));
        assert_eq!(stack.screens.len(), *expected);
    }
    // initial 1 + 3 pushes - 2 effective pops (the second pop found the
    // stack empty and removed nothing)
    assert_eq!(stack.screens.len(), 1 + 3 - 2);
}

#[test]
fn pop_on_single_element_stack_empties_it() {
    let mut dispatch = registered_dispatch();
    let mut stack = ScreenStack::new();
    assert!(stack.process_event(
        &Event::User { signal: Signal::PopCurrentScreen },
        &mut dispatch
    ));
    assert_eq!(stack.screens.len(), 0);

    // Subsequent calls on the empty stack are defined no-ops: the tick
    // reports false, the event pass reports true, nothing is published.
    assert!(!stack.run_tick());
    assert!(stack.process_event(&Event::KeyDown { key: ADVANCE_KEY }, &mut dispatch));
    assert_eq!(dispatch.poll(), None);
    assert_eq!(stack.screens.len(), 0);
}

#[test]
fn push_signal_on_empty_stack_creates_gameplay() {
    let mut dispatch = registered_dispatch();
    let mut stack = ScreenStack::new();
    assert!(stack.process_event(
        &Event::User { signal: Signal::PopCurrentScreen },
        &mut dispatch
    ));
    assert!(stack.process_event(
        &Event::User { signal: Signal::PushGameplayScreen },
        &mut dispatch
    ));
    assert_eq!(
        stack.screens,
        vec![Screens::Gameplay(GameplayScreen { ticks: 0, events: 0 })]
    );
}

#[test]
fn ticks_are_not_consumed_by_any_screen() {
    let mut title = TitleScreen::new();
    let mut gameplay = GameplayScreen::new();
    let mut pause = PauseScreen::new();
    assert!(!title.run_tick());
    assert!(!gameplay.run_tick());
    assert!(!pause.run_tick());
    assert_eq!(title.ticks, 1);
    assert_eq!(gameplay.ticks, 1);
    assert_eq!(pause.ticks, 1);
}

#[test]
fn pause_screen_consumes_nothing() {
    let mut pause = PauseScreen::new();
    assert!(!pause.process_event(&Event::KeyDown { key: ADVANCE_KEY }));
    assert!(!pause.process_event(&Event::Other));
    assert_eq!(pause.events, 2);
}

#[test]
fn counters_saturate_at_their_maximum() {
    let mut title = TitleScreen {
        ticks: u64::MAX,
        events: u64::MAX,
    };
    let mut dispatch = registered_dispatch();
    assert!(!title.run_tick());
    assert!(!title.process_event(&Event::Other, &mut dispatch));
    assert_eq!(title.ticks, u64::MAX);
    assert_eq!(title.events, u64::MAX);
}

#[test]
fn user_events_are_not_consumed_by_the_top_screen() {
    let mut dispatch = registered_dispatch();
    let mut title = TitleScreen::new();
    // A signal wrapped as a user event is not the advance key: the screen
    // passes it through (the stack, not the screen, interprets it).
    assert!(!title.process_event(
        &Event::User { signal: Signal::PushGameplayScreen },
        &mut dispatch
    ));
    assert_eq!(dispatch.poll(), None);
}
