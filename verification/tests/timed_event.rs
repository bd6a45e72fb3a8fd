use input_flow::timed_event::{
    TimedEvent, TimedLongClickError, TimedLongPressEventKind, TimedMultiClickError,
    TimedMultiClickEventKind, TimedPressError, TimedReleaseError, TimedReleaseEventKind,
    TimedState,
};

#[test]
fn single_click_then_exact_click() {
    let state = TimedState::<u64>::new();
    let (state, pressed) = state.with_press_event(7);
    assert!(pressed.is_ok());
    let (state, released) = state.with_release_event(7);
    let (event, request) = released.unwrap().unwrap();
    assert_eq!(event, TimedEvent { kind: TimedReleaseEventKind::Click, num_clicks: 1 });
    let (state, exact) = state.with_multi_click_event(7, request);
    assert_eq!(
        exact,
        Some(Ok(TimedEvent { kind: TimedMultiClickEventKind::ClickExact, num_clicks: 1 }))
    );
    // The switch is forgotten: the next press starts a new sequence.
    let (state, _) = state.with_press_event(7);
    let (_, released) = state.with_release_event(7);
    assert_eq!(released.unwrap().unwrap().0.num_clicks, 1);
}

#[test]
fn double_click_counts_two() {
    let state = TimedState::<u64>::new();
    let (state, _) = state.with_press_event(1);
    let (state, first) = state.with_release_event(1);
    assert_eq!(first.unwrap().unwrap().0.num_clicks, 1);
    let (state, _) = state.with_press_event(1);
    let (state, second) = state.with_release_event(1);
    let (event, request) = second.unwrap().unwrap();
    assert_eq!(event, TimedEvent { kind: TimedReleaseEventKind::Click, num_clicks: 2 });
    let (_, exact) = state.with_multi_click_event(1, request);
    assert_eq!(
        exact,
        Some(Ok(TimedEvent { kind: TimedMultiClickEventKind::ClickExact, num_clicks: 2 }))
    );
}

#[test]
fn long_press_then_long_click() {
    let state = TimedState::<u64>::new();
    let (state, pressed) = state.with_press_event(3);
    let request = pressed.unwrap();
    let (state, long) = state.with_long_press_event(3, request);
    assert_eq!(
        long,
        Some(Ok(TimedEvent { kind: TimedLongPressEventKind::LongPress, num_clicks: 0 }))
    );
    let (state, released) = state.with_release_event(3);
    let (event, request) = released.unwrap().unwrap();
    assert_eq!(event, TimedEvent { kind: TimedReleaseEventKind::LongClick, num_clicks: 1 });
    let (_, exact) = state.with_multi_click_event(3, request);
    assert_eq!(
        exact,
        Some(Ok(TimedEvent { kind: TimedMultiClickEventKind::LongClickExact, num_clicks: 1 }))
    );
}

#[test]
fn stale_requests_are_ignored() {
    let state = TimedState::<u64>::new();
    let (state, pressed) = state.with_press_event(5);
    let stale_long_press = pressed.unwrap();
    assert!(stale_long_press.is_live());
    let (state, released) = state.with_release_event(5);
    let (_, stale_multi_click) = released.unwrap().unwrap();
    assert!(!stale_long_press.is_live());
    let (state, _) = state.with_press_event(5);
    assert!(!stale_multi_click.is_live());
    let (state, long) = state.with_long_press_event(5, stale_long_press);
    assert!(long.is_none());
    let (state, exact) = state.with_multi_click_event(5, stale_multi_click);
    assert!(exact.is_none());
    // The switch is still pressed after the stale timeouts.
    let (_, again) = state.with_press_event(5);
    assert_eq!(again.err(), Some(TimedPressError::AlreadyPressed));
}

#[test]
fn refused_events_report_errors() {
    let state = TimedState::<u64>::new();
    let (state, first) = state.with_press_event(1);
    let request = first.unwrap();
    let (state, second) = state.with_press_event(1);
    assert_eq!(second.err(), Some(TimedPressError::AlreadyPressed));

    let (state, long) = state.with_long_press_event(1, request);
    assert!(matches!(long, Some(Ok(_))));
    let (state, pressed) = state.with_press_event(1);
    assert_eq!(pressed.err(), Some(TimedPressError::AlreadyLongPressed));

    let (state, released) = state.with_release_event(1);
    let (_, multi) = released.unwrap().unwrap();
    let (state, twice) = state.with_release_event(1);
    assert_eq!(twice.err(), Some(TimedReleaseError::AlreadyLongReleased));
    drop(multi);

    // A short click sequence refuses a second release as well.
    let (state, _) = state.with_press_event(2);
    let (state, _) = state.with_release_event(2);
    let (state, twice) = state.with_release_event(2);
    assert_eq!(twice.err(), Some(TimedReleaseError::AlreadyReleased));

    // A release of a switch in no click sequence is ignored.
    let (state, ignored) = state.with_release_event(9);
    assert!(matches!(ignored, Ok(None)));

    // A live long-press request for a switch that is not tracked.
    let (state, pressed) = state.with_press_event(4);
    let request4 = pressed.unwrap();
    let (state, wrong) = state.with_long_press_event(8, request4);
    assert_eq!(wrong, Some(Err(TimedLongClickError::Default)));

    // A press after a release continues the click sequence.
    let (state, pressed) = state.with_press_event(6);
    drop(pressed);
    let (state, _) = state.with_release_event(6);
    let (state, again) = state.with_press_event(6);
    assert!(again.is_ok());
    let (_, released) = state.with_release_event(6);
    assert_eq!(released.unwrap().unwrap().0.num_clicks, 2);
}

#[test]
fn long_press_timeout_of_released_switch_is_refused() {
    let state = TimedState::<u64>::new();
    let (state, pressed) = state.with_press_event(1);
    let request = pressed.unwrap();
    let (state, long) = state.with_long_press_event(1, request);
    assert!(matches!(long, Some(Ok(_))));
    let (state, pressed) = state.with_press_event(2);
    let request2 = pressed.unwrap();
    let (state, _) = state.with_release_event(1);
    let (_, refused) = state.with_long_press_timeout(1, request2.is_live());
    assert_eq!(refused, Some(Err(TimedLongClickError::LongReleased)));
}

#[test]
fn multi_click_timeout_errors() {
    let state = TimedState::<u64>::new();
    let (state, _) = state.with_press_event(1);
    let (state, refused) = state.with_multi_click_timeout(1, true);
    assert_eq!(refused, Some(Err(TimedMultiClickError::Pressed)));
    let (state, untracked) = state.with_multi_click_timeout(2, true);
    assert_eq!(untracked, Some(Err(TimedMultiClickError::Default)));
    let (_, stale) = state.with_multi_click_timeout(1, false);
    assert_eq!(stale, None);
}
