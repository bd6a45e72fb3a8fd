use input_flow::timed::{
    Action, DelayedTimedEvent, DelayedTimedEventError, DelayedTimedEventKind, Duration,
    EventWithAction, TimedEvent, TimedEventKind, TimedInputDisableError, TimedInputEnableError,
    TimedInputError, TimedState,
};

#[derive(Clone, Copy, Debug, PartialEq)]
struct SwitchInput {
    action: Option<Action<u64>>,
}

impl EventWithAction for SwitchInput {
    type Switch = u64;

    fn action(&self) -> Option<Action<u64>> {
        self.action
    }
}

fn press(switch: u64) -> SwitchInput {
    SwitchInput { action: Some(Action::Enable(switch)) }
}

fn release(switch: u64) -> SwitchInput {
    SwitchInput { action: Some(Action::Disable(switch)) }
}

#[test]
fn timed_double_click_then_exact() {
    let state = TimedState::<u64>::new();
    let t = state.with_event(press(1)).ok().unwrap();
    assert!(t.timed_event.is_none());
    assert_eq!(t.scheduled.as_ref().unwrap().duration, Duration::LongClick);
    let t = t.state.with_event(release(1)).ok().unwrap();
    assert_eq!(t.timed_event, Some(TimedEvent::new(1, TimedEventKind::Click, 1)));
    assert_eq!(t.scheduled.as_ref().unwrap().duration, Duration::MultiClick);
    let t = t.state.with_event(press(1)).ok().unwrap();
    let t = t.state.with_event(release(1)).ok().unwrap();
    assert_eq!(t.event, release(1));
    assert_eq!(t.timed_event, Some(TimedEvent::new(1, TimedEventKind::Click, 2)));
    let timeout = t.scheduled.unwrap();
    let d = t.state.with_timeout_event(timeout.transition).ok().unwrap();
    assert_eq!(
        d.timed_event,
        Some(DelayedTimedEvent::new(1, DelayedTimedEventKind::ClickExact, 2))
    );
    assert!(d.scheduled.is_none());
    // The switch is forgotten: a timeout for it now finds the default state.
    let t = d.state.with_event(press(1)).ok().unwrap();
    let long = t.scheduled.unwrap();
    let t2 = t.state.with_event(release(1)).ok().unwrap();
    let exact = t2.scheduled.unwrap();
    let d = t2.state.with_timeout_event(exact.transition).ok().unwrap();
    let err = d.state.with_timeout_event(long.transition).err().unwrap();
    assert_eq!(err.error, DelayedTimedEventError::DefaultButtonState { switch: 1 });
}

#[test]
fn timed_long_press_then_long_click() {
    let state = TimedState::<u64>::new();
    let t = state.with_event(press(2)).ok().unwrap();
    let long = t.scheduled.unwrap();
    let d = t.state.with_timeout_event(long.transition.clone()).ok().unwrap();
    assert_eq!(
        d.timed_event,
        Some(DelayedTimedEvent::new(2, DelayedTimedEventKind::LongPress, 0))
    );
    assert!(d.scheduled.is_none());
    let err = d.state.with_timeout_event(long.transition).err().unwrap();
    assert_eq!(err.error, DelayedTimedEventError::LongPressed { switch: 2 });
    let t = err.state.with_event(release(2)).ok().unwrap();
    assert!(t.timed_event.is_none());
    let exact = t.scheduled.unwrap();
    let d = t.state.with_timeout_event(exact.transition).ok().unwrap();
    assert_eq!(
        d.timed_event,
        Some(DelayedTimedEvent::new(2, DelayedTimedEventKind::LongClickExact, 1))
    );
}

#[test]
fn timed_refusals_keep_the_state() {
    let state = TimedState::<u64>::new();
    let t = state.with_event(press(3)).ok().unwrap();
    let err = t.state.with_event(press(3)).err().unwrap();
    assert_eq!(
        err.error,
        TimedInputError::Enable(TimedInputEnableError::AlreadyPressed { switch: 3 })
    );
    let t = err.state.with_event(release(3)).ok().unwrap();
    let err = t.state.with_event(release(3)).err().unwrap();
    assert_eq!(
        err.error,
        TimedInputError::Disable(TimedInputDisableError::AlreadyReleased { switch: 3 })
    );
    // An event without an action passes through unchanged.
    let none = SwitchInput { action: None };
    let t = err.state.with_event(none).ok().unwrap();
    assert_eq!(t.event, none);
    assert!(t.timed_event.is_none() && t.scheduled.is_none());
    // A release of a switch in no click sequence is accepted and ignored.
    let t = t.state.with_event(release(9)).ok().unwrap();
    assert!(t.timed_event.is_none() && t.scheduled.is_none());
}

#[test]
fn timed_long_pressed_switch_refuses_press() {
    let state = TimedState::<u64>::new();
    let t = state.with_event(press(4)).ok().unwrap();
    let long = t.scheduled.unwrap();
    let d = t.state.with_timeout_event(long.transition).ok().unwrap();
    let err = d.state.with_event(press(4)).err().unwrap();
    assert_eq!(
        err.error,
        TimedInputError::Enable(TimedInputEnableError::AlreadyLongPressed { switch: 4 })
    );
    let t = err.state.with_event(release(4)).ok().unwrap();
    let err = t.state.with_event(release(4)).err().unwrap();
    assert_eq!(
        err.error,
        TimedInputError::Disable(TimedInputDisableError::AlreadyLongPressed { switch: 4 })
    );
}

#[derive(Clone, Debug, PartialEq)]
struct NamedInput {
    action: Option<Action<String>>,
}

impl EventWithAction for NamedInput {
    type Switch = String;

    fn action(&self) -> Option<Action<String>> {
        self.action.clone()
    }
}

#[test]
fn timed_string_switches_and_clones() {
    let state = TimedState::<String>::new();
    let t = state
        .with_event(NamedInput { action: Some(Action::Enable("space".to_string())) })
        .ok()
        .unwrap();
    let copy = t.state.clone();
    let t = t.state
        .with_event(NamedInput { action: Some(Action::Disable("space".to_string())) })
        .ok()
        .unwrap();
    assert_eq!(t.timed_event, Some(TimedEvent::new("space".to_string(), TimedEventKind::Click, 1)));
    let again = copy
        .with_event(NamedInput { action: Some(Action::Disable("space".to_string())) })
        .ok()
        .unwrap();
    assert_eq!(again.timed_event, Some(TimedEvent::new("space".to_string(), TimedEventKind::Click, 1)));
}
