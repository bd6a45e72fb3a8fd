use std::sync::Arc;

use input_flow::axis::{Axis, AxisKind};
use input_flow::button::{ButtonKind, MouseButton};
use input_flow::event_with_modifiers::ModifiedState as SwitchModifiers;
use input_flow::keyboard::KeyboardKey;
use input_flow::modified::{ModifiedInput, ModifiedState, TriggerKind};
use input_flow::modifiers::{AxisRange, Modifiers, ModifiersFilter};
use input_flow::raw::RawInput;

fn ctrl() -> ButtonKind {
    ButtonKind::KeyboardKey(KeyboardKey::LeftCtrl)
}

#[test]
fn modifiers_buttons_round_trip() {
    let mut m = Modifiers::new();
    assert!(!m.contains_button(&ctrl()));
    assert!(m.insert_button(ctrl()));
    assert!(!m.insert_button(ctrl()));
    assert!(m.contains_button(&ctrl()));
    assert_eq!(m.buttons.len(), 1);
    assert!(m.remove_button(&ctrl()));
    assert!(!m.remove_button(&ctrl()));
    assert!(m.buttons.is_empty());
}

#[test]
fn modifiers_axes_round_trip() {
    let mut m = Modifiers::new();
    assert_eq!(m.set_axis(AxisKind::MouseX, 10), None);
    assert_eq!(m.set_axis(AxisKind::MouseX, 20), Some(10));
    assert_eq!(m.axis(&AxisKind::MouseX), Some(20));
    assert_eq!(m.axis(&AxisKind::MouseY), None);
    assert_eq!(m.remove_axis(&AxisKind::MouseX), Some(20));
    assert_eq!(m.remove_axis(&AxisKind::MouseX), None);
    assert!(m.axes.is_empty());
}

#[test]
fn filter_needs_buttons_and_ranges() {
    let mut m = Modifiers::new();
    m.insert_button(ctrl());
    m.set_axis(AxisKind::MouseX, 5);
    let mut filter = ModifiersFilter::new();
    assert!(filter.is_matched_by(&m));
    filter.buttons.push(ctrl());
    assert!(filter.is_matched_by(&m));
    filter.axes_ranges.push((AxisKind::MouseX, AxisRange { start: 0, end: 5 }));
    assert!(filter.is_matched_by(&m));
    filter.axes_ranges.push((AxisKind::MouseY, AxisRange { start: 0, end: 5 }));
    assert!(!filter.is_matched_by(&m));
    let mut other = ModifiersFilter::new();
    other.axes_ranges.push((AxisKind::MouseX, AxisRange { start: 6, end: 9 }));
    assert!(!other.is_matched_by(&m));
    let mut shift = ModifiersFilter::new();
    shift.buttons.push(ButtonKind::KeyboardKey(KeyboardKey::LeftShift));
    assert!(!shift.is_matched_by(&m));
    assert!(AxisRange { start: -1, end: 1 }.contains(&0));
    assert!(!AxisRange { start: -1, end: 1 }.contains(&2));
}

#[test]
fn key_down_and_up_restore_modifiers() {
    let state = ModifiedState::new();
    let events = state.with_event::<()>(RawInput::KeyDown(KeyboardKey::LeftCtrl));
    let after_down = events.to_state();
    let list = events.into_vec();
    assert_eq!(list.len(), 1);
    assert_eq!(list[0].input, ModifiedInput::Press(ctrl()));
    assert_eq!(list[0].modifiers.buttons, vec![ctrl()]);
    let events = after_down.with_event::<()>(RawInput::KeyUp(KeyboardKey::LeftCtrl));
    let list = events.into_vec();
    assert_eq!(list[0].input, ModifiedInput::Release(ctrl()));
    assert!(list[0].modifiers.buttons.is_empty());
}

#[test]
fn mouse_move_changes_both_coordinates() {
    let state = ModifiedState::new();
    let mut events = state.with_event::<()>(RawInput::MouseMove((3, 4)));
    let first = events.next().unwrap();
    assert_eq!(first.input, ModifiedInput::Change(Axis::new(AxisKind::MouseX, Some(3))));
    let second = events.next().unwrap();
    assert_eq!(second.input, ModifiedInput::Change(Axis::new(AxisKind::MouseY, Some(4))));
    let third = events.next().unwrap();
    assert_eq!(third.input, ModifiedInput::Trigger(TriggerKind::MouseMove));
    assert!(events.next().is_none());
    assert!(events.next().is_none());
    assert_eq!(third.modifiers.axis(&AxisKind::MouseX), Some(3));
    assert_eq!(third.modifiers.axis(&AxisKind::MouseY), Some(4));
}

#[test]
fn touch_start_and_end_restore_coordinates() {
    let state = ModifiedState::new();
    let events = state.with_event::<()>(RawInput::TouchStart { touch_id: 1, coords: (5, 6) });
    let after_start = events.to_state();
    let list = events.into_vec();
    assert_eq!(list.len(), 3);
    assert_eq!(list[2].input, ModifiedInput::Press(ButtonKind::Touch(1)));
    assert_eq!(list[2].modifiers.axis(&AxisKind::TouchX(1)), Some(5));
    let events = after_start.with_event::<()>(RawInput::TouchEnd { touch_id: 1 });
    let after_end = events.to_state();
    let list = events.into_vec();
    assert_eq!(list.len(), 3);
    assert!(after_end.modifiers().axes.is_empty());
}

#[test]
fn custom_and_char_inputs_are_triggers() {
    let state = ModifiedState::new();
    let events = state.with_event(RawInput::Custom(7u8));
    let list = events.into_vec();
    assert_eq!(list[0].input, ModifiedInput::Trigger(TriggerKind::Custom(7u8)));
    assert_eq!(list[0].clone_without_custom().input, ModifiedInput::Trigger(TriggerKind::Custom(())));
    let state = ModifiedState::new();
    let events = state.with_event::<()>(RawInput::Char("x".to_string()));
    let list = events.into_vec();
    assert_eq!(list[0].input, ModifiedInput::Trigger(TriggerKind::Char("x".to_string())));
    let state = ModifiedState::new();
    let events = state.with_event::<()>(RawInput::MouseDown(MouseButton::Primary));
    assert_eq!(
        events.into_vec()[0].input,
        ModifiedInput::Press(ButtonKind::MouseButton(MouseButton::Primary))
    );
}

#[test]
fn switch_modifiers_press_and_release() {
    let state = SwitchModifiers::<u64>::new();
    let ev = state.with_press_event("down", 3);
    assert_eq!(ev.event, "down");
    assert!(ev.modifiers.contains(&3));
    let state = SwitchModifiers::from(ev);
    let ev = state.with_trigger_event("wheel");
    assert_eq!(ev.modifiers.len(), 1);
    let state = ev.to_state();
    let ev = state.with_release_event("up", 3);
    assert!(ev.modifiers.is_empty());
    assert_eq!(Arc::strong_count(&ev.modifiers), 1);
}

#[test]
fn switch_modifiers_clone_then_press_and_release() {
    let state = SwitchModifiers::<u64>::new();
    let state = SwitchModifiers::from(state.with_press_event((), 1));
    let copy = state.clone();
    let pressed = SwitchModifiers::from(copy.with_press_event("down", 2));
    let released = pressed.with_release_event("up", 2);
    assert_eq!(released.event, "up");
    assert_eq!(*released.modifiers, *state.modifiers().as_ref());
}
