use input_flow::global_timed_state::{
    GlobalModifiersMarker, GlobalState, KeyboardClickExactSchedulerMarker,
    KeyboardLongPressSchedulerMarker, KeyboardTimedStateMarker, MouseClickExactSchedulerMarker,
    MouseLongPressSchedulerMarker, MouseTimedStateMarker,
};
use input_flow::state::State;
use input_flow::struct_field::{StructTakeField, StructWithField};

#[test]
fn state_test() {
    let state = State::new(1, false, "123", (1, 2));

    let (modifiers, rest): (i32, _) = state.take_field();
    let state: State<_, _, _, _> = rest.with_field(modifiers + 10);

    let (timed, rest): (bool, _) = state.take_field();
    let state: State<_, _, _, _> = rest.with_field(!timed);

    let (scheduler, rest): (&str, _) = state.take_field();
    let state: State<_, _, _, _> = rest.with_field(&scheduler[1..3]);

    assert_eq!(state.modifiers, 11);
    assert_eq!(state.timed_state, true);
    assert_eq!(state.scheduler, "23");
}

#[test]
fn pointer_state_round_trip() {
    let state = State::new(1u8, 2u16, 3u32, 4u64);
    let (pointer, rest): (u64, _) = state.take_field();
    assert_eq!(pointer, 4);
    assert_eq!(rest.pointer_state, ());
    let state: State<u8, u16, u32, u64> = rest.with_field(pointer);
    assert_eq!((state.modifiers, state.timed_state, state.scheduler, state.pointer_state), (1, 2, 3, 4));
}

#[test]
fn global_state_take_and_with_state() {
    let global = GlobalState::new(1u8, 2u16, 3u32, 4u64, 5i8, 6i16, 7i32);
    let (state, rest) = global.take_state::<
        u32,
        i16,
        _,
        GlobalModifiersMarker,
        _,
        MouseTimedStateMarker,
        _,
        MouseLongPressSchedulerMarker,
    >();
    assert_eq!((state.modifiers, state.timed_state, state.scheduler), (1, 3, 6));
    assert_eq!(rest.keyboard_timed_state, 2);
    assert_eq!(rest.mouse_timed_state, ());
    let state = State::new(10u8, 30u32, 60i16, ());
    let global: GlobalState<u8, u16, u32, u64, i8, i16, i32> = rest.with_state::<
        u8,
        u32,
        i16,
        _,
        GlobalModifiersMarker,
        _,
        MouseTimedStateMarker,
        _,
        MouseLongPressSchedulerMarker,
    >(state);
    assert_eq!(global.modifiers, 10);
    assert_eq!(global.mouse_timed_state, 30);
    assert_eq!(global.mouse_long_press_scheduler, 60);
    assert_eq!(global.keyboard_timed_state, 2);

    let (keyboard, rest): (u16, _) =
        StructTakeField::<u16, KeyboardTimedStateMarker>::take_field(global);
    let global: GlobalState<u8, u16, u32, u64, i8, i16, i32> =
        StructWithField::<u16, KeyboardTimedStateMarker>::with_field(rest, keyboard + 1);
    assert_eq!(global.keyboard_timed_state, 3);
    let (value, rest): (u64, _) =
        StructTakeField::<u64, KeyboardLongPressSchedulerMarker>::take_field(global);
    let global: GlobalState<u8, u16, u32, u64, i8, i16, i32> =
        StructWithField::<u64, KeyboardLongPressSchedulerMarker>::with_field(rest, value * 2);
    assert_eq!(global.keyboard_long_press_scheduler, 8);
    let (value, rest): (i8, _) =
        StructTakeField::<i8, KeyboardClickExactSchedulerMarker>::take_field(global);
    let global: GlobalState<u8, u16, u32, u64, i8, i16, i32> =
        StructWithField::<i8, KeyboardClickExactSchedulerMarker>::with_field(rest, -value);
    assert_eq!(global.keyboard_click_exact_scheduler, -5);
    let (value, rest): (i32, _) =
        StructTakeField::<i32, MouseClickExactSchedulerMarker>::take_field(global);
    let global: GlobalState<u8, u16, u32, u64, i8, i16, i32> =
        StructWithField::<i32, MouseClickExactSchedulerMarker>::with_field(rest, value + 1);
    assert_eq!(global.mouse_click_exact_scheduler, 8);
}
