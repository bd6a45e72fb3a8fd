//! Turns raw input events into modified events: every event carries the
//! buttons pressed and the coordinates known after it, and compound raw
//! events (moves, touches) are split into one event per changed coordinate.

use std::sync::Arc;
use vstd::prelude::*;

use crate::axis::{Axis, AxisKind};
use crate::button::{ButtonKind, MouseScrollDelta, TouchId};
use crate::modifiers::Modifiers;
use crate::raw::{EventCoord, EventCoords, RawInput};

verus! {

/// A modified input together with the modifiers after it.
#[derive(Clone, Debug)]
pub struct ModifiedEvent<T> {
    pub input: ModifiedInput<T>,
    pub modifiers: Arc<Modifiers>,
}

#[derive(Clone, Debug, Eq, Hash, PartialEq)]
pub enum ModifiedInput<T> {
    Press(ButtonKind),
    Release(ButtonKind),
    Repeat(ButtonKind),
    Change(Axis),
    Trigger(TriggerKind<T>),
}

#[derive(Clone, Debug, Eq, Hash, PartialEq)]
pub enum TriggerKind<T> {
    MouseWheelUp,
    MouseWheelDown,
    MouseScroll(MouseScrollDelta),
    Char(String),
    CharRepeat(String),
    MouseMove,
    TouchMove,
    Custom(T),
}

/// The modifiers known between two raw events.
#[derive(Debug)]
pub struct ModifiedState {
    modifiers: Arc<Modifiers>,
}

#[derive(Clone, Debug)]
struct ModifiedTransitionEventsBuilder {
    modifiers: Modifiers,
}

/// The modified events one raw event produces, handed out one by one by
/// `next`, and the modifiers after the raw event.
#[derive(Debug)]
pub struct ModifiedTransitionEvents<T> {
    state: ModifiedTransitionEventsState<T>,
    modifiers: Arc<Modifiers>,
}

#[derive(Debug)]
enum ModifiedTransitionEventsState<T> {
    Pressed(ButtonKind),
    Released(ButtonKind),
    MouseMoveXY(EventCoords),
    MouseMoveY(EventCoord),
    Trigger(TriggerKind<T>),
    TouchStartXY(TouchId, EventCoords),
    TouchStartY(TouchId, EventCoord),
    TouchMoveXY(TouchId, EventCoords),
    TouchMoveY(TouchId, EventCoord),
    TouchEndXY(TouchId),
    TouchEndY(TouchId),
    Empty,
}

/// The change of coordinate `kind` to `value`.
pub open spec fn change<T>(kind: AxisKind, value: Option<i32>) -> ModifiedInput<T> {
    ModifiedInput::Change(Axis { kind, value })
}

/// The modified inputs a raw event produces, in order.
pub open spec fn raw_inputs<T>(ev: RawInput<T>) -> Seq<ModifiedInput<T>> {
    match ev {
        RawInput::KeyDown(key) => seq![ModifiedInput::Press(ButtonKind::KeyboardKey(key))],
        RawInput::KeyUp(key) => seq![ModifiedInput::Release(ButtonKind::KeyboardKey(key))],
        RawInput::MouseDown(b) => seq![ModifiedInput::Press(ButtonKind::MouseButton(b))],
        RawInput::MouseUp(b) => seq![ModifiedInput::Release(ButtonKind::MouseButton(b))],
        RawInput::MouseMove((x, y)) => seq![
            change(AxisKind::MouseX, Some(x)),
            change(AxisKind::MouseY, Some(y)),
            ModifiedInput::Trigger(TriggerKind::MouseMove),
        ],
        RawInput::MouseWheelDown => seq![ModifiedInput::Trigger(TriggerKind::MouseWheelDown)],
        RawInput::MouseWheelUp => seq![ModifiedInput::Trigger(TriggerKind::MouseWheelUp)],
        RawInput::MouseScroll(delta) => seq![ModifiedInput::Trigger(TriggerKind::MouseScroll(delta))],
        RawInput::TouchStart { touch_id, coords: (x, y) } => seq![
            change(AxisKind::TouchX(touch_id), Some(x)),
            change(AxisKind::TouchY(touch_id), Some(y)),
            ModifiedInput::Press(ButtonKind::Touch(touch_id)),
        ],
        RawInput::TouchMove { touch_id, coords: (x, y) } => seq![
            change(AxisKind::TouchX(touch_id), Some(x)),
            change(AxisKind::TouchY(touch_id), Some(y)),
            ModifiedInput::Trigger(TriggerKind::TouchMove),
        ],
        RawInput::TouchEnd { touch_id } => seq![
            change(AxisKind::TouchX(touch_id), None),
            change(AxisKind::TouchY(touch_id), None),
            ModifiedInput::Release(ButtonKind::Touch(touch_id)),
        ],
        RawInput::Char(ch) => seq![ModifiedInput::Trigger(TriggerKind::Char(ch))],
        RawInput::Custom(ev) => seq![ModifiedInput::Trigger(TriggerKind::Custom(ev))],
    }
}

/// A raw event can be applied to modifiers `m`: a pressed button is not
/// pressed yet, a released one is, a touch starts only once and moves or
/// ends only while it exists.
pub open spec fn raw_applicable<T>(m: Modifiers, ev: RawInput<T>) -> bool {
    match ev {
        RawInput::KeyDown(key) => !m.button_set().contains(ButtonKind::KeyboardKey(key)),
        RawInput::KeyUp(key) => m.button_set().contains(ButtonKind::KeyboardKey(key)),
        RawInput::MouseDown(b) => !m.button_set().contains(ButtonKind::MouseButton(b)),
        RawInput::MouseUp(b) => m.button_set().contains(ButtonKind::MouseButton(b)),
        RawInput::TouchStart { touch_id, coords } => !m.axis_map().contains_key(AxisKind::TouchX(touch_id))
            && !m.axis_map().contains_key(AxisKind::TouchY(touch_id)),
        RawInput::TouchMove { touch_id, coords } => m.axis_map().contains_key(AxisKind::TouchX(touch_id))
            && m.axis_map().contains_key(AxisKind::TouchY(touch_id)),
        RawInput::TouchEnd { touch_id } => m.axis_map().contains_key(AxisKind::TouchX(touch_id))
            && m.axis_map().contains_key(AxisKind::TouchY(touch_id)),
        _ => true,
    }
}

/// The pressed buttons after a raw event.
pub open spec fn raw_buttons<T>(m: Modifiers, ev: RawInput<T>) -> Set<ButtonKind> {
    match ev {
        RawInput::KeyDown(key) => m.button_set().insert(ButtonKind::KeyboardKey(key)),
        RawInput::KeyUp(key) => m.button_set().remove(ButtonKind::KeyboardKey(key)),
        RawInput::MouseDown(b) => m.button_set().insert(ButtonKind::MouseButton(b)),
        RawInput::MouseUp(b) => m.button_set().remove(ButtonKind::MouseButton(b)),
        _ => m.button_set(),
    }
}

/// The known coordinates after a raw event.
pub open spec fn raw_axes<T>(m: Modifiers, ev: RawInput<T>) -> Map<AxisKind, i32> {
    match ev {
        RawInput::MouseMove((x, y)) => m.axis_map().insert(AxisKind::MouseX, x).insert(AxisKind::MouseY, y),
        RawInput::TouchStart { touch_id, coords: (x, y) } => m.axis_map().insert(
            AxisKind::TouchX(touch_id),
            x,
        ).insert(AxisKind::TouchY(touch_id), y),
        RawInput::TouchMove { touch_id, coords: (x, y) } => m.axis_map().insert(
            AxisKind::TouchX(touch_id),
            x,
        ).insert(AxisKind::TouchY(touch_id), y),
        RawInput::TouchEnd { touch_id } => m.axis_map().remove(AxisKind::TouchX(touch_id)).remove(
            AxisKind::TouchY(touch_id),
        ),
        _ => m.axis_map(),
    }
}

impl<T> ModifiedTransitionEventsState<T> {
    spec fn remaining(self) -> Seq<ModifiedInput<T>> {
        match self {
            Self::Pressed(b) => seq![ModifiedInput::Press(b)],
            Self::Released(b) => seq![ModifiedInput::Release(b)],
            Self::Trigger(t) => seq![ModifiedInput::Trigger(t)],
            Self::MouseMoveXY((x, y)) => seq![
                change(AxisKind::MouseX, Some(x)),
                change(AxisKind::MouseY, Some(y)),
                ModifiedInput::Trigger(TriggerKind::MouseMove),
            ],
            Self::MouseMoveY(y) => seq![
                change(AxisKind::MouseY, Some(y)),
                ModifiedInput::Trigger(TriggerKind::MouseMove),
            ],
            Self::TouchStartXY(id, (x, y)) => seq![
                change(AxisKind::TouchX(id), Some(x)),
                change(AxisKind::TouchY(id), Some(y)),
                ModifiedInput::Press(ButtonKind::Touch(id)),
            ],
            Self::TouchStartY(id, y) => seq![
                change(AxisKind::TouchY(id), Some(y)),
                ModifiedInput::Press(ButtonKind::Touch(id)),
            ],
            Self::TouchMoveXY(id, (x, y)) => seq![
                change(AxisKind::TouchX(id), Some(x)),
                change(AxisKind::TouchY(id), Some(y)),
                ModifiedInput::Trigger(TriggerKind::TouchMove),
            ],
            Self::TouchMoveY(id, y) => seq![
                change(AxisKind::TouchY(id), Some(y)),
                ModifiedInput::Trigger(TriggerKind::TouchMove),
            ],
            Self::TouchEndXY(id) => seq![
                change(AxisKind::TouchX(id), None),
                change(AxisKind::TouchY(id), None),
                ModifiedInput::Release(ButtonKind::Touch(id)),
            ],
            Self::TouchEndY(id) => seq![
                change(AxisKind::TouchY(id), None),
                ModifiedInput::Release(ButtonKind::Touch(id)),
            ],
            Self::Empty => Seq::empty(),
        }
    }

    /// Hands out the next modified input and moves on.
    fn next(&mut self) -> (res: Option<ModifiedInput<T>>)
        ensures
            old(self).remaining().len() == 0 ==> res is None && final(self).remaining().len() == 0,
            old(self).remaining().len() > 0 ==> res == Some(old(self).remaining()[0])
                && final(self).remaining() == old(self).remaining().drop_first(),
        no_unwind
    {
        let mut state = ModifiedTransitionEventsState::Empty;
        std::mem::swap(self, &mut state);
        let (state, input) = match state {
            Self::Pressed(button) => (Self::Empty, Some(ModifiedInput::Press(button))),
            Self::Released(button) => (Self::Empty, Some(ModifiedInput::Release(button))),
            Self::Trigger(trigger) => (Self::Empty, Some(ModifiedInput::Trigger(trigger))),
            Self::MouseMoveXY((x, y)) => (
                Self::MouseMoveY(y),
                Some(ModifiedInput::Change(Axis { kind: AxisKind::MouseX, value: Some(x) })),
            ),
            Self::MouseMoveY(y) => (
                Self::Trigger(TriggerKind::MouseMove),
                Some(ModifiedInput::Change(Axis { kind: AxisKind::MouseY, value: Some(y) })),
            ),
            Self::TouchStartXY(touch_id, (x, y)) => (
                Self::TouchStartY(touch_id, y),
                Some(ModifiedInput::Change(Axis { kind: AxisKind::TouchX(touch_id), value: Some(x) })),
            ),
            Self::TouchStartY(touch_id, y) => (
                Self::Pressed(ButtonKind::Touch(touch_id)),
                Some(ModifiedInput::Change(Axis { kind: AxisKind::TouchY(touch_id), value: Some(y) })),
            ),
            Self::TouchMoveXY(touch_id, (x, y)) => (
                Self::TouchMoveY(touch_id, y),
                Some(ModifiedInput::Change(Axis { kind: AxisKind::TouchX(touch_id), value: Some(x) })),
            ),
            Self::TouchMoveY(touch_id, y) => (
                Self::Trigger(TriggerKind::TouchMove),
                Some(ModifiedInput::Change(Axis { kind: AxisKind::TouchY(touch_id), value: Some(y) })),
            ),
            Self::TouchEndXY(touch_id) => (
                Self::TouchEndY(touch_id),
                Some(ModifiedInput::Change(Axis { kind: AxisKind::TouchX(touch_id), value: None })),
            ),
            Self::TouchEndY(touch_id) => (
                Self::Released(ButtonKind::Touch(touch_id)),
                Some(ModifiedInput::Change(Axis { kind: AxisKind::TouchY(touch_id), value: None })),
            ),
            Self::Empty => (Self::Empty, None),
        };
        *self = state;
        proof {
            if old(self).remaining().len() > 0 {
                assert(final(self).remaining() =~= old(self).remaining().drop_first());
            }
        }
        input
    }
}

impl ModifiedState {
    #[verifier::type_invariant]
    spec fn inv(self) -> bool {
        self.modifiers.wf()
    }

    /// The modifiers known in this state.
    pub closed spec fn spec_modifiers(&self) -> Modifiers {
        *self.modifiers
    }

    /// No button pressed and no coordinate known.
    pub fn new() -> (res: Self)
        ensures
            res.spec_modifiers().button_set() == Set::<ButtonKind>::empty(),
            res.spec_modifiers().axis_map() == Map::<AxisKind, i32>::empty(),
    {
        Self { modifiers: Arc::new(Modifiers::new()) }
    }

    pub fn modifiers(&self) -> (res: &Arc<Modifiers>)
        ensures
            **res == self.spec_modifiers(),
            res.wf(),
    {
        proof {
            use_type_invariant(self);
        }
        &self.modifiers
    }

    /// Applies a raw event: updates the modifiers and yields the modified
    /// events it produces.
    pub fn with_event<T>(self, ev: RawInput<T>) -> (res: ModifiedTransitionEvents<T>)
        requires
            raw_applicable(self.spec_modifiers(), ev),
        ensures
            res.remaining() == raw_inputs(ev),
            res.spec_modifiers().button_set() == raw_buttons(self.spec_modifiers(), ev),
            res.spec_modifiers().axis_map() == raw_axes(self.spec_modifiers(), ev),
    {
        proof {
            use_type_invariant(&self);
        }
        let builder = ModifiedTransitionEventsBuilder::new((*self.modifiers).clone());
        match ev {
            RawInput::KeyDown(key) => builder.with_pressed(ButtonKind::KeyboardKey(key)),
            RawInput::KeyUp(key) => builder.with_released(ButtonKind::KeyboardKey(key)),
            RawInput::MouseDown(button) => builder.with_pressed(ButtonKind::MouseButton(button)),
            RawInput::MouseUp(button) => builder.with_released(ButtonKind::MouseButton(button)),
            RawInput::MouseMove(coords) => builder.with_mouse_move(coords),
            RawInput::MouseWheelDown => builder.with_trigger(TriggerKind::MouseWheelDown),
            RawInput::MouseWheelUp => builder.with_trigger(TriggerKind::MouseWheelUp),
            RawInput::MouseScroll(delta) => builder.with_trigger(TriggerKind::MouseScroll(delta)),
            RawInput::TouchStart { touch_id, coords } => builder.with_touch_start(touch_id, coords),
            RawInput::TouchMove { touch_id, coords } => builder.with_touch_move(touch_id, coords),
            RawInput::TouchEnd { touch_id } => builder.with_touch_end(touch_id),
            RawInput::Char(ch) => builder.with_trigger(TriggerKind::Char(ch)),
            RawInput::Custom(ev) => builder.with_trigger(TriggerKind::Custom(ev)),
        }
    }
}

impl Clone for ModifiedState {
    fn clone(&self) -> (res: Self)
        ensures
            res.spec_modifiers() == self.spec_modifiers(),
    {
        proof {
            use_type_invariant(self);
        }
        ModifiedState { modifiers: Arc::clone(&self.modifiers) }
    }
}

impl<T> ModifiedTransitionEvents<T> {
    #[verifier::type_invariant]
    spec fn inv(self) -> bool {
        self.modifiers.wf()
    }

    /// The modified inputs not handed out yet.
    pub closed spec fn remaining(&self) -> Seq<ModifiedInput<T>> {
        self.state.remaining()
    }

    /// The modifiers after the raw event.
    pub closed spec fn spec_modifiers(&self) -> Modifiers {
        *self.modifiers
    }

    /// The modifier state after the raw event.
    pub fn to_state(&self) -> (res: ModifiedState)
        ensures
            res.spec_modifiers() == self.spec_modifiers(),
    {
        proof {
            use_type_invariant(self);
        }
        ModifiedState { modifiers: Arc::clone(&self.modifiers) }
    }

    pub fn modifiers(&self) -> (res: &Arc<Modifiers>)
        ensures
            **res == self.spec_modifiers(),
    {
        &self.modifiers
    }

    /// Hands out the next modified event, if any is left.
    pub fn next(&mut self) -> (res: Option<ModifiedEvent<T>>)
        ensures
            final(self).spec_modifiers() == old(self).spec_modifiers(),
            old(self).remaining().len() == 0 ==> res is None && final(self).remaining().len() == 0,
            old(self).remaining().len() > 0 ==> {
                &&& res is Some
                &&& res->Some_0.input == old(self).remaining()[0]
                &&& *res->Some_0.modifiers == old(self).spec_modifiers()
                &&& final(self).remaining() == old(self).remaining().drop_first()
            },
    {
        proof {
            use_type_invariant(&*self);
        }
        match self.state.next() {
            Some(input) => Some(ModifiedEvent { input, modifiers: Arc::clone(&self.modifiers) }),
            None => None,
        }
    }

    /// Hands out all the events that are left, in order.
    pub fn into_vec(self) -> (res: Vec<ModifiedEvent<T>>)
        ensures
            res@.len() == self.remaining().len(),
            forall|i: int|
                0 <= i < res@.len() ==> #[trigger] res@[i].input == self.remaining()[i]
                    && *res@[i].modifiers == self.spec_modifiers(),
    {
        let mut events = self;
        let ghost all = events.remaining();
        let mut res: Vec<ModifiedEvent<T>> = Vec::new();
        loop
            invariant
                events.spec_modifiers() == self.spec_modifiers(),
                all == self.remaining(),
                res@.len() + events.remaining().len() == all.len(),
                events.remaining() == all.subrange(res@.len() as int, all.len() as int),
                forall|i: int|
                    0 <= i < res@.len() ==> #[trigger] res@[i].input == all[i]
                        && *res@[i].modifiers == self.spec_modifiers(),
            decreases events.remaining().len(),
        {
            let ghost before = events.remaining();
            match events.next() {
                Some(ev) => {
                    proof {
                        assert(before[0] == all[res@.len() as int]);
                        assert(before.drop_first() =~= all.subrange(res@.len() + 1int, all.len() as int));
                    }
                    res.push(ev);
                },
                None => {
                    return res;
                },
            }
        }
    }
}

impl ModifiedTransitionEventsBuilder {
    fn new(modifiers: Modifiers) -> (res: Self)
        ensures
            res.modifiers == modifiers,
    {
        Self { modifiers }
    }

    fn with_pressed<T>(self, button: ButtonKind) -> (res: ModifiedTransitionEvents<T>)
        requires
            self.modifiers.wf(),
            !self.modifiers.button_set().contains(button),
        ensures
            res.remaining() == seq![ModifiedInput::<T>::Press(button)],
            res.spec_modifiers().button_set() == self.modifiers.button_set().insert(button),
            res.spec_modifiers().axis_map() == self.modifiers.axis_map(),
    {
        let mut modifiers = self.modifiers;
        let is_added = modifiers.insert_button(button);
        assert(is_added);
        ModifiedTransitionEvents {
            state: ModifiedTransitionEventsState::Pressed(button),
            modifiers: Arc::new(modifiers),
        }
    }

    fn with_released<T>(self, button: ButtonKind) -> (res: ModifiedTransitionEvents<T>)
        requires
            self.modifiers.wf(),
            self.modifiers.button_set().contains(button),
        ensures
            res.remaining() == seq![ModifiedInput::<T>::Release(button)],
            res.spec_modifiers().button_set() == self.modifiers.button_set().remove(button),
            res.spec_modifiers().axis_map() == self.modifiers.axis_map(),
    {
        let mut modifiers = self.modifiers;
        let is_removed = modifiers.remove_button(&button);
        assert(is_removed);
        ModifiedTransitionEvents {
            state: ModifiedTransitionEventsState::Released(button),
            modifiers: Arc::new(modifiers),
        }
    }

    fn with_trigger<T>(self, trigger: TriggerKind<T>) -> (res: ModifiedTransitionEvents<T>)
        requires
            self.modifiers.wf(),
        ensures
            res.remaining() == seq![ModifiedInput::<T>::Trigger(trigger)],
            res.spec_modifiers() == self.modifiers,
    {
        ModifiedTransitionEvents {
            state: ModifiedTransitionEventsState::Trigger(trigger),
            modifiers: Arc::new(self.modifiers),
        }
    }

    fn with_mouse_move<T>(self, coords: EventCoords) -> (res: ModifiedTransitionEvents<T>)
        requires
            self.modifiers.wf(),
        ensures
            res.remaining() == raw_inputs(RawInput::<T>::MouseMove(coords)),
            res.spec_modifiers().button_set() == self.modifiers.button_set(),
            res.spec_modifiers().axis_map() == self.modifiers.axis_map().insert(
                AxisKind::MouseX,
                coords.0,
            ).insert(AxisKind::MouseY, coords.1),
    {
        let (x, y) = coords;
        let mut modifiers = self.modifiers;
        let _ = modifiers.set_axis(AxisKind::MouseX, x);
        let _ = modifiers.set_axis(AxisKind::MouseY, y);
        let res = ModifiedTransitionEvents {
            state: ModifiedTransitionEventsState::MouseMoveXY((x, y)),
            modifiers: Arc::new(modifiers),
        };
        assert(res.remaining() =~= raw_inputs(RawInput::<T>::MouseMove(coords)));
        res
    }

    fn with_touch_start<T>(self, touch_id: TouchId, coords: EventCoords) -> (res: ModifiedTransitionEvents<T>)
        requires
            self.modifiers.wf(),
            !self.modifiers.axis_map().contains_key(AxisKind::TouchX(touch_id)),
            !self.modifiers.axis_map().contains_key(AxisKind::TouchY(touch_id)),
        ensures
            res.remaining() == raw_inputs(RawInput::<T>::TouchStart { touch_id, coords }),
            res.spec_modifiers().button_set() == self.modifiers.button_set(),
            res.spec_modifiers().axis_map() == self.modifiers.axis_map().insert(
                AxisKind::TouchX(touch_id),
                coords.0,
            ).insert(AxisKind::TouchY(touch_id), coords.1),
    {
        let (x, y) = coords;
        let mut modifiers = self.modifiers;
        let prev = modifiers.set_axis(AxisKind::TouchX(touch_id), x);
        assert(prev.is_none());
        let prev = modifiers.set_axis(AxisKind::TouchY(touch_id), y);
        assert(prev.is_none());
        let res = ModifiedTransitionEvents {
            state: ModifiedTransitionEventsState::TouchStartXY(touch_id, (x, y)),
            modifiers: Arc::new(modifiers),
        };
        assert(res.remaining() =~= raw_inputs(RawInput::<T>::TouchStart { touch_id, coords }));
        res
    }

    fn with_touch_move<T>(self, touch_id: TouchId, coords: EventCoords) -> (res: ModifiedTransitionEvents<T>)
        requires
            self.modifiers.wf(),
            self.modifiers.axis_map().contains_key(AxisKind::TouchX(touch_id)),
            self.modifiers.axis_map().contains_key(AxisKind::TouchY(touch_id)),
        ensures
            res.remaining() == raw_inputs(RawInput::<T>::TouchMove { touch_id, coords }),
            res.spec_modifiers().button_set() == self.modifiers.button_set(),
            res.spec_modifiers().axis_map() == self.modifiers.axis_map().insert(
                AxisKind::TouchX(touch_id),
                coords.0,
            ).insert(AxisKind::TouchY(touch_id), coords.1),
    {
        let (x, y) = coords;
        let mut modifiers = self.modifiers;
        let prev = modifiers.set_axis(AxisKind::TouchX(touch_id), x);
        assert(prev.is_some());
        let prev = modifiers.set_axis(AxisKind::TouchY(touch_id), y);
        assert(prev.is_some());
        let res = ModifiedTransitionEvents {
            state: ModifiedTransitionEventsState::TouchMoveXY(touch_id, (x, y)),
            modifiers: Arc::new(modifiers),
        };
        assert(res.remaining() =~= raw_inputs(RawInput::<T>::TouchMove { touch_id, coords }));
        res
    }

    fn with_touch_end<T>(self, touch_id: TouchId) -> (res: ModifiedTransitionEvents<T>)
        requires
            self.modifiers.wf(),
            self.modifiers.axis_map().contains_key(AxisKind::TouchX(touch_id)),
            self.modifiers.axis_map().contains_key(AxisKind::TouchY(touch_id)),
        ensures
            res.remaining() == raw_inputs(RawInput::<T>::TouchEnd { touch_id }),
            res.spec_modifiers().button_set() == self.modifiers.button_set(),
            res.spec_modifiers().axis_map() == self.modifiers.axis_map().remove(
                AxisKind::TouchX(touch_id),
            ).remove(AxisKind::TouchY(touch_id)),
    {
        let mut modifiers = self.modifiers;
        let prev = modifiers.remove_axis(&AxisKind::TouchX(touch_id));
        assert(prev.is_some());
        let prev = modifiers.remove_axis(&AxisKind::TouchY(touch_id));
        assert(prev.is_some());
        let res = ModifiedTransitionEvents {
            state: ModifiedTransitionEventsState::TouchEndXY(touch_id),
            modifiers: Arc::new(modifiers),
        };
        assert(res.remaining() =~= raw_inputs(RawInput::<T>::TouchEnd { touch_id }));
        res
    }
}

/// The trigger with the custom payload dropped; both sides' text is
/// compared by value.
pub open spec fn trigger_without_custom<T>(t: TriggerKind<T>, u: TriggerKind<()>) -> bool {
    match (t, u) {
        (TriggerKind::MouseWheelUp, TriggerKind::MouseWheelUp) => true,
        (TriggerKind::MouseWheelDown, TriggerKind::MouseWheelDown) => true,
        (TriggerKind::MouseScroll(a), TriggerKind::MouseScroll(b)) => a == b,
        (TriggerKind::Char(a), TriggerKind::Char(b)) => a@ == b@,
        (TriggerKind::CharRepeat(a), TriggerKind::CharRepeat(b)) => a@ == b@,
        (TriggerKind::MouseMove, TriggerKind::MouseMove) => true,
        (TriggerKind::TouchMove, TriggerKind::TouchMove) => true,
        (TriggerKind::Custom(_), TriggerKind::Custom(_)) => true,
        _ => false,
    }
}

/// The input with the custom payload dropped.
pub open spec fn input_without_custom<T>(t: ModifiedInput<T>, u: ModifiedInput<()>) -> bool {
    match (t, u) {
        (ModifiedInput::Press(a), ModifiedInput::Press(b)) => a == b,
        (ModifiedInput::Release(a), ModifiedInput::Release(b)) => a == b,
        (ModifiedInput::Repeat(a), ModifiedInput::Repeat(b)) => a == b,
        (ModifiedInput::Change(a), ModifiedInput::Change(b)) => a == b,
        (ModifiedInput::Trigger(a), ModifiedInput::Trigger(b)) => trigger_without_custom(a, b),
        _ => false,
    }
}

impl<T> ModifiedEvent<T> {
    /// The same event with the custom payload dropped.
    pub fn clone_without_custom(&self) -> (res: ModifiedEvent<()>)
        ensures
            input_without_custom(self.input, res.input),
            *res.modifiers == *self.modifiers,
    {
        ModifiedEvent { input: self.input.clone_without_custom(), modifiers: Arc::clone(&self.modifiers) }
    }
}

impl<T> ModifiedInput<T> {
    /// The same input with the custom payload dropped.
    pub fn clone_without_custom(&self) -> (res: ModifiedInput<()>)
        ensures
            input_without_custom(*self, res),
    {
        match self {
            Self::Press(kind) => ModifiedInput::Press(*kind),
            Self::Release(kind) => ModifiedInput::Release(*kind),
            Self::Repeat(kind) => ModifiedInput::Repeat(*kind),
            Self::Change(axis) => ModifiedInput::Change(*axis),
            Self::Trigger(kind) => ModifiedInput::Trigger(kind.clone_without_custom()),
        }
    }
}

impl<T> TriggerKind<T> {
    /// The same trigger with the custom payload dropped.
    pub fn clone_without_custom(&self) -> (res: TriggerKind<()>)
        ensures
            trigger_without_custom(*self, res),
    {
        match self {
            Self::MouseWheelUp => TriggerKind::MouseWheelUp,
            Self::MouseWheelDown => TriggerKind::MouseWheelDown,
            Self::MouseScroll(scroll) => TriggerKind::MouseScroll(*scroll),
            Self::Char(ch) => TriggerKind::Char(ch.clone()),
            Self::CharRepeat(ch) => TriggerKind::CharRepeat(ch.clone()),
            Self::MouseMove => TriggerKind::MouseMove,
            Self::TouchMove => TriggerKind::TouchMove,
            Self::Custom(_) => TriggerKind::Custom(()),
        }
    }
}

/// `up` ends what `down` started: the same key goes up, the same mouse button
/// goes up, or the same touch ends.
pub open spec fn ends<T>(down: RawInput<T>, up: RawInput<T>) -> bool {
    match (down, up) {
        (RawInput::KeyDown(a), RawInput::KeyUp(b)) => a == b,
        (RawInput::MouseDown(a), RawInput::MouseUp(b)) => a == b,
        (RawInput::TouchStart { touch_id: a, .. }, RawInput::TouchEnd { touch_id: b }) => a == b,
        _ => false,
    }
}

/// A key or mouse button that goes down and then up, or a touch that starts
/// and then ends, is accepted both times and leaves the pressed buttons and
/// the known coordinates as they were before it.
pub proof fn law_down_up_restores<T>(
    before: Modifiers,
    after_down: Modifiers,
    down: RawInput<T>,
    up: RawInput<T>,
)
    requires
        raw_applicable(before, down),
        after_down.button_set() == raw_buttons(before, down),
        after_down.axis_map() == raw_axes(before, down),
        ends(down, up),
    ensures
        raw_applicable(after_down, up),
        raw_buttons(after_down, up) == before.button_set(),
        raw_axes(after_down, up) == before.axis_map(),
{
    match (down, up) {
        (RawInput::KeyDown(a), RawInput::KeyUp(b)) => {
            assert(before.button_set().insert(ButtonKind::KeyboardKey(a)).remove(
                ButtonKind::KeyboardKey(a),
            ) =~= before.button_set());
        },
        (RawInput::MouseDown(a), RawInput::MouseUp(b)) => {
            assert(before.button_set().insert(ButtonKind::MouseButton(a)).remove(
                ButtonKind::MouseButton(a),
            ) =~= before.button_set());
        },
        (RawInput::TouchStart { touch_id, coords: (x, y) }, RawInput::TouchEnd { .. }) => {
            assert(before.axis_map().insert(AxisKind::TouchX(touch_id), x).insert(
                AxisKind::TouchY(touch_id),
                y,
            ).remove(AxisKind::TouchX(touch_id)).remove(AxisKind::TouchY(touch_id))
                =~= before.axis_map());
        },
        _ => {},
    }
}

/// An input that changes no button and no coordinate yields exactly one
/// event: the trigger of the same name, carrying the same data.
pub proof fn law_trigger_inputs<T>(m: Modifiers, delta: MouseScrollDelta, ch: String, custom: T)
    ensures
        raw_inputs::<T>(RawInput::MouseWheelDown) == seq![ModifiedInput::<T>::Trigger(TriggerKind::MouseWheelDown)],
        raw_inputs::<T>(RawInput::MouseWheelUp) == seq![ModifiedInput::<T>::Trigger(TriggerKind::MouseWheelUp)],
        raw_inputs::<T>(RawInput::MouseScroll(delta)) == seq![
            ModifiedInput::<T>::Trigger(TriggerKind::MouseScroll(delta)),
        ],
        raw_inputs::<T>(RawInput::Char(ch)) == seq![ModifiedInput::<T>::Trigger(TriggerKind::Char(ch))],
        raw_inputs::<T>(RawInput::Custom(custom)) == seq![
            ModifiedInput::<T>::Trigger(TriggerKind::Custom(custom)),
        ],
        raw_buttons::<T>(m, RawInput::MouseWheelDown) == m.button_set() && raw_axes::<T>(
            m,
            RawInput::MouseWheelDown,
        ) == m.axis_map(),
        raw_buttons::<T>(m, RawInput::MouseWheelUp) == m.button_set() && raw_axes::<T>(
            m,
            RawInput::MouseWheelUp,
        ) == m.axis_map(),
        raw_buttons::<T>(m, RawInput::MouseScroll(delta)) == m.button_set() && raw_axes::<T>(
            m,
            RawInput::MouseScroll(delta),
        ) == m.axis_map(),
{
}

} // verus!
