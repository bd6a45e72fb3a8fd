//! The timing part of the global input state: the shared modifiers, the
//! timing state of each device and its two timeout schedulers. Each part can
//! be moved out and back by its marker type, and the parts that one device's
//! processing needs can be taken out together as a `State`.

use vstd::prelude::*;

use crate::state::State;
use crate::struct_field::{StructTakeField, StructWithField};

verus! {

#[derive(Clone, Debug, Default)]
pub struct GlobalState<Mo, TsKe, TsMo, ShKeLo, ShKeCl, ShMoLo, ShMoCl> {
    pub modifiers: Mo,
    pub keyboard_timed_state: TsKe,
    pub mouse_timed_state: TsMo,
    pub keyboard_long_press_scheduler: ShKeLo,
    pub keyboard_click_exact_scheduler: ShKeCl,
    pub mouse_long_press_scheduler: ShMoLo,
    pub mouse_click_exact_scheduler: ShMoCl,
}

/// Marks the shared modifiers.
#[derive(Clone, Copy, Debug, Default, Eq, Hash, Ord, PartialEq, PartialOrd)]
pub struct GlobalModifiersMarker;

/// Marks the keyboard timing state.
#[derive(Clone, Copy, Debug, Default, Eq, Hash, Ord, PartialEq, PartialOrd)]
pub struct KeyboardTimedStateMarker;

/// Marks the mouse timing state.
#[derive(Clone, Copy, Debug, Default, Eq, Hash, Ord, PartialEq, PartialOrd)]
pub struct MouseTimedStateMarker;

/// Marks the keyboard long-press scheduler.
#[derive(Clone, Copy, Debug, Default, Eq, Hash, Ord, PartialEq, PartialOrd)]
pub struct KeyboardLongPressSchedulerMarker;

/// Marks the keyboard click-exact scheduler.
#[derive(Clone, Copy, Debug, Default, Eq, Hash, Ord, PartialEq, PartialOrd)]
pub struct KeyboardClickExactSchedulerMarker;

/// Marks the mouse long-press scheduler.
#[derive(Clone, Copy, Debug, Default, Eq, Hash, Ord, PartialEq, PartialOrd)]
pub struct MouseLongPressSchedulerMarker;

/// Marks the mouse click-exact scheduler.
#[derive(Clone, Copy, Debug, Default, Eq, Hash, Ord, PartialEq, PartialOrd)]
pub struct MouseClickExactSchedulerMarker;

impl<Mo, TsKe, TsMo, ShKeLo, ShKeCl, ShMoLo, ShMoCl> StructTakeField<Mo, GlobalModifiersMarker> for GlobalState<Mo, TsKe, TsMo, ShKeLo, ShKeCl, ShMoLo, ShMoCl> {
    type Rest = GlobalState<(), TsKe, TsMo, ShKeLo, ShKeCl, ShMoLo, ShMoCl>;

    open spec fn field_value(self) -> Mo {
        self.modifiers
    }

    open spec fn rest(self) -> GlobalState<(), TsKe, TsMo, ShKeLo, ShKeCl, ShMoLo, ShMoCl> {
        GlobalState { modifiers: (), keyboard_timed_state: self.keyboard_timed_state, mouse_timed_state: self.mouse_timed_state, keyboard_long_press_scheduler: self.keyboard_long_press_scheduler, keyboard_click_exact_scheduler: self.keyboard_click_exact_scheduler, mouse_long_press_scheduler: self.mouse_long_press_scheduler, mouse_click_exact_scheduler: self.mouse_click_exact_scheduler }
    }

    fn take_field(self) -> (res: (Mo, GlobalState<(), TsKe, TsMo, ShKeLo, ShKeCl, ShMoLo, ShMoCl>)) {
        (self.modifiers, GlobalState { modifiers: (), keyboard_timed_state: self.keyboard_timed_state, mouse_timed_state: self.mouse_timed_state, keyboard_long_press_scheduler: self.keyboard_long_press_scheduler, keyboard_click_exact_scheduler: self.keyboard_click_exact_scheduler, mouse_long_press_scheduler: self.mouse_long_press_scheduler, mouse_click_exact_scheduler: self.mouse_click_exact_scheduler })
    }
}

impl<Mo, TsKe, TsMo, ShKeLo, ShKeCl, ShMoLo, ShMoCl> StructWithField<Mo, GlobalModifiersMarker> for GlobalState<(), TsKe, TsMo, ShKeLo, ShKeCl, ShMoLo, ShMoCl> {
    type Output = GlobalState<Mo, TsKe, TsMo, ShKeLo, ShKeCl, ShMoLo, ShMoCl>;

    open spec fn filled(self, value: Mo) -> GlobalState<Mo, TsKe, TsMo, ShKeLo, ShKeCl, ShMoLo, ShMoCl> {
        GlobalState { modifiers: value, keyboard_timed_state: self.keyboard_timed_state, mouse_timed_state: self.mouse_timed_state, keyboard_long_press_scheduler: self.keyboard_long_press_scheduler, keyboard_click_exact_scheduler: self.keyboard_click_exact_scheduler, mouse_long_press_scheduler: self.mouse_long_press_scheduler, mouse_click_exact_scheduler: self.mouse_click_exact_scheduler }
    }

    fn with_field(self, value: Mo) -> (res: GlobalState<Mo, TsKe, TsMo, ShKeLo, ShKeCl, ShMoLo, ShMoCl>) {
        GlobalState { modifiers: value, keyboard_timed_state: self.keyboard_timed_state, mouse_timed_state: self.mouse_timed_state, keyboard_long_press_scheduler: self.keyboard_long_press_scheduler, keyboard_click_exact_scheduler: self.keyboard_click_exact_scheduler, mouse_long_press_scheduler: self.mouse_long_press_scheduler, mouse_click_exact_scheduler: self.mouse_click_exact_scheduler }
    }
}

impl<Mo, TsKe, TsMo, ShKeLo, ShKeCl, ShMoLo, ShMoCl> StructTakeField<TsKe, KeyboardTimedStateMarker> for GlobalState<Mo, TsKe, TsMo, ShKeLo, ShKeCl, ShMoLo, ShMoCl> {
    type Rest = GlobalState<Mo, (), TsMo, ShKeLo, ShKeCl, ShMoLo, ShMoCl>;

    open spec fn field_value(self) -> TsKe {
        self.keyboard_timed_state
    }

    open spec fn rest(self) -> GlobalState<Mo, (), TsMo, ShKeLo, ShKeCl, ShMoLo, ShMoCl> {
        GlobalState { modifiers: self.modifiers, keyboard_timed_state: (), mouse_timed_state: self.mouse_timed_state, keyboard_long_press_scheduler: self.keyboard_long_press_scheduler, keyboard_click_exact_scheduler: self.keyboard_click_exact_scheduler, mouse_long_press_scheduler: self.mouse_long_press_scheduler, mouse_click_exact_scheduler: self.mouse_click_exact_scheduler }
    }

    fn take_field(self) -> (res: (TsKe, GlobalState<Mo, (), TsMo, ShKeLo, ShKeCl, ShMoLo, ShMoCl>)) {
        (self.keyboard_timed_state, GlobalState { modifiers: self.modifiers, keyboard_timed_state: (), mouse_timed_state: self.mouse_timed_state, keyboard_long_press_scheduler: self.keyboard_long_press_scheduler, keyboard_click_exact_scheduler: self.keyboard_click_exact_scheduler, mouse_long_press_scheduler: self.mouse_long_press_scheduler, mouse_click_exact_scheduler: self.mouse_click_exact_scheduler })
    }
}

impl<Mo, TsKe, TsMo, ShKeLo, ShKeCl, ShMoLo, ShMoCl> StructWithField<TsKe, KeyboardTimedStateMarker> for GlobalState<Mo, (), TsMo, ShKeLo, ShKeCl, ShMoLo, ShMoCl> {
    type Output = GlobalState<Mo, TsKe, TsMo, ShKeLo, ShKeCl, ShMoLo, ShMoCl>;

    open spec fn filled(self, value: TsKe) -> GlobalState<Mo, TsKe, TsMo, ShKeLo, ShKeCl, ShMoLo, ShMoCl> {
        GlobalState { modifiers: self.modifiers, keyboard_timed_state: value, mouse_timed_state: self.mouse_timed_state, keyboard_long_press_scheduler: self.keyboard_long_press_scheduler, keyboard_click_exact_scheduler: self.keyboard_click_exact_scheduler, mouse_long_press_scheduler: self.mouse_long_press_scheduler, mouse_click_exact_scheduler: self.mouse_click_exact_scheduler }
    }

    fn with_field(self, value: TsKe) -> (res: GlobalState<Mo, TsKe, TsMo, ShKeLo, ShKeCl, ShMoLo, ShMoCl>) {
        GlobalState { modifiers: self.modifiers, keyboard_timed_state: value, mouse_timed_state: self.mouse_timed_state, keyboard_long_press_scheduler: self.keyboard_long_press_scheduler, keyboard_click_exact_scheduler: self.keyboard_click_exact_scheduler, mouse_long_press_scheduler: self.mouse_long_press_scheduler, mouse_click_exact_scheduler: self.mouse_click_exact_scheduler }
    }
}

impl<Mo, TsKe, TsMo, ShKeLo, ShKeCl, ShMoLo, ShMoCl> StructTakeField<TsMo, MouseTimedStateMarker> for GlobalState<Mo, TsKe, TsMo, ShKeLo, ShKeCl, ShMoLo, ShMoCl> {
    type Rest = GlobalState<Mo, TsKe, (), ShKeLo, ShKeCl, ShMoLo, ShMoCl>;

    open spec fn field_value(self) -> TsMo {
        self.mouse_timed_state
    }

    open spec fn rest(self) -> GlobalState<Mo, TsKe, (), ShKeLo, ShKeCl, ShMoLo, ShMoCl> {
        GlobalState { modifiers: self.modifiers, keyboard_timed_state: self.keyboard_timed_state, mouse_timed_state: (), keyboard_long_press_scheduler: self.keyboard_long_press_scheduler, keyboard_click_exact_scheduler: self.keyboard_click_exact_scheduler, mouse_long_press_scheduler: self.mouse_long_press_scheduler, mouse_click_exact_scheduler: self.mouse_click_exact_scheduler }
    }

    fn take_field(self) -> (res: (TsMo, GlobalState<Mo, TsKe, (), ShKeLo, ShKeCl, ShMoLo, ShMoCl>)) {
        (self.mouse_timed_state, GlobalState { modifiers: self.modifiers, keyboard_timed_state: self.keyboard_timed_state, mouse_timed_state: (), keyboard_long_press_scheduler: self.keyboard_long_press_scheduler, keyboard_click_exact_scheduler: self.keyboard_click_exact_scheduler, mouse_long_press_scheduler: self.mouse_long_press_scheduler, mouse_click_exact_scheduler: self.mouse_click_exact_scheduler })
    }
}

impl<Mo, TsKe, TsMo, ShKeLo, ShKeCl, ShMoLo, ShMoCl> StructWithField<TsMo, MouseTimedStateMarker> for GlobalState<Mo, TsKe, (), ShKeLo, ShKeCl, ShMoLo, ShMoCl> {
    type Output = GlobalState<Mo, TsKe, TsMo, ShKeLo, ShKeCl, ShMoLo, ShMoCl>;

    open spec fn filled(self, value: TsMo) -> GlobalState<Mo, TsKe, TsMo, ShKeLo, ShKeCl, ShMoLo, ShMoCl> {
        GlobalState { modifiers: self.modifiers, keyboard_timed_state: self.keyboard_timed_state, mouse_timed_state: value, keyboard_long_press_scheduler: self.keyboard_long_press_scheduler, keyboard_click_exact_scheduler: self.keyboard_click_exact_scheduler, mouse_long_press_scheduler: self.mouse_long_press_scheduler, mouse_click_exact_scheduler: self.mouse_click_exact_scheduler }
    }

    fn with_field(self, value: TsMo) -> (res: GlobalState<Mo, TsKe, TsMo, ShKeLo, ShKeCl, ShMoLo, ShMoCl>) {
        GlobalState { modifiers: self.modifiers, keyboard_timed_state: self.keyboard_timed_state, mouse_timed_state: value, keyboard_long_press_scheduler: self.keyboard_long_press_scheduler, keyboard_click_exact_scheduler: self.keyboard_click_exact_scheduler, mouse_long_press_scheduler: self.mouse_long_press_scheduler, mouse_click_exact_scheduler: self.mouse_click_exact_scheduler }
    }
}

impl<Mo, TsKe, TsMo, ShKeLo, ShKeCl, ShMoLo, ShMoCl> StructTakeField<ShKeLo, KeyboardLongPressSchedulerMarker> for GlobalState<Mo, TsKe, TsMo, ShKeLo, ShKeCl, ShMoLo, ShMoCl> {
    type Rest = GlobalState<Mo, TsKe, TsMo, (), ShKeCl, ShMoLo, ShMoCl>;

    open spec fn field_value(self) -> ShKeLo {
        self.keyboard_long_press_scheduler
    }

    open spec fn rest(self) -> GlobalState<Mo, TsKe, TsMo, (), ShKeCl, ShMoLo, ShMoCl> {
        GlobalState { modifiers: self.modifiers, keyboard_timed_state: self.keyboard_timed_state, mouse_timed_state: self.mouse_timed_state, keyboard_long_press_scheduler: (), keyboard_click_exact_scheduler: self.keyboard_click_exact_scheduler, mouse_long_press_scheduler: self.mouse_long_press_scheduler, mouse_click_exact_scheduler: self.mouse_click_exact_scheduler }
    }

    fn take_field(self) -> (res: (ShKeLo, GlobalState<Mo, TsKe, TsMo, (), ShKeCl, ShMoLo, ShMoCl>)) {
        (self.keyboard_long_press_scheduler, GlobalState { modifiers: self.modifiers, keyboard_timed_state: self.keyboard_timed_state, mouse_timed_state: self.mouse_timed_state, keyboard_long_press_scheduler: (), keyboard_click_exact_scheduler: self.keyboard_click_exact_scheduler, mouse_long_press_scheduler: self.mouse_long_press_scheduler, mouse_click_exact_scheduler: self.mouse_click_exact_scheduler })
    }
}

impl<Mo, TsKe, TsMo, ShKeLo, ShKeCl, ShMoLo, ShMoCl> StructWithField<ShKeLo, KeyboardLongPressSchedulerMarker> for GlobalState<Mo, TsKe, TsMo, (), ShKeCl, ShMoLo, ShMoCl> {
    type Output = GlobalState<Mo, TsKe, TsMo, ShKeLo, ShKeCl, ShMoLo, ShMoCl>;

    open spec fn filled(self, value: ShKeLo) -> GlobalState<Mo, TsKe, TsMo, ShKeLo, ShKeCl, ShMoLo, ShMoCl> {
        GlobalState { modifiers: self.modifiers, keyboard_timed_state: self.keyboard_timed_state, mouse_timed_state: self.mouse_timed_state, keyboard_long_press_scheduler: value, keyboard_click_exact_scheduler: self.keyboard_click_exact_scheduler, mouse_long_press_scheduler: self.mouse_long_press_scheduler, mouse_click_exact_scheduler: self.mouse_click_exact_scheduler }
    }

    fn with_field(self, value: ShKeLo) -> (res: GlobalState<Mo, TsKe, TsMo, ShKeLo, ShKeCl, ShMoLo, ShMoCl>) {
        GlobalState { modifiers: self.modifiers, keyboard_timed_state: self.keyboard_timed_state, mouse_timed_state: self.mouse_timed_state, keyboard_long_press_scheduler: value, keyboard_click_exact_scheduler: self.keyboard_click_exact_scheduler, mouse_long_press_scheduler: self.mouse_long_press_scheduler, mouse_click_exact_scheduler: self.mouse_click_exact_scheduler }
    }
}

impl<Mo, TsKe, TsMo, ShKeLo, ShKeCl, ShMoLo, ShMoCl> StructTakeField<ShKeCl, KeyboardClickExactSchedulerMarker> for GlobalState<Mo, TsKe, TsMo, ShKeLo, ShKeCl, ShMoLo, ShMoCl> {
    type Rest = GlobalState<Mo, TsKe, TsMo, ShKeLo, (), ShMoLo, ShMoCl>;

    open spec fn field_value(self) -> ShKeCl {
        self.keyboard_click_exact_scheduler
    }

    open spec fn rest(self) -> GlobalState<Mo, TsKe, TsMo, ShKeLo, (), ShMoLo, ShMoCl> {
        GlobalState { modifiers: self.modifiers, keyboard_timed_state: self.keyboard_timed_state, mouse_timed_state: self.mouse_timed_state, keyboard_long_press_scheduler: self.keyboard_long_press_scheduler, keyboard_click_exact_scheduler: (), mouse_long_press_scheduler: self.mouse_long_press_scheduler, mouse_click_exact_scheduler: self.mouse_click_exact_scheduler }
    }

    fn take_field(self) -> (res: (ShKeCl, GlobalState<Mo, TsKe, TsMo, ShKeLo, (), ShMoLo, ShMoCl>)) {
        (self.keyboard_click_exact_scheduler, GlobalState { modifiers: self.modifiers, keyboard_timed_state: self.keyboard_timed_state, mouse_timed_state: self.mouse_timed_state, keyboard_long_press_scheduler: self.keyboard_long_press_scheduler, keyboard_click_exact_scheduler: (), mouse_long_press_scheduler: self.mouse_long_press_scheduler, mouse_click_exact_scheduler: self.mouse_click_exact_scheduler })
    }
}

impl<Mo, TsKe, TsMo, ShKeLo, ShKeCl, ShMoLo, ShMoCl> StructWithField<ShKeCl, KeyboardClickExactSchedulerMarker> for GlobalState<Mo, TsKe, TsMo, ShKeLo, (), ShMoLo, ShMoCl> {
    type Output = GlobalState<Mo, TsKe, TsMo, ShKeLo, ShKeCl, ShMoLo, ShMoCl>;

    open spec fn filled(self, value: ShKeCl) -> GlobalState<Mo, TsKe, TsMo, ShKeLo, ShKeCl, ShMoLo, ShMoCl> {
        GlobalState { modifiers: self.modifiers, keyboard_timed_state: self.keyboard_timed_state, mouse_timed_state: self.mouse_timed_state, keyboard_long_press_scheduler: self.keyboard_long_press_scheduler, keyboard_click_exact_scheduler: value, mouse_long_press_scheduler: self.mouse_long_press_scheduler, mouse_click_exact_scheduler: self.mouse_click_exact_scheduler }
    }

    fn with_field(self, value: ShKeCl) -> (res: GlobalState<Mo, TsKe, TsMo, ShKeLo, ShKeCl, ShMoLo, ShMoCl>) {
        GlobalState { modifiers: self.modifiers, keyboard_timed_state: self.keyboard_timed_state, mouse_timed_state: self.mouse_timed_state, keyboard_long_press_scheduler: self.keyboard_long_press_scheduler, keyboard_click_exact_scheduler: value, mouse_long_press_scheduler: self.mouse_long_press_scheduler, mouse_click_exact_scheduler: self.mouse_click_exact_scheduler }
    }
}

impl<Mo, TsKe, TsMo, ShKeLo, ShKeCl, ShMoLo, ShMoCl> StructTakeField<ShMoLo, MouseLongPressSchedulerMarker> for GlobalState<Mo, TsKe, TsMo, ShKeLo, ShKeCl, ShMoLo, ShMoCl> {
    type Rest = GlobalState<Mo, TsKe, TsMo, ShKeLo, ShKeCl, (), ShMoCl>;

    open spec fn field_value(self) -> ShMoLo {
        self.mouse_long_press_scheduler
    }

    open spec fn rest(self) -> GlobalState<Mo, TsKe, TsMo, ShKeLo, ShKeCl, (), ShMoCl> {
        GlobalState { modifiers: self.modifiers, keyboard_timed_state: self.keyboard_timed_state, mouse_timed_state: self.mouse_timed_state, keyboard_long_press_scheduler: self.keyboard_long_press_scheduler, keyboard_click_exact_scheduler: self.keyboard_click_exact_scheduler, mouse_long_press_scheduler: (), mouse_click_exact_scheduler: self.mouse_click_exact_scheduler }
    }

    fn take_field(self) -> (res: (ShMoLo, GlobalState<Mo, TsKe, TsMo, ShKeLo, ShKeCl, (), ShMoCl>)) {
        (self.mouse_long_press_scheduler, GlobalState { modifiers: self.modifiers, keyboard_timed_state: self.keyboard_timed_state, mouse_timed_state: self.mouse_timed_state, keyboard_long_press_scheduler: self.keyboard_long_press_scheduler, keyboard_click_exact_scheduler: self.keyboard_click_exact_scheduler, mouse_long_press_scheduler: (), mouse_click_exact_scheduler: self.mouse_click_exact_scheduler })
    }
}

impl<Mo, TsKe, TsMo, ShKeLo, ShKeCl, ShMoLo, ShMoCl> StructWithField<ShMoLo, MouseLongPressSchedulerMarker> for GlobalState<Mo, TsKe, TsMo, ShKeLo, ShKeCl, (), ShMoCl> {
    type Output = GlobalState<Mo, TsKe, TsMo, ShKeLo, ShKeCl, ShMoLo, ShMoCl>;

    open spec fn filled(self, value: ShMoLo) -> GlobalState<Mo, TsKe, TsMo, ShKeLo, ShKeCl, ShMoLo, ShMoCl> {
        GlobalState { modifiers: self.modifiers, keyboard_timed_state: self.keyboard_timed_state, mouse_timed_state: self.mouse_timed_state, keyboard_long_press_scheduler: self.keyboard_long_press_scheduler, keyboard_click_exact_scheduler: self.keyboard_click_exact_scheduler, mouse_long_press_scheduler: value, mouse_click_exact_scheduler: self.mouse_click_exact_scheduler }
    }

    fn with_field(self, value: ShMoLo) -> (res: GlobalState<Mo, TsKe, TsMo, ShKeLo, ShKeCl, ShMoLo, ShMoCl>) {
        GlobalState { modifiers: self.modifiers, keyboard_timed_state: self.keyboard_timed_state, mouse_timed_state: self.mouse_timed_state, keyboard_long_press_scheduler: self.keyboard_long_press_scheduler, keyboard_click_exact_scheduler: self.keyboard_click_exact_scheduler, mouse_long_press_scheduler: value, mouse_click_exact_scheduler: self.mouse_click_exact_scheduler }
    }
}

impl<Mo, TsKe, TsMo, ShKeLo, ShKeCl, ShMoLo, ShMoCl> StructTakeField<ShMoCl, MouseClickExactSchedulerMarker> for GlobalState<Mo, TsKe, TsMo, ShKeLo, ShKeCl, ShMoLo, ShMoCl> {
    type Rest = GlobalState<Mo, TsKe, TsMo, ShKeLo, ShKeCl, ShMoLo, ()>;

    open spec fn field_value(self) -> ShMoCl {
        self.mouse_click_exact_scheduler
    }

    open spec fn rest(self) -> GlobalState<Mo, TsKe, TsMo, ShKeLo, ShKeCl, ShMoLo, ()> {
        GlobalState { modifiers: self.modifiers, keyboard_timed_state: self.keyboard_timed_state, mouse_timed_state: self.mouse_timed_state, keyboard_long_press_scheduler: self.keyboard_long_press_scheduler, keyboard_click_exact_scheduler: self.keyboard_click_exact_scheduler, mouse_long_press_scheduler: self.mouse_long_press_scheduler, mouse_click_exact_scheduler: () }
    }

    fn take_field(self) -> (res: (ShMoCl, GlobalState<Mo, TsKe, TsMo, ShKeLo, ShKeCl, ShMoLo, ()>)) {
        (self.mouse_click_exact_scheduler, GlobalState { modifiers: self.modifiers, keyboard_timed_state: self.keyboard_timed_state, mouse_timed_state: self.mouse_timed_state, keyboard_long_press_scheduler: self.keyboard_long_press_scheduler, keyboard_click_exact_scheduler: self.keyboard_click_exact_scheduler, mouse_long_press_scheduler: self.mouse_long_press_scheduler, mouse_click_exact_scheduler: () })
    }
}

impl<Mo, TsKe, TsMo, ShKeLo, ShKeCl, ShMoLo, ShMoCl> StructWithField<ShMoCl, MouseClickExactSchedulerMarker> for GlobalState<Mo, TsKe, TsMo, ShKeLo, ShKeCl, ShMoLo, ()> {
    type Output = GlobalState<Mo, TsKe, TsMo, ShKeLo, ShKeCl, ShMoLo, ShMoCl>;

    open spec fn filled(self, value: ShMoCl) -> GlobalState<Mo, TsKe, TsMo, ShKeLo, ShKeCl, ShMoLo, ShMoCl> {
        GlobalState { modifiers: self.modifiers, keyboard_timed_state: self.keyboard_timed_state, mouse_timed_state: self.mouse_timed_state, keyboard_long_press_scheduler: self.keyboard_long_press_scheduler, keyboard_click_exact_scheduler: self.keyboard_click_exact_scheduler, mouse_long_press_scheduler: self.mouse_long_press_scheduler, mouse_click_exact_scheduler: value }
    }

    fn with_field(self, value: ShMoCl) -> (res: GlobalState<Mo, TsKe, TsMo, ShKeLo, ShKeCl, ShMoLo, ShMoCl>) {
        GlobalState { modifiers: self.modifiers, keyboard_timed_state: self.keyboard_timed_state, mouse_timed_state: self.mouse_timed_state, keyboard_long_press_scheduler: self.keyboard_long_press_scheduler, keyboard_click_exact_scheduler: self.keyboard_click_exact_scheduler, mouse_long_press_scheduler: self.mouse_long_press_scheduler, mouse_click_exact_scheduler: value }
    }
}

impl<Mo, TsKe, TsMo, ShKeLo, ShKeCl, ShMoLo, ShMoCl> GlobalState<Mo, TsKe, TsMo, ShKeLo, ShKeCl, ShMoLo, ShMoCl> {
    /// Builds the state from its parts.
    pub fn new(
        modifiers: Mo,
        keyboard_timed_state: TsKe,
        mouse_timed_state: TsMo,
        keyboard_long_press_scheduler: ShKeLo,
        keyboard_click_exact_scheduler: ShKeCl,
        mouse_long_press_scheduler: ShMoLo,
        mouse_click_exact_scheduler: ShMoCl,
    ) -> (res: Self)
        ensures
            res.modifiers == modifiers,
            res.keyboard_timed_state == keyboard_timed_state,
            res.mouse_timed_state == mouse_timed_state,
            res.keyboard_long_press_scheduler == keyboard_long_press_scheduler,
            res.keyboard_click_exact_scheduler == keyboard_click_exact_scheduler,
            res.mouse_long_press_scheduler == mouse_long_press_scheduler,
            res.mouse_click_exact_scheduler == mouse_click_exact_scheduler,
    {
        Self {
            modifiers,
            keyboard_timed_state,
            mouse_timed_state,
            keyboard_long_press_scheduler,
            keyboard_click_exact_scheduler,
            mouse_long_press_scheduler,
            mouse_click_exact_scheduler,
        }
    }

    /// Takes out the shared modifiers and the timing state and scheduler marked
    /// by `Ma2` and `Ma3`, and gives back what remains.
    pub fn take_state<Ts, Sh, Re1, Ma1, Re2, Ma2, Re3, Ma3>(self) -> (res: (State<Mo, Ts, Sh, ()>, Re3)) where
        Self: StructTakeField<Mo, Ma1, Rest = Re1>,
        Re1: StructTakeField<Ts, Ma2, Rest = Re2>,
        Re2: StructTakeField<Sh, Ma3, Rest = Re3>,

        ensures
            res.0.modifiers == StructTakeField::<Mo, Ma1>::field_value(self),
            res.0.timed_state == StructTakeField::<Ts, Ma2>::field_value(
                StructTakeField::<Mo, Ma1>::rest(self),
            ),
            res.0.scheduler == StructTakeField::<Sh, Ma3>::field_value(
                StructTakeField::<Ts, Ma2>::rest(StructTakeField::<Mo, Ma1>::rest(self)),
            ),
            res.1 == StructTakeField::<Sh, Ma3>::rest(
                StructTakeField::<Ts, Ma2>::rest(StructTakeField::<Mo, Ma1>::rest(self)),
            ),
    {
        let (modifiers, rest) = self.take_field();
        let (timed_state, rest) = rest.take_field();
        let (scheduler, rest) = rest.take_field();
        (State::new(modifiers, timed_state, scheduler, ()), rest)
    }
}

impl<TsKe, TsMo, ShKeLo, ShKeCl, ShMoLo, ShMoCl> GlobalState<(), TsKe, TsMo, ShKeLo, ShKeCl, ShMoLo, ShMoCl> {
    /// Puts the parts of `state` back into the places marked by `Ma1`, `Ma2`
    /// and `Ma3`.
    pub fn with_state<Mo, Ts, Sh, Re1, Ma1, Re2, Ma2, Re3, Ma3>(self, state: State<Mo, Ts, Sh, ()>) -> (res: Re3) where
        Self: StructWithField<Mo, Ma1, Output = Re1>,
        Re1: StructWithField<Ts, Ma2, Output = Re2>,
        Re2: StructWithField<Sh, Ma3, Output = Re3>,

        ensures
            res == StructWithField::<Sh, Ma3>::filled(
                StructWithField::<Ts, Ma2>::filled(
                    StructWithField::<Mo, Ma1>::filled(self, state.modifiers),
                    state.timed_state,
                ),
                state.scheduler,
            ),
    {
        self.with_field(state.modifiers).with_field(state.timed_state).with_field(state.scheduler)
    }
}

/// Taking any part out of a state and putting it back gives the state
/// back; putting a value into an empty place and taking it out again gives
/// the value back and leaves the place empty as before.
pub proof fn law_take_and_put_back<Mo, TsKe, TsMo, ShKeLo, ShKeCl, ShMoLo, ShMoCl>(s: GlobalState<Mo, TsKe, TsMo, ShKeLo, ShKeCl, ShMoLo, ShMoCl>)
    ensures
        StructWithField::<Mo, GlobalModifiersMarker>::filled(
            StructTakeField::<Mo, GlobalModifiersMarker>::rest(s),
            StructTakeField::<Mo, GlobalModifiersMarker>::field_value(s),
        ) == s,
        StructWithField::<TsKe, KeyboardTimedStateMarker>::filled(
            StructTakeField::<TsKe, KeyboardTimedStateMarker>::rest(s),
            StructTakeField::<TsKe, KeyboardTimedStateMarker>::field_value(s),
        ) == s,
        StructWithField::<TsMo, MouseTimedStateMarker>::filled(
            StructTakeField::<TsMo, MouseTimedStateMarker>::rest(s),
            StructTakeField::<TsMo, MouseTimedStateMarker>::field_value(s),
        ) == s,
        StructWithField::<ShKeLo, KeyboardLongPressSchedulerMarker>::filled(
            StructTakeField::<ShKeLo, KeyboardLongPressSchedulerMarker>::rest(s),
            StructTakeField::<ShKeLo, KeyboardLongPressSchedulerMarker>::field_value(s),
        ) == s,
        StructWithField::<ShKeCl, KeyboardClickExactSchedulerMarker>::filled(
            StructTakeField::<ShKeCl, KeyboardClickExactSchedulerMarker>::rest(s),
            StructTakeField::<ShKeCl, KeyboardClickExactSchedulerMarker>::field_value(s),
        ) == s,
        StructWithField::<ShMoLo, MouseLongPressSchedulerMarker>::filled(
            StructTakeField::<ShMoLo, MouseLongPressSchedulerMarker>::rest(s),
            StructTakeField::<ShMoLo, MouseLongPressSchedulerMarker>::field_value(s),
        ) == s,
        StructWithField::<ShMoCl, MouseClickExactSchedulerMarker>::filled(
            StructTakeField::<ShMoCl, MouseClickExactSchedulerMarker>::rest(s),
            StructTakeField::<ShMoCl, MouseClickExactSchedulerMarker>::field_value(s),
        ) == s,
        forall|v: Mo|
            StructTakeField::<Mo, GlobalModifiersMarker>::field_value(
                #[trigger] StructWithField::<Mo, GlobalModifiersMarker>::filled(StructTakeField::<Mo, GlobalModifiersMarker>::rest(s), v),
            ) == v,
        forall|v: Mo|
            StructTakeField::<Mo, GlobalModifiersMarker>::rest(
                #[trigger] StructWithField::<Mo, GlobalModifiersMarker>::filled(StructTakeField::<Mo, GlobalModifiersMarker>::rest(s), v),
            ) == StructTakeField::<Mo, GlobalModifiersMarker>::rest(s),
        forall|v: TsKe|
            StructTakeField::<TsKe, KeyboardTimedStateMarker>::field_value(
                #[trigger] StructWithField::<TsKe, KeyboardTimedStateMarker>::filled(StructTakeField::<TsKe, KeyboardTimedStateMarker>::rest(s), v),
            ) == v,
        forall|v: TsKe|
            StructTakeField::<TsKe, KeyboardTimedStateMarker>::rest(
                #[trigger] StructWithField::<TsKe, KeyboardTimedStateMarker>::filled(StructTakeField::<TsKe, KeyboardTimedStateMarker>::rest(s), v),
            ) == StructTakeField::<TsKe, KeyboardTimedStateMarker>::rest(s),
        forall|v: TsMo|
            StructTakeField::<TsMo, MouseTimedStateMarker>::field_value(
                #[trigger] StructWithField::<TsMo, MouseTimedStateMarker>::filled(StructTakeField::<TsMo, MouseTimedStateMarker>::rest(s), v),
            ) == v,
        forall|v: TsMo|
            StructTakeField::<TsMo, MouseTimedStateMarker>::rest(
                #[trigger] StructWithField::<TsMo, MouseTimedStateMarker>::filled(StructTakeField::<TsMo, MouseTimedStateMarker>::rest(s), v),
            ) == StructTakeField::<TsMo, MouseTimedStateMarker>::rest(s),
        forall|v: ShKeLo|
            StructTakeField::<ShKeLo, KeyboardLongPressSchedulerMarker>::field_value(
                #[trigger] StructWithField::<ShKeLo, KeyboardLongPressSchedulerMarker>::filled(StructTakeField::<ShKeLo, KeyboardLongPressSchedulerMarker>::rest(s), v),
            ) == v,
        forall|v: ShKeLo|
            StructTakeField::<ShKeLo, KeyboardLongPressSchedulerMarker>::rest(
                #[trigger] StructWithField::<ShKeLo, KeyboardLongPressSchedulerMarker>::filled(StructTakeField::<ShKeLo, KeyboardLongPressSchedulerMarker>::rest(s), v),
            ) == StructTakeField::<ShKeLo, KeyboardLongPressSchedulerMarker>::rest(s),
        forall|v: ShKeCl|
            StructTakeField::<ShKeCl, KeyboardClickExactSchedulerMarker>::field_value(
                #[trigger] StructWithField::<ShKeCl, KeyboardClickExactSchedulerMarker>::filled(StructTakeField::<ShKeCl, KeyboardClickExactSchedulerMarker>::rest(s), v),
            ) == v,
        forall|v: ShKeCl|
            StructTakeField::<ShKeCl, KeyboardClickExactSchedulerMarker>::rest(
                #[trigger] StructWithField::<ShKeCl, KeyboardClickExactSchedulerMarker>::filled(StructTakeField::<ShKeCl, KeyboardClickExactSchedulerMarker>::rest(s), v),
            ) == StructTakeField::<ShKeCl, KeyboardClickExactSchedulerMarker>::rest(s),
        forall|v: ShMoLo|
            StructTakeField::<ShMoLo, MouseLongPressSchedulerMarker>::field_value(
                #[trigger] StructWithField::<ShMoLo, MouseLongPressSchedulerMarker>::filled(StructTakeField::<ShMoLo, MouseLongPressSchedulerMarker>::rest(s), v),
            ) == v,
        forall|v: ShMoLo|
            StructTakeField::<ShMoLo, MouseLongPressSchedulerMarker>::rest(
                #[trigger] StructWithField::<ShMoLo, MouseLongPressSchedulerMarker>::filled(StructTakeField::<ShMoLo, MouseLongPressSchedulerMarker>::rest(s), v),
            ) == StructTakeField::<ShMoLo, MouseLongPressSchedulerMarker>::rest(s),
        forall|v: ShMoCl|
            StructTakeField::<ShMoCl, MouseClickExactSchedulerMarker>::field_value(
                #[trigger] StructWithField::<ShMoCl, MouseClickExactSchedulerMarker>::filled(StructTakeField::<ShMoCl, MouseClickExactSchedulerMarker>::rest(s), v),
            ) == v,
        forall|v: ShMoCl|
            StructTakeField::<ShMoCl, MouseClickExactSchedulerMarker>::rest(
                #[trigger] StructWithField::<ShMoCl, MouseClickExactSchedulerMarker>::filled(StructTakeField::<ShMoCl, MouseClickExactSchedulerMarker>::rest(s), v),
            ) == StructTakeField::<ShMoCl, MouseClickExactSchedulerMarker>::rest(s),
{
}

/// Taking out the modifiers, one timed state and one scheduler together
/// (`take_state`) and putting them back (`with_state`) with the same markers
/// gives the state back: the three parts return to their places and the
/// four others are never changed.
pub proof fn law_take_state_then_with_state<Mo, TsKe, TsMo, ShKeLo, ShKeCl, ShMoLo, ShMoCl>(g: GlobalState<Mo, TsKe, TsMo, ShKeLo, ShKeCl, ShMoLo, ShMoCl>)
    ensures
        ({
            let r1 = StructTakeField::<Mo, GlobalModifiersMarker>::rest(g);
            let r2 = StructTakeField::<TsKe, KeyboardTimedStateMarker>::rest(r1);
            let r3 = StructTakeField::<ShKeLo, KeyboardLongPressSchedulerMarker>::rest(r2);
            StructWithField::<ShKeLo, KeyboardLongPressSchedulerMarker>::filled(
                StructWithField::<TsKe, KeyboardTimedStateMarker>::filled(
                    StructWithField::<Mo, GlobalModifiersMarker>::filled(
                        r3,
                        StructTakeField::<Mo, GlobalModifiersMarker>::field_value(g),
                    ),
                    StructTakeField::<TsKe, KeyboardTimedStateMarker>::field_value(r1),
                ),
                StructTakeField::<ShKeLo, KeyboardLongPressSchedulerMarker>::field_value(r2),
            ) == g
        }),
        ({
            let r1 = StructTakeField::<Mo, GlobalModifiersMarker>::rest(g);
            let r2 = StructTakeField::<TsKe, KeyboardTimedStateMarker>::rest(r1);
            let r3 = StructTakeField::<ShKeCl, KeyboardClickExactSchedulerMarker>::rest(r2);
            StructWithField::<ShKeCl, KeyboardClickExactSchedulerMarker>::filled(
                StructWithField::<TsKe, KeyboardTimedStateMarker>::filled(
                    StructWithField::<Mo, GlobalModifiersMarker>::filled(
                        r3,
                        StructTakeField::<Mo, GlobalModifiersMarker>::field_value(g),
                    ),
                    StructTakeField::<TsKe, KeyboardTimedStateMarker>::field_value(r1),
                ),
                StructTakeField::<ShKeCl, KeyboardClickExactSchedulerMarker>::field_value(r2),
            ) == g
        }),
        ({
            let r1 = StructTakeField::<Mo, GlobalModifiersMarker>::rest(g);
            let r2 = StructTakeField::<TsKe, KeyboardTimedStateMarker>::rest(r1);
            let r3 = StructTakeField::<ShMoLo, MouseLongPressSchedulerMarker>::rest(r2);
            StructWithField::<ShMoLo, MouseLongPressSchedulerMarker>::filled(
                StructWithField::<TsKe, KeyboardTimedStateMarker>::filled(
                    StructWithField::<Mo, GlobalModifiersMarker>::filled(
                        r3,
                        StructTakeField::<Mo, GlobalModifiersMarker>::field_value(g),
                    ),
                    StructTakeField::<TsKe, KeyboardTimedStateMarker>::field_value(r1),
                ),
                StructTakeField::<ShMoLo, MouseLongPressSchedulerMarker>::field_value(r2),
            ) == g
        }),
        ({
            let r1 = StructTakeField::<Mo, GlobalModifiersMarker>::rest(g);
            let r2 = StructTakeField::<TsKe, KeyboardTimedStateMarker>::rest(r1);
            let r3 = StructTakeField::<ShMoCl, MouseClickExactSchedulerMarker>::rest(r2);
            StructWithField::<ShMoCl, MouseClickExactSchedulerMarker>::filled(
                StructWithField::<TsKe, KeyboardTimedStateMarker>::filled(
                    StructWithField::<Mo, GlobalModifiersMarker>::filled(
                        r3,
                        StructTakeField::<Mo, GlobalModifiersMarker>::field_value(g),
                    ),
                    StructTakeField::<TsKe, KeyboardTimedStateMarker>::field_value(r1),
                ),
                StructTakeField::<ShMoCl, MouseClickExactSchedulerMarker>::field_value(r2),
            ) == g
        }),
        ({
            let r1 = StructTakeField::<Mo, GlobalModifiersMarker>::rest(g);
            let r2 = StructTakeField::<TsMo, MouseTimedStateMarker>::rest(r1);
            let r3 = StructTakeField::<ShKeLo, KeyboardLongPressSchedulerMarker>::rest(r2);
            StructWithField::<ShKeLo, KeyboardLongPressSchedulerMarker>::filled(
                StructWithField::<TsMo, MouseTimedStateMarker>::filled(
                    StructWithField::<Mo, GlobalModifiersMarker>::filled(
                        r3,
                        StructTakeField::<Mo, GlobalModifiersMarker>::field_value(g),
                    ),
                    StructTakeField::<TsMo, MouseTimedStateMarker>::field_value(r1),
                ),
                StructTakeField::<ShKeLo, KeyboardLongPressSchedulerMarker>::field_value(r2),
            ) == g
        }),
        ({
            let r1 = StructTakeField::<Mo, GlobalModifiersMarker>::rest(g);
            let r2 = StructTakeField::<TsMo, MouseTimedStateMarker>::rest(r1);
            let r3 = StructTakeField::<ShKeCl, KeyboardClickExactSchedulerMarker>::rest(r2);
            StructWithField::<ShKeCl, KeyboardClickExactSchedulerMarker>::filled(
                StructWithField::<TsMo, MouseTimedStateMarker>::filled(
                    StructWithField::<Mo, GlobalModifiersMarker>::filled(
                        r3,
                        StructTakeField::<Mo, GlobalModifiersMarker>::field_value(g),
                    ),
                    StructTakeField::<TsMo, MouseTimedStateMarker>::field_value(r1),
                ),
                StructTakeField::<ShKeCl, KeyboardClickExactSchedulerMarker>::field_value(r2),
            ) == g
        }),
        ({
            let r1 = StructTakeField::<Mo, GlobalModifiersMarker>::rest(g);
            let r2 = StructTakeField::<TsMo, MouseTimedStateMarker>::rest(r1);
            let r3 = StructTakeField::<ShMoLo, MouseLongPressSchedulerMarker>::rest(r2);
            StructWithField::<ShMoLo, MouseLongPressSchedulerMarker>::filled(
                StructWithField::<TsMo, MouseTimedStateMarker>::filled(
                    StructWithField::<Mo, GlobalModifiersMarker>::filled(
                        r3,
                        StructTakeField::<Mo, GlobalModifiersMarker>::field_value(g),
                    ),
                    StructTakeField::<TsMo, MouseTimedStateMarker>::field_value(r1),
                ),
                StructTakeField::<ShMoLo, MouseLongPressSchedulerMarker>::field_value(r2),
            ) == g
        }),
        ({
            let r1 = StructTakeField::<Mo, GlobalModifiersMarker>::rest(g);
            let r2 = StructTakeField::<TsMo, MouseTimedStateMarker>::rest(r1);
            let r3 = StructTakeField::<ShMoCl, MouseClickExactSchedulerMarker>::rest(r2);
            StructWithField::<ShMoCl, MouseClickExactSchedulerMarker>::filled(
                StructWithField::<TsMo, MouseTimedStateMarker>::filled(
                    StructWithField::<Mo, GlobalModifiersMarker>::filled(
                        r3,
                        StructTakeField::<Mo, GlobalModifiersMarker>::field_value(g),
                    ),
                    StructTakeField::<TsMo, MouseTimedStateMarker>::field_value(r1),
                ),
                StructTakeField::<ShMoCl, MouseClickExactSchedulerMarker>::field_value(r2),
            ) == g
        }),
{
}

} // verus!
