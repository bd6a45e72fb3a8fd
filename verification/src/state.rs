//! The processing state of one device: modifiers, timing state, scheduler and
//! pointer state, each of which can be taken out and put back by type.

use vstd::prelude::*;

use crate::struct_field::{StructTakeField, StructWithField};

verus! {

#[derive(Clone, Debug, Default)]
pub struct State<Mo, Ts, Sh, Po> {
    pub modifiers: Mo,
    pub timed_state: Ts,
    pub scheduler: Sh,
    pub pointer_state: Po,
}

#[derive(Clone, Copy, Debug, Default, Eq, Hash, Ord, PartialEq, PartialOrd)]
pub struct ModifiersMarker;

#[derive(Clone, Copy, Debug, Default, Eq, Hash, Ord, PartialEq, PartialOrd)]
pub struct TimedStateMarker;

#[derive(Clone, Copy, Debug, Default, Eq, Hash, Ord, PartialEq, PartialOrd)]
pub struct SchedulerMarker;

#[derive(Clone, Copy, Debug, Default, Eq, Hash, Ord, PartialEq, PartialOrd)]
pub struct PointerMarker;

impl<Mo, Ts, Sh, Po> State<Mo, Ts, Sh, Po> {
    pub fn new(modifiers: Mo, timed_state: Ts, scheduler: Sh, pointer_state: Po) -> (res: Self)
        ensures
            res.modifiers == modifiers,
            res.timed_state == timed_state,
            res.scheduler == scheduler,
            res.pointer_state == pointer_state,
    {
        Self { modifiers, timed_state, scheduler, pointer_state }
    }
}

impl<Mo, Ts, Sh, Po> StructTakeField<Mo, ModifiersMarker> for State<Mo, Ts, Sh, Po> {
    type Rest = State<(), Ts, Sh, Po>;

    open spec fn field_value(self) -> Mo {
        self.modifiers
    }

    open spec fn rest(self) -> State<(), Ts, Sh, Po> {
        State { modifiers: (), timed_state: self.timed_state, scheduler: self.scheduler, pointer_state: self.pointer_state }
    }

    fn take_field(self) -> (res: (Mo, State<(), Ts, Sh, Po>)) {
        (self.modifiers, State { modifiers: (), timed_state: self.timed_state, scheduler: self.scheduler, pointer_state: self.pointer_state })
    }
}

impl<Mo, Ts, Sh, Po> StructWithField<Mo, ModifiersMarker> for State<(), Ts, Sh, Po> {
    type Output = State<Mo, Ts, Sh, Po>;

    open spec fn filled(self, value: Mo) -> State<Mo, Ts, Sh, Po> {
        State { modifiers: value, timed_state: self.timed_state, scheduler: self.scheduler, pointer_state: self.pointer_state }
    }

    fn with_field(self, value: Mo) -> (res: State<Mo, Ts, Sh, Po>) {
        State { modifiers: value, timed_state: self.timed_state, scheduler: self.scheduler, pointer_state: self.pointer_state }
    }
}

impl<Mo, Ts, Sh, Po> StructTakeField<Ts, TimedStateMarker> for State<Mo, Ts, Sh, Po> {
    type Rest = State<Mo, (), Sh, Po>;

    open spec fn field_value(self) -> Ts {
        self.timed_state
    }

    open spec fn rest(self) -> State<Mo, (), Sh, Po> {
        State { modifiers: self.modifiers, timed_state: (), scheduler: self.scheduler, pointer_state: self.pointer_state }
    }

    fn take_field(self) -> (res: (Ts, State<Mo, (), Sh, Po>)) {
        (self.timed_state, State { modifiers: self.modifiers, timed_state: (), scheduler: self.scheduler, pointer_state: self.pointer_state })
    }
}

impl<Mo, Ts, Sh, Po> StructWithField<Ts, TimedStateMarker> for State<Mo, (), Sh, Po> {
    type Output = State<Mo, Ts, Sh, Po>;

    open spec fn filled(self, value: Ts) -> State<Mo, Ts, Sh, Po> {
        State { modifiers: self.modifiers, timed_state: value, scheduler: self.scheduler, pointer_state: self.pointer_state }
    }

    fn with_field(self, value: Ts) -> (res: State<Mo, Ts, Sh, Po>) {
        State { modifiers: self.modifiers, timed_state: value, scheduler: self.scheduler, pointer_state: self.pointer_state }
    }
}

impl<Mo, Ts, Sh, Po> StructTakeField<Sh, SchedulerMarker> for State<Mo, Ts, Sh, Po> {
    type Rest = State<Mo, Ts, (), Po>;

    open spec fn field_value(self) -> Sh {
        self.scheduler
    }

    open spec fn rest(self) -> State<Mo, Ts, (), Po> {
        State { modifiers: self.modifiers, timed_state: self.timed_state, scheduler: (), pointer_state: self.pointer_state }
    }

    fn take_field(self) -> (res: (Sh, State<Mo, Ts, (), Po>)) {
        (self.scheduler, State { modifiers: self.modifiers, timed_state: self.timed_state, scheduler: (), pointer_state: self.pointer_state })
    }
}

impl<Mo, Ts, Sh, Po> StructWithField<Sh, SchedulerMarker> for State<Mo, Ts, (), Po> {
    type Output = State<Mo, Ts, Sh, Po>;

    open spec fn filled(self, value: Sh) -> State<Mo, Ts, Sh, Po> {
        State { modifiers: self.modifiers, timed_state: self.timed_state, scheduler: value, pointer_state: self.pointer_state }
    }

    fn with_field(self, value: Sh) -> (res: State<Mo, Ts, Sh, Po>) {
        State { modifiers: self.modifiers, timed_state: self.timed_state, scheduler: value, pointer_state: self.pointer_state }
    }
}

impl<Mo, Ts, Sh, Po> StructTakeField<Po, PointerMarker> for State<Mo, Ts, Sh, Po> {
    type Rest = State<Mo, Ts, Sh, ()>;

    open spec fn field_value(self) -> Po {
        self.pointer_state
    }

    open spec fn rest(self) -> State<Mo, Ts, Sh, ()> {
        State { modifiers: self.modifiers, timed_state: self.timed_state, scheduler: self.scheduler, pointer_state: () }
    }

    fn take_field(self) -> (res: (Po, State<Mo, Ts, Sh, ()>)) {
        (self.pointer_state, State { modifiers: self.modifiers, timed_state: self.timed_state, scheduler: self.scheduler, pointer_state: () })
    }
}

impl<Mo, Ts, Sh, Po> StructWithField<Po, PointerMarker> for State<Mo, Ts, Sh, ()> {
    type Output = State<Mo, Ts, Sh, Po>;

    open spec fn filled(self, value: Po) -> State<Mo, Ts, Sh, Po> {
        State { modifiers: self.modifiers, timed_state: self.timed_state, scheduler: self.scheduler, pointer_state: value }
    }

    fn with_field(self, value: Po) -> (res: State<Mo, Ts, Sh, Po>) {
        State { modifiers: self.modifiers, timed_state: self.timed_state, scheduler: self.scheduler, pointer_state: value }
    }
}

/// Taking any part out of a state and putting it back gives the state
/// back; putting a value into an empty place and taking it out again gives
/// the value back and leaves the place empty as before.
pub proof fn law_take_and_put_back<Mo, Ts, Sh, Po>(s: State<Mo, Ts, Sh, Po>)
    ensures
        StructWithField::<Mo, ModifiersMarker>::filled(
            StructTakeField::<Mo, ModifiersMarker>::rest(s),
            StructTakeField::<Mo, ModifiersMarker>::field_value(s),
        ) == s,
        StructWithField::<Ts, TimedStateMarker>::filled(
            StructTakeField::<Ts, TimedStateMarker>::rest(s),
            StructTakeField::<Ts, TimedStateMarker>::field_value(s),
        ) == s,
        StructWithField::<Sh, SchedulerMarker>::filled(
            StructTakeField::<Sh, SchedulerMarker>::rest(s),
            StructTakeField::<Sh, SchedulerMarker>::field_value(s),
        ) == s,
        StructWithField::<Po, PointerMarker>::filled(
            StructTakeField::<Po, PointerMarker>::rest(s),
            StructTakeField::<Po, PointerMarker>::field_value(s),
        ) == s,
        forall|v: Mo|
            StructTakeField::<Mo, ModifiersMarker>::field_value(
                #[trigger] StructWithField::<Mo, ModifiersMarker>::filled(StructTakeField::<Mo, ModifiersMarker>::rest(s), v),
            ) == v,
        forall|v: Mo|
            StructTakeField::<Mo, ModifiersMarker>::rest(
                #[trigger] StructWithField::<Mo, ModifiersMarker>::filled(StructTakeField::<Mo, ModifiersMarker>::rest(s), v),
            ) == StructTakeField::<Mo, ModifiersMarker>::rest(s),
        forall|v: Ts|
            StructTakeField::<Ts, TimedStateMarker>::field_value(
                #[trigger] StructWithField::<Ts, TimedStateMarker>::filled(StructTakeField::<Ts, TimedStateMarker>::rest(s), v),
            ) == v,
        forall|v: Ts|
            StructTakeField::<Ts, TimedStateMarker>::rest(
                #[trigger] StructWithField::<Ts, TimedStateMarker>::filled(StructTakeField::<Ts, TimedStateMarker>::rest(s), v),
            ) == StructTakeField::<Ts, TimedStateMarker>::rest(s),
        forall|v: Sh|
            StructTakeField::<Sh, SchedulerMarker>::field_value(
                #[trigger] StructWithField::<Sh, SchedulerMarker>::filled(StructTakeField::<Sh, SchedulerMarker>::rest(s), v),
            ) == v,
        forall|v: Sh|
            StructTakeField::<Sh, SchedulerMarker>::rest(
                #[trigger] StructWithField::<Sh, SchedulerMarker>::filled(StructTakeField::<Sh, SchedulerMarker>::rest(s), v),
            ) == StructTakeField::<Sh, SchedulerMarker>::rest(s),
        forall|v: Po|
            StructTakeField::<Po, PointerMarker>::field_value(
                #[trigger] StructWithField::<Po, PointerMarker>::filled(StructTakeField::<Po, PointerMarker>::rest(s), v),
            ) == v,
        forall|v: Po|
            StructTakeField::<Po, PointerMarker>::rest(
                #[trigger] StructWithField::<Po, PointerMarker>::filled(StructTakeField::<Po, PointerMarker>::rest(s), v),
            ) == StructTakeField::<Po, PointerMarker>::rest(s),
{
}

} // verus!
