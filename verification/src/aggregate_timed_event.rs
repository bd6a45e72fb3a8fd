//! One event type for everything the timing state machine reports, whether
//! on an input event (click, long click) or on a timeout (long press, exact
//! click counts).

use vstd::prelude::*;

use crate::timed::{
    DelayedTimedEvent, DelayedTimedEventKind, DelayedTimedTransition, NumSwitches,
    ScheduledTimeout, TimedEvent, TimedEventKind, TimedState, TimedTransition,
};

verus! {

#[derive(Clone, Copy, Debug, Eq, PartialEq)]
pub enum AggregateTimedEventKind {
    Click,
    LongClick,
    LongPress,
    ClickExact,
    LongClickExact,
}

/// The aggregate kind of an immediate event kind.
pub open spec fn immediate_kind(kind: TimedEventKind) -> AggregateTimedEventKind {
    match kind {
        TimedEventKind::Click => AggregateTimedEventKind::Click,
        TimedEventKind::LongClick => AggregateTimedEventKind::LongClick,
    }
}

/// The aggregate kind of a delayed event kind.
pub open spec fn delayed_kind(kind: DelayedTimedEventKind) -> AggregateTimedEventKind {
    match kind {
        DelayedTimedEventKind::LongPress => AggregateTimedEventKind::LongPress,
        DelayedTimedEventKind::ClickExact => AggregateTimedEventKind::ClickExact,
        DelayedTimedEventKind::LongClickExact => AggregateTimedEventKind::LongClickExact,
    }
}

impl From<TimedEventKind> for AggregateTimedEventKind {
    fn from(kind: TimedEventKind) -> (res: Self) {
        match kind {
            TimedEventKind::Click => Self::Click,
            TimedEventKind::LongClick => Self::LongClick,
        }
    }
}

impl vstd::std_specs::convert::FromSpecImpl<TimedEventKind> for AggregateTimedEventKind {
    open spec fn obeys_from_spec() -> bool {
        true
    }

    open spec fn from_spec(kind: TimedEventKind) -> Self {
        immediate_kind(kind)
    }
}

impl From<DelayedTimedEventKind> for AggregateTimedEventKind {
    fn from(kind: DelayedTimedEventKind) -> (res: Self) {
        match kind {
            DelayedTimedEventKind::LongPress => Self::LongPress,
            DelayedTimedEventKind::ClickExact => Self::ClickExact,
            DelayedTimedEventKind::LongClickExact => Self::LongClickExact,
        }
    }
}

impl vstd::std_specs::convert::FromSpecImpl<DelayedTimedEventKind> for AggregateTimedEventKind {
    open spec fn obeys_from_spec() -> bool {
        true
    }

    open spec fn from_spec(kind: DelayedTimedEventKind) -> Self {
        delayed_kind(kind)
    }
}

/// A timed event of either origin.
#[derive(Clone, Debug, Eq, PartialEq)]
pub struct AggregateTimedEvent<Sw> {
    pub switch: Sw,
    pub kind: AggregateTimedEventKind,
    pub num_switches: NumSwitches,
}

/// Conversion into the aggregate form.
pub trait IntoAggregate<T>: Sized {
    /// The aggregate form of `self`.
    spec fn spec_into_aggregate(self) -> T;

    fn into_aggregate(self) -> (res: T)
        ensures
            res == self.spec_into_aggregate(),
    ;
}

impl<Sw> IntoAggregate<AggregateTimedEvent<Sw>> for TimedEvent<Sw> {
    open spec fn spec_into_aggregate(self) -> AggregateTimedEvent<Sw> {
        AggregateTimedEvent {
            switch: self@.0,
            kind: immediate_kind(self@.1),
            num_switches: self@.2,
        }
    }

    fn into_aggregate(self) -> (res: AggregateTimedEvent<Sw>) {
        let (switch, kind, num_switches) = self.into_parts();
        AggregateTimedEvent { switch, kind: AggregateTimedEventKind::from(kind), num_switches }
    }
}

impl<Sw> IntoAggregate<AggregateTimedEvent<Sw>> for DelayedTimedEvent<Sw> {
    open spec fn spec_into_aggregate(self) -> AggregateTimedEvent<Sw> {
        AggregateTimedEvent {
            switch: self@.0,
            kind: delayed_kind(self@.1),
            num_switches: self@.2,
        }
    }

    fn into_aggregate(self) -> (res: AggregateTimedEvent<Sw>) {
        let (switch, kind, num_switches) = self.into_parts();
        AggregateTimedEvent { switch, kind: AggregateTimedEventKind::from(kind), num_switches }
    }
}

/// A transition of either origin: `event` is the input event that caused it,
/// `None` for a timeout.
#[derive(Clone, Debug)]
pub struct AggregateTimedTransition<Ev, Sw> {
    pub event: Option<Ev>,
    pub timed_event: Option<AggregateTimedEvent<Sw>>,
    pub scheduled: Option<ScheduledTimeout<Sw>>,
    pub state: TimedState<Sw>,
}

/// The aggregate form of an optional event.
pub open spec fn aggregate_option<Sw, E: IntoAggregate<AggregateTimedEvent<Sw>>>(
    ev: Option<E>,
) -> Option<AggregateTimedEvent<Sw>> {
    match ev {
        Some(e) => Some(e.spec_into_aggregate()),
        None => None,
    }
}

fn into_aggregate_option<Sw, E: IntoAggregate<AggregateTimedEvent<Sw>>>(ev: Option<E>) -> (res:
    Option<AggregateTimedEvent<Sw>>)
    ensures
        res == aggregate_option(ev),
{
    match ev {
        Some(e) => Some(e.into_aggregate()),
        None => None,
    }
}

impl<Ev, Sw> IntoAggregate<AggregateTimedTransition<Ev, Sw>> for TimedTransition<Ev, Sw> {
    open spec fn spec_into_aggregate(self) -> AggregateTimedTransition<Ev, Sw> {
        AggregateTimedTransition {
            event: Some(self.event),
            timed_event: aggregate_option(self.timed_event),
            scheduled: self.scheduled,
            state: self.state,
        }
    }

    fn into_aggregate(self) -> (res: AggregateTimedTransition<Ev, Sw>) {
        AggregateTimedTransition {
            event: Some(self.event),
            timed_event: into_aggregate_option(self.timed_event),
            scheduled: self.scheduled,
            state: self.state,
        }
    }
}

impl<Ev, Sw> IntoAggregate<AggregateTimedTransition<Ev, Sw>> for DelayedTimedTransition<Sw> {
    open spec fn spec_into_aggregate(self) -> AggregateTimedTransition<Ev, Sw> {
        AggregateTimedTransition {
            event: None,
            timed_event: aggregate_option(self.timed_event),
            scheduled: self.scheduled,
            state: self.state,
        }
    }

    fn into_aggregate(self) -> (res: AggregateTimedTransition<Ev, Sw>) {
        AggregateTimedTransition {
            event: None,
            timed_event: into_aggregate_option(self.timed_event),
            scheduled: self.scheduled,
            state: self.state,
        }
    }
}

} // verus!
