//! Timing state machine driven by enable / disable actions of input events.
//!
//! Unlike `timed_event`, this machine asks its caller to schedule timeouts:
//! each transition that needs one returns a `ScheduledTimeout`, and the caller
//! hands the scheduled transition back through `with_timeout_event` once the
//! delay has expired.

use std::collections::HashMap;
use std::sync::Arc;
use vstd::prelude::*;

use crate::timed_event::SwitchPhase;

verus! {

broadcast use vstd::std_specs::hash::group_hash_axioms;

pub type NumSwitches = u32;

/// What an input event does to a switch.
#[derive(Clone, Copy, Debug, Eq, PartialEq)]
pub enum Action<Sw> {
    Enable(Sw),
    Disable(Sw),
}

/// An input event that may enable or disable a switch.
pub trait EventWithAction {
    type Switch;

    fn action(&self) -> Option<Action<Self::Switch>>;
}

/// A click reported as soon as the switch is released.
#[derive(Clone, Debug, Eq, PartialEq)]
pub struct TimedEvent<Sw> {
    switch: Sw,
    kind: TimedEventKind,
    num_switches: NumSwitches,
}

#[derive(Clone, Copy, Debug, Eq, PartialEq)]
pub enum TimedEventKind {
    Click,
    LongClick,
}

/// An event reported when a scheduled timeout expires.
#[derive(Clone, Debug, Eq, PartialEq)]
pub struct DelayedTimedEvent<Sw> {
    switch: Sw,
    kind: DelayedTimedEventKind,
    num_switches: NumSwitches,
}

#[derive(Clone, Copy, Debug, Eq, PartialEq)]
pub enum DelayedTimedEventKind {
    LongPress,
    ClickExact,
    LongClickExact,
}

/// Timing state of every switch that is currently in a click sequence.
#[derive(Debug)]
pub struct TimedState<Sw> {
    switches: HashMap<Sw, TimedSwitchState<Sw>>,
}

#[derive(Clone, Debug)]
struct TimedSwitchState<Sw> {
    kind: SwitchTimedStateKind<Sw>,
    num_switches: NumSwitches,
}

#[derive(Clone, Debug)]
enum SwitchTimedStateKind<Sw> {
    Pressed(Arc<ScheduledTransition<Sw>>),
    LongPressed,
    Released(Arc<ScheduledTransition<Sw>>),
    LongReleased(Arc<ScheduledTransition<Sw>>),
}

/// A timeout the caller has to schedule.
#[derive(Clone, Debug)]
pub struct ScheduledTimeout<Sw> {
    pub transition: Arc<ScheduledTransition<Sw>>,
    pub duration: Duration,
}

/// The transition to run once a scheduled timeout expires.
#[derive(Clone, Debug)]
pub struct ScheduledTransition<Sw> {
    switch: Sw,
}

/// Which delay a scheduled timeout waits for.
#[derive(Clone, Copy, Debug, Eq, PartialEq)]
pub enum Duration {
    LongClick,
    MultiClick,
}

/// Result of a successful input event.
#[derive(Clone, Debug)]
pub struct TimedTransition<Ev, Sw> {
    pub event: Ev,
    pub timed_event: Option<TimedEvent<Sw>>,
    pub scheduled: Option<ScheduledTimeout<Sw>>,
    pub state: TimedState<Sw>,
}

/// Result of a successful timeout.
#[derive(Clone, Debug)]
pub struct DelayedTimedTransition<Sw> {
    pub timed_event: Option<DelayedTimedEvent<Sw>>,
    pub scheduled: Option<ScheduledTimeout<Sw>>,
    pub state: TimedState<Sw>,
}

/// A rejected event together with the (unchanged) state.
#[derive(Clone, Debug)]
pub struct TimedTransitionError<Sw, E> {
    pub state: TimedState<Sw>,
    pub error: E,
}

#[derive(Clone, Copy, Debug, Eq, PartialEq)]
pub enum TimedInputError<Sw> {
    Enable(TimedInputEnableError<Sw>),
    Disable(TimedInputDisableError<Sw>),
}

#[derive(Clone, Copy, Debug, Eq, PartialEq)]
pub enum TimedInputEnableError<Sw> {
    AlreadyPressed { switch: Sw },
    AlreadyLongPressed { switch: Sw },
}

#[derive(Clone, Copy, Debug, Eq, PartialEq)]
pub enum TimedInputDisableError<Sw> {
    AlreadyReleased { switch: Sw },
    AlreadyLongPressed { switch: Sw },
}

#[derive(Clone, Copy, Debug, Eq, PartialEq)]
pub enum DelayedTimedEventError<Sw> {
    LongPressed { switch: Sw },
    DefaultButtonState { switch: Sw },
}

struct TimedSwitchTransition<Sw> {
    state: TimedSwitchState<Sw>,
    event: Option<TimedEvent<Sw>>,
    scheduled: Option<ScheduledTimeout<Sw>>,
}

struct DelayedTimedSwitchTransition<Sw> {
    state: Option<TimedSwitchState<Sw>>,
    event: Option<DelayedTimedEvent<Sw>>,
    scheduled: Option<ScheduledTimeout<Sw>>,
}

struct TimedSwitchTransitionError<Sw, E> {
    state: TimedSwitchState<Sw>,
    error: E,
}

impl<Sw> View for TimedEvent<Sw> {
    type V = (Sw, TimedEventKind, NumSwitches);

    closed spec fn view(&self) -> (Sw, TimedEventKind, NumSwitches) {
        (self.switch, self.kind, self.num_switches)
    }
}

impl<Sw> View for DelayedTimedEvent<Sw> {
    type V = (Sw, DelayedTimedEventKind, NumSwitches);

    closed spec fn view(&self) -> (Sw, DelayedTimedEventKind, NumSwitches) {
        (self.switch, self.kind, self.num_switches)
    }
}

impl<Sw> View for ScheduledTransition<Sw> {
    type V = Sw;

    closed spec fn view(&self) -> Sw {
        self.switch
    }
}

impl<Sw> View for TimedSwitchState<Sw> {
    type V = (SwitchPhase, NumSwitches);

    closed spec fn view(&self) -> (SwitchPhase, NumSwitches) {
        (
            match self.kind {
                SwitchTimedStateKind::Pressed(_) => SwitchPhase::Pressed,
                SwitchTimedStateKind::LongPressed => SwitchPhase::LongPressed,
                SwitchTimedStateKind::Released(_) => SwitchPhase::Released,
                SwitchTimedStateKind::LongReleased(_) => SwitchPhase::LongReleased,
            },
            self.num_switches,
        )
    }
}

impl<Sw> View for TimedState<Sw> {
    type V = Map<Sw, (SwitchPhase, NumSwitches)>;

    closed spec fn view(&self) -> Map<Sw, (SwitchPhase, NumSwitches)> {
        self.switches@.map_values(|s: TimedSwitchState<Sw>| s@)
    }
}

/// `true` when `t` schedules the timeout `duration` for `switch`.
pub open spec fn schedules<Sw>(t: Option<ScheduledTimeout<Sw>>, switch: Sw, duration: Duration) -> bool {
    t matches Some(s) && s.transition@ == switch && s.duration == duration
}

/// `true` when `ev` is the click event `(switch, kind, n)`.
pub open spec fn timed_event_is<Sw>(ev: Option<TimedEvent<Sw>>, switch: Sw, kind: TimedEventKind, n: NumSwitches) -> bool {
    ev matches Some(e) && e@ == (switch, kind, n)
}

/// `true` when `ev` is the delayed event `(switch, kind, n)`.
pub open spec fn delayed_event_is<Sw>(
    ev: Option<DelayedTimedEvent<Sw>>,
    switch: Sw,
    kind: DelayedTimedEventKind,
    n: NumSwitches,
) -> bool {
    ev matches Some(e) && e@ == (switch, kind, n)
}

spec fn state_view_is<Sw>(s: Option<TimedSwitchState<Sw>>, v: Option<(SwitchPhase, NumSwitches)>) -> bool {
    match (s, v) {
        (Some(s), Some(v)) => s@ == v,
        (None, None) => true,
        _ => false,
    }
}

/// A disable action on a switch in a pressed phase increments its count,
/// which must therefore stay below `u32::MAX`.
pub open spec fn disable_fits<Sw>(m: Map<Sw, (SwitchPhase, NumSwitches)>, action: Option<Action<Sw>>) -> bool {
    match action {
        Some(Action::Disable(sw)) => match m.get(sw) {
            Some((SwitchPhase::Pressed, n)) => n < u32::MAX,
            Some((SwitchPhase::LongPressed, n)) => n < u32::MAX,
            _ => true,
        },
        _ => true,
    }
}

impl<Sw> TimedEvent<Sw> {
    pub fn new(switch: Sw, kind: TimedEventKind, num_switches: NumSwitches) -> (res: Self)
        ensures
            res@ == (switch, kind, num_switches),
    {
        Self { switch, kind, num_switches }
    }

    /// The switch, the kind and the number of switches of the event.
    pub fn into_parts(self) -> (res: (Sw, TimedEventKind, NumSwitches))
        ensures
            res == self@,
    {
        (self.switch, self.kind, self.num_switches)
    }
}

impl<Sw> DelayedTimedEvent<Sw> {
    pub fn new(switch: Sw, kind: DelayedTimedEventKind, num_switches: NumSwitches) -> (res: Self)
        ensures
            res@ == (switch, kind, num_switches),
    {
        Self { switch, kind, num_switches }
    }

    /// The switch, the kind and the number of switches of the event.
    pub fn into_parts(self) -> (res: (Sw, DelayedTimedEventKind, NumSwitches))
        ensures
            res == self@,
    {
        (self.switch, self.kind, self.num_switches)
    }
}

impl<Sw> ScheduledTimeout<Sw> {
    pub fn new(transition: Arc<ScheduledTransition<Sw>>, duration: Duration) -> (res: Self)
        ensures
            res.transition == transition,
            res.duration == duration,
    {
        Self { transition, duration }
    }
}

/// Cloning a switch gives back an equal switch, as it does for integers,
/// strings and every `Copy` type.
pub open spec fn clones_exactly<Sw: Clone>() -> bool {
    forall|a: Sw, b: Sw| #[trigger] vstd::pervasive::strictly_cloned(a, b) ==> a == b
}

/// A copy of `switch`.
fn copy_switch<Sw: Clone>(switch: &Sw) -> (res: Sw)
    requires
        clones_exactly::<Sw>(),
    ensures
        res == *switch,
{
    let res = switch.clone();
    assert(vstd::pervasive::strictly_cloned(*switch, res));
    res
}

impl<Sw: Clone> TimedSwitchState<Sw> {
    fn schedule(switch: Sw, duration: Duration) -> (res: (
        Arc<ScheduledTransition<Sw>>,
        ScheduledTimeout<Sw>,
    ))
        ensures
            res.0@ == switch,
            schedules(Some(res.1), switch, duration),
    {
        let transition = Arc::new(ScheduledTransition { switch });
        let scheduled = ScheduledTimeout::new(Arc::clone(&transition), duration);
        (transition, scheduled)
    }

    fn from_pressed(switch: Sw) -> (res: TimedSwitchTransition<Sw>)
        ensures
            res.state@ == (SwitchPhase::Pressed, 0u32),
            res.event is None,
            schedules(res.scheduled, switch, Duration::LongClick),
    {
        let (transition, scheduled) = Self::schedule(switch, Duration::LongClick);
        TimedSwitchTransition {
            state: Self { kind: SwitchTimedStateKind::Pressed(transition), num_switches: 0 },
            event: None,
            scheduled: Some(scheduled),
        }
    }

    fn with_press_event(self, switch: Sw) -> (res: Result<
        TimedSwitchTransition<Sw>,
        TimedSwitchTransitionError<Sw, TimedInputEnableError<Sw>>,
    >)
        ensures
            match self@ {
                (SwitchPhase::Pressed, _) => {
                    &&& res is Err
                    &&& res->Err_0.state@ == self@
                    &&& res->Err_0.error == TimedInputEnableError::AlreadyPressed { switch }
                },
                (SwitchPhase::LongPressed, _) => {
                    &&& res is Err
                    &&& res->Err_0.state@ == self@
                    &&& res->Err_0.error == TimedInputEnableError::AlreadyLongPressed { switch }
                },
                (_, n) => {
                    &&& res is Ok
                    &&& res->Ok_0.state@ == (SwitchPhase::Pressed, n)
                    &&& res->Ok_0.event is None
                    &&& schedules(res->Ok_0.scheduled, switch, Duration::LongClick)
                },
            },
    {
        match self.kind {
            SwitchTimedStateKind::Pressed(_) => Err(TimedSwitchTransitionError {
                state: self,
                error: TimedInputEnableError::AlreadyPressed { switch },
            }),
            SwitchTimedStateKind::LongPressed => Err(TimedSwitchTransitionError {
                state: self,
                error: TimedInputEnableError::AlreadyLongPressed { switch },
            }),
            SwitchTimedStateKind::Released(_) | SwitchTimedStateKind::LongReleased(_) => {
                let (transition, scheduled) = Self::schedule(switch, Duration::LongClick);
                Ok(TimedSwitchTransition {
                    state: Self {
                        kind: SwitchTimedStateKind::Pressed(transition),
                        num_switches: self.num_switches,
                    },
                    event: None,
                    scheduled: Some(scheduled),
                })
            },
        }
    }

    fn with_release_event(self, switch: Sw) -> (res: Result<
        TimedSwitchTransition<Sw>,
        TimedSwitchTransitionError<Sw, TimedInputDisableError<Sw>>,
    >)
        requires
            clones_exactly::<Sw>(),
            self@.0 == SwitchPhase::Pressed || self@.0 == SwitchPhase::LongPressed ==> self@.1 < u32::MAX,
        ensures
            match self@ {
                (SwitchPhase::Pressed, n) => {
                    &&& res is Ok
                    &&& res->Ok_0.state@ == (SwitchPhase::Released, (n + 1) as u32)
                    &&& timed_event_is(res->Ok_0.event, switch, TimedEventKind::Click, (n + 1) as u32)
                    &&& schedules(res->Ok_0.scheduled, switch, Duration::MultiClick)
                },
                (SwitchPhase::LongPressed, n) => {
                    &&& res is Ok
                    &&& res->Ok_0.state@ == (SwitchPhase::LongReleased, (n + 1) as u32)
                    &&& res->Ok_0.event is None
                    &&& schedules(res->Ok_0.scheduled, switch, Duration::MultiClick)
                },
                (SwitchPhase::Released, _) => {
                    &&& res is Err
                    &&& res->Err_0.state@ == self@
                    &&& res->Err_0.error == TimedInputDisableError::AlreadyReleased { switch }
                },
                (SwitchPhase::LongReleased, _) => {
                    &&& res is Err
                    &&& res->Err_0.state@ == self@
                    &&& res->Err_0.error == TimedInputDisableError::AlreadyLongPressed { switch }
                },
            },
    {
        match self.kind {
            SwitchTimedStateKind::Pressed(_) => {
                let (transition, scheduled) = Self::schedule(copy_switch(&switch), Duration::MultiClick);
                Ok(TimedSwitchTransition {
                    state: Self {
                        kind: SwitchTimedStateKind::Released(transition),
                        num_switches: self.num_switches + 1,
                    },
                    event: Some(
                        TimedEvent::new(switch, TimedEventKind::Click, self.num_switches + 1),
                    ),
                    scheduled: Some(scheduled),
                })
            },
            SwitchTimedStateKind::LongPressed => {
                let (transition, scheduled) = Self::schedule(switch, Duration::MultiClick);
                Ok(TimedSwitchTransition {
                    state: Self {
                        kind: SwitchTimedStateKind::LongReleased(transition),
                        num_switches: self.num_switches + 1,
                    },
                    event: None,
                    scheduled: Some(scheduled),
                })
            },
            SwitchTimedStateKind::Released(_) => Err(TimedSwitchTransitionError {
                state: self,
                error: TimedInputDisableError::AlreadyReleased { switch },
            }),
            SwitchTimedStateKind::LongReleased(_) => Err(TimedSwitchTransitionError {
                state: self,
                error: TimedInputDisableError::AlreadyLongPressed { switch },
            }),
        }
    }

    fn with_timeout_event(self, switch: Sw) -> (res: Result<
        DelayedTimedSwitchTransition<Sw>,
        TimedSwitchTransitionError<Sw, DelayedTimedEventError<Sw>>,
    >)
        ensures
            match self@ {
                (SwitchPhase::Pressed, n) => {
                    &&& res is Ok
                    &&& state_view_is(res->Ok_0.state, Some((SwitchPhase::LongPressed, n)))
                    &&& delayed_event_is(res->Ok_0.event, switch, DelayedTimedEventKind::LongPress, n)
                    &&& res->Ok_0.scheduled is None
                },
                (SwitchPhase::LongPressed, _) => {
                    &&& res is Err
                    &&& res->Err_0.state@ == self@
                    &&& res->Err_0.error == DelayedTimedEventError::LongPressed { switch }
                },
                (SwitchPhase::Released, n) => {
                    &&& res is Ok
                    &&& res->Ok_0.state is None
                    &&& delayed_event_is(res->Ok_0.event, switch, DelayedTimedEventKind::ClickExact, n)
                    &&& res->Ok_0.scheduled is None
                },
                (SwitchPhase::LongReleased, n) => {
                    &&& res is Ok
                    &&& res->Ok_0.state is None
                    &&& delayed_event_is(
                        res->Ok_0.event,
                        switch,
                        DelayedTimedEventKind::LongClickExact,
                        n,
                    )
                    &&& res->Ok_0.scheduled is None
                },
            },
    {
        let num_clicks = self.num_switches;
        match self.kind {
            SwitchTimedStateKind::Pressed(_) => Ok(DelayedTimedSwitchTransition {
                state: Some(Self { kind: SwitchTimedStateKind::LongPressed, num_switches: num_clicks }),
                event: Some(
                    DelayedTimedEvent::new(switch, DelayedTimedEventKind::LongPress, num_clicks),
                ),
                scheduled: None,
            }),
            SwitchTimedStateKind::LongPressed => Err(TimedSwitchTransitionError {
                state: self,
                error: DelayedTimedEventError::LongPressed { switch },
            }),
            SwitchTimedStateKind::Released(_) => Ok(DelayedTimedSwitchTransition {
                state: None,
                event: Some(
                    DelayedTimedEvent::new(switch, DelayedTimedEventKind::ClickExact, num_clicks),
                ),
                scheduled: None,
            }),
            SwitchTimedStateKind::LongReleased(_) => Ok(DelayedTimedSwitchTransition {
                state: None,
                event: Some(
                    DelayedTimedEvent::new(switch, DelayedTimedEventKind::LongClickExact, num_clicks),
                ),
                scheduled: None,
            }),
        }
    }
}

impl<Sw> TimedState<Sw> {
    /// A state in which no switch is tracked.
    pub fn new() -> (res: Self)
        ensures
            res@ == Map::<Sw, (SwitchPhase, NumSwitches)>::empty(),
    {
        let res = Self { switches: HashMap::new() };
        assert(res@ =~= Map::<Sw, (SwitchPhase, NumSwitches)>::empty());
        res
    }
}

/// What handling an input event with `action` does, given the model `old`
/// of the state before it.
pub open spec fn action_outcome<Ev, Sw>(
    old: Map<Sw, (SwitchPhase, NumSwitches)>,
    event: Ev,
    action: Option<Action<Sw>>,
    res: Result<TimedTransition<Ev, Sw>, TimedTransitionError<Sw, TimedInputError<Sw>>>,
) -> bool {
    match action {
        None => {
            &&& res is Ok
            &&& res->Ok_0.event == event
            &&& res->Ok_0.timed_event is None
            &&& res->Ok_0.scheduled is None
            &&& res->Ok_0.state@ == old
        },
        Some(Action::Enable(sw)) => match old.get(sw) {
            Some((SwitchPhase::Pressed, _)) => {
                &&& res is Err
                &&& res->Err_0.state@ == old
                &&& res->Err_0.error == TimedInputError::Enable(
                    TimedInputEnableError::AlreadyPressed { switch: sw },
                )
            },
            Some((SwitchPhase::LongPressed, _)) => {
                &&& res is Err
                &&& res->Err_0.state@ == old
                &&& res->Err_0.error == TimedInputError::Enable(
                    TimedInputEnableError::AlreadyLongPressed { switch: sw },
                )
            },
            other => {
                &&& res is Ok
                &&& res->Ok_0.event == event
                &&& res->Ok_0.timed_event is None
                &&& schedules(res->Ok_0.scheduled, sw, Duration::LongClick)
                &&& res->Ok_0.state@ == old.insert(
                    sw,
                    (
                        SwitchPhase::Pressed,
                        match other {
                            Some((_, n)) => n,
                            None => 0u32,
                        },
                    ),
                )
            },
        },
        Some(Action::Disable(sw)) => match old.get(sw) {
            None => {
                &&& res is Ok
                &&& res->Ok_0.event == event
                &&& res->Ok_0.timed_event is None
                &&& res->Ok_0.scheduled is None
                &&& res->Ok_0.state@ == old
            },
            Some((SwitchPhase::Pressed, n)) => {
                &&& res is Ok
                &&& res->Ok_0.event == event
                &&& timed_event_is(res->Ok_0.timed_event, sw, TimedEventKind::Click, (n + 1) as u32)
                &&& schedules(res->Ok_0.scheduled, sw, Duration::MultiClick)
                &&& res->Ok_0.state@ == old.insert(sw, (SwitchPhase::Released, (n + 1) as u32))
            },
            Some((SwitchPhase::LongPressed, n)) => {
                &&& res is Ok
                &&& res->Ok_0.event == event
                &&& res->Ok_0.timed_event is None
                &&& schedules(res->Ok_0.scheduled, sw, Duration::MultiClick)
                &&& res->Ok_0.state@ == old.insert(sw, (SwitchPhase::LongReleased, (n + 1) as u32))
            },
            Some((SwitchPhase::Released, _)) => {
                &&& res is Err
                &&& res->Err_0.state@ == old
                &&& res->Err_0.error == TimedInputError::Disable(
                    TimedInputDisableError::AlreadyReleased { switch: sw },
                )
            },
            Some((SwitchPhase::LongReleased, _)) => {
                &&& res is Err
                &&& res->Err_0.state@ == old
                &&& res->Err_0.error == TimedInputError::Disable(
                    TimedInputDisableError::AlreadyLongPressed { switch: sw },
                )
            },
        },
    }
}

/// What a timeout of `switch` does, given the model `old` of the state
/// before it. A held switch becomes long-pressed and reports a long press;
/// the long-pressed phase schedules no timeout. A released switch reports its
/// exact number of clicks and is forgotten.
pub open spec fn timeout_outcome<Sw>(
    old: Map<Sw, (SwitchPhase, NumSwitches)>,
    switch: Sw,
    res: Result<DelayedTimedTransition<Sw>, TimedTransitionError<Sw, DelayedTimedEventError<Sw>>>,
) -> bool {
    match old.get(switch) {
        None => {
            &&& res is Err
            &&& res->Err_0.state@ == old
            &&& res->Err_0.error == DelayedTimedEventError::DefaultButtonState { switch }
        },
        Some((SwitchPhase::Pressed, n)) => {
            &&& res is Ok
            &&& res->Ok_0.state@ == old.insert(switch, (SwitchPhase::LongPressed, n))
            &&& delayed_event_is(res->Ok_0.timed_event, switch, DelayedTimedEventKind::LongPress, n)
            &&& res->Ok_0.scheduled is None
        },
        Some((SwitchPhase::LongPressed, _)) => {
            &&& res is Err
            &&& res->Err_0.state@ == old
            &&& res->Err_0.error == DelayedTimedEventError::LongPressed { switch }
        },
        Some((SwitchPhase::Released, n)) => {
            &&& res is Ok
            &&& res->Ok_0.state@ == old.remove(switch)
            &&& delayed_event_is(res->Ok_0.timed_event, switch, DelayedTimedEventKind::ClickExact, n)
            &&& res->Ok_0.scheduled is None
        },
        Some((SwitchPhase::LongReleased, n)) => {
            &&& res is Ok
            &&& res->Ok_0.state@ == old.remove(switch)
            &&& delayed_event_is(
                res->Ok_0.timed_event,
                switch,
                DelayedTimedEventKind::LongClickExact,
                n,
            )
            &&& res->Ok_0.scheduled is None
        },
    }
}

impl<Sw: Clone + Eq + std::hash::Hash> TimedState<Sw> {
    /// Handles an input event whose action is `action`.
    pub fn with_action_event<Ev>(self, event: Ev, action: Option<Action<Sw>>) -> (res: Result<
        TimedTransition<Ev, Sw>,
        TimedTransitionError<Sw, TimedInputError<Sw>>,
    >)
        requires
            clones_exactly::<Sw>(),
            vstd::std_specs::hash::obeys_key_model::<Sw>(),
            disable_fits(self@, action),
        ensures
            action_outcome(self@, event, action, res),
    {
        let mut switches = self.switches;
        let ghost old_states = switches@;
        proof {
            assert(self@ == old_states.map_values(|s: TimedSwitchState<Sw>| s@));
        }
        match action {
            Some(Action::Enable(switch)) => match switches.remove(&switch) {
                Some(state) => {
                    let transition = match state.with_press_event(copy_switch(&switch)) {
                        Ok(t) => Ok(t),
                        Err(e) => Err(
                            TimedSwitchTransitionError {
                                state: e.state,
                                error: TimedInputError::Enable(e.error),
                            },
                        ),
                    };
                    let res = Self::from_switches_transition(switches, event, switch, transition);
                    proof {
                        if res is Ok {
                            lemma_view_replace(old_states, switch, res->Ok_0.state.switches@);
                        } else {
                            lemma_view_replace(old_states, switch, res->Err_0.state.switches@);
                            assert(self@.insert(switch, self@[switch]) =~= self@);
                        }
                    }
                    res
                },
                None => {
                    let transition = TimedSwitchState::from_pressed(copy_switch(&switch));
                    switches.insert(switch, transition.state);
                    let res = Ok(
                        TimedTransition {
                            event,
                            timed_event: transition.event,
                            scheduled: transition.scheduled,
                            state: Self { switches },
                        },
                    );
                    proof {
                        assert(switches@.map_values(|s: TimedSwitchState<Sw>| s@) =~= self@.insert(
                            switch,
                            (SwitchPhase::Pressed, 0u32),
                        ));
                    }
                    res
                },
            },
            Some(Action::Disable(switch)) => match switches.remove(&switch) {
                Some(state) => {
                    let transition = match state.with_release_event(copy_switch(&switch)) {
                        Ok(t) => Ok(t),
                        Err(e) => Err(
                            TimedSwitchTransitionError {
                                state: e.state,
                                error: TimedInputError::Disable(e.error),
                            },
                        ),
                    };
                    let res = Self::from_switches_transition(switches, event, switch, transition);
                    proof {
                        if res is Ok {
                            lemma_view_replace(old_states, switch, res->Ok_0.state.switches@);
                        } else {
                            lemma_view_replace(old_states, switch, res->Err_0.state.switches@);
                            assert(self@.insert(switch, self@[switch]) =~= self@);
                        }
                    }
                    res
                },
                None => {
                    proof {
                        assert(switches@ =~= old_states);
                    }
                    Ok(TimedTransition { event, timed_event: None, scheduled: None, state: Self { switches } })
                },
            },
            None => Ok(TimedTransition { event, timed_event: None, scheduled: None, state: Self { switches } }),
        }
    }

    /// Handles an input event; what it does to the state depends on the
    /// action the event reports.
    pub fn with_event<Ev>(self, event: Ev) -> (res: Result<
        TimedTransition<Ev, Sw>,
        TimedTransitionError<Sw, TimedInputError<Sw>>,
    >)
        where
            Ev: EventWithAction<Switch = Sw>,
        requires
            clones_exactly::<Sw>(),
            vstd::std_specs::hash::obeys_key_model::<Sw>(),
            forall|a: Option<Action<Sw>>|
                #[trigger] call_ensures(Ev::action, (&event,), a) ==> disable_fits(self@, a),
        ensures
            exists|a: Option<Action<Sw>>|
                #![trigger call_ensures(Ev::action, (&event,), a)]
                call_ensures(Ev::action, (&event,), a) && action_outcome(self@, event, a, res),
    {
        let action = event.action();
        let res = self.with_action_event(event, action);
        assert(action_outcome(self@, event, action, res));
        res
    }

    /// Stores the state a switch transition produced and builds the result.
    fn from_switches_transition<Ev, E>(
        switches: HashMap<Sw, TimedSwitchState<Sw>>,
        event: Ev,
        switch: Sw,
        transition: Result<TimedSwitchTransition<Sw>, TimedSwitchTransitionError<Sw, E>>,
    ) -> (res: Result<TimedTransition<Ev, Sw>, TimedTransitionError<Sw, E>>)
        requires
            vstd::std_specs::hash::obeys_key_model::<Sw>(),
            !switches@.contains_key(switch),
        ensures
            match transition {
                Ok(t) => res is Ok && res->Ok_0.event == event && res->Ok_0.timed_event == t.event
                    && res->Ok_0.scheduled == t.scheduled && res->Ok_0.state.switches@
                    == switches@.insert(switch, t.state),
                Err(e) => res is Err && res->Err_0.error == e.error && res->Err_0.state.switches@
                    == switches@.insert(switch, e.state),
            },
    {
        let mut switches = switches;
        match transition {
            Ok(transition) => {
                let prev = switches.insert(switch, transition.state);
                assert(prev.is_none());
                Ok(
                    TimedTransition {
                        event,
                        timed_event: transition.event,
                        scheduled: transition.scheduled,
                        state: Self { switches },
                    },
                )
            },
            Err(error) => {
                let prev = switches.insert(switch, error.state);
                assert(prev.is_none());
                Err(TimedTransitionError { state: Self { switches }, error: error.error })
            },
        }
    }

    /// Runs the scheduled transition once its timeout has expired.
    pub fn with_timeout_event(self, transition: Arc<ScheduledTransition<Sw>>) -> (res: Result<
        DelayedTimedTransition<Sw>,
        TimedTransitionError<Sw, DelayedTimedEventError<Sw>>,
    >)
        requires
            clones_exactly::<Sw>(),
            vstd::std_specs::hash::obeys_key_model::<Sw>(),
        ensures
            timeout_outcome(self@, transition@, res),
    {
        let switch = copy_switch(&transition.switch);
        let mut switches = self.switches;
        let ghost old_states = switches@;
        match switches.remove(&switch) {
            Some(state) => {
                let transition = state.with_timeout_event(copy_switch(&switch));
                match transition {
                    Ok(transition) => {
                        match transition.state {
                            Some(state) => {
                                let prev = switches.insert(switch, state);
                                assert(prev.is_none());
                                proof {
                                    assert(switches@.map_values(|s: TimedSwitchState<Sw>| s@) =~= self@.insert(
                                        switch,
                                        state@,
                                    ));
                                }
                            },
                            None => {
                                proof {
                                    assert(switches@.map_values(|s: TimedSwitchState<Sw>| s@) =~= self@.remove(switch));
                                }
                            },
                        }
                        Ok(
                            DelayedTimedTransition {
                                timed_event: transition.event,
                                scheduled: transition.scheduled,
                                state: Self { switches },
                            },
                        )
                    },
                    Err(error) => {
                        let prev = switches.insert(switch, error.state);
                        assert(prev.is_none());
                        proof {
                            assert(switches@.map_values(|s: TimedSwitchState<Sw>| s@) =~= self@);
                        }
                        Err(TimedTransitionError { state: Self { switches }, error: error.error })
                    },
                }
            },
            None => {
                proof {
                    assert(switches@ =~= old_states);
                }
                Err(
                    TimedTransitionError {
                        state: Self { switches },
                        error: DelayedTimedEventError::DefaultButtonState { switch },
                    },
                )
            },
        }
    }
}

proof fn lemma_view_replace<Sw>(old: Map<Sw, TimedSwitchState<Sw>>, k: Sw, new: Map<Sw, TimedSwitchState<Sw>>)
    requires
        new == old.remove(k).insert(k, new[k]),
    ensures
        new.map_values(|t: TimedSwitchState<Sw>| t@) == old.map_values(|t: TimedSwitchState<Sw>| t@).insert(k, new[k]@),
{
    assert(new.map_values(|t: TimedSwitchState<Sw>| t@) =~= old.map_values(|t: TimedSwitchState<Sw>| t@).insert(k, new[k]@));
}

impl<Sw> Default for TimedState<Sw> {
    fn default() -> (res: Self)
        ensures
            res@ == Map::<Sw, (SwitchPhase, NumSwitches)>::empty(),
    {
        Self::new()
    }
}

/// Double click: two presses and releases of a switch that is in no click
/// sequence are all accepted, the releases report a click and then a double
/// click, and the multi-click timeout scheduled by the second release reports
/// exactly two clicks and leaves the state as it was before the first press.
pub proof fn law_double_click<Ev, Sw>(
    m: Map<Sw, (SwitchPhase, NumSwitches)>,
    switch: Sw,
    events: (Ev, Ev, Ev, Ev),
    r1: Result<TimedTransition<Ev, Sw>, TimedTransitionError<Sw, TimedInputError<Sw>>>,
    r2: Result<TimedTransition<Ev, Sw>, TimedTransitionError<Sw, TimedInputError<Sw>>>,
    r3: Result<TimedTransition<Ev, Sw>, TimedTransitionError<Sw, TimedInputError<Sw>>>,
    r4: Result<TimedTransition<Ev, Sw>, TimedTransitionError<Sw, TimedInputError<Sw>>>,
    r5: Result<DelayedTimedTransition<Sw>, TimedTransitionError<Sw, DelayedTimedEventError<Sw>>>,
)
    requires
        !m.contains_key(switch),
        action_outcome(m, events.0, Some(Action::Enable(switch)), r1),
        action_outcome(r1->Ok_0.state@, events.1, Some(Action::Disable(switch)), r2),
        action_outcome(r2->Ok_0.state@, events.2, Some(Action::Enable(switch)), r3),
        action_outcome(r3->Ok_0.state@, events.3, Some(Action::Disable(switch)), r4),
        timeout_outcome(r4->Ok_0.state@, switch, r5),
    ensures
        r1 is Ok && r2 is Ok && r3 is Ok && r4 is Ok && r5 is Ok,
        schedules(r1->Ok_0.scheduled, switch, Duration::LongClick),
        timed_event_is(r2->Ok_0.timed_event, switch, TimedEventKind::Click, 1),
        schedules(r3->Ok_0.scheduled, switch, Duration::LongClick),
        timed_event_is(r4->Ok_0.timed_event, switch, TimedEventKind::Click, 2),
        schedules(r4->Ok_0.scheduled, switch, Duration::MultiClick),
        delayed_event_is(r5->Ok_0.timed_event, switch, DelayedTimedEventKind::ClickExact, 2),
        r5->Ok_0.state@ == m,
{
    assert(m.insert(switch, (SwitchPhase::Released, 2u32)).remove(switch) =~= m);
}

impl<Sw: Clone> Clone for TimedState<Sw> {
    /// A copy holding the same state for every switch, sharing the scheduled
    /// transitions of the original.
    fn clone(&self) -> (res: Self)
        ensures
            res@ == self@,
    {
        Self { switches: self.switches.clone() }
    }
}

/// An Enable action is refused, leaving the state as it was, only for a
/// held (pressed or long-pressed) switch. Otherwise the switch becomes
/// pressed, with no clicks yet if it was in no click sequence and with its
/// clicks so far if it was released after a short or a long click, and a
/// long-click timeout is scheduled for it; no other switch changes.
pub proof fn law_enable_outcome<Ev, Sw>(
    old: Map<Sw, (SwitchPhase, NumSwitches)>,
    event: Ev,
    switch: Sw,
    res: Result<TimedTransition<Ev, Sw>, TimedTransitionError<Sw, TimedInputError<Sw>>>,
)
    requires
        action_outcome(old, event, Some(Action::Enable(switch)), res),
    ensures
        !old.contains_key(switch) ==> res is Ok && res->Ok_0.state@ == old.insert(
            switch,
            (SwitchPhase::Pressed, 0u32),
        ),
        forall|n: NumSwitches|
            (old.get(switch) == Some((SwitchPhase::Released, n)) || old.get(switch) == Some(
                (SwitchPhase::LongReleased, n),
            )) ==> #[trigger] res->Ok_0.state@ == old.insert(switch, (SwitchPhase::Pressed, n))
                && res is Ok,
        res is Ok ==> res->Ok_0.timed_event is None && schedules(
            res->Ok_0.scheduled,
            switch,
            Duration::LongClick,
        ) && res->Ok_0.event == event,
        res is Err <==> old.contains_key(switch) && (old[switch].0 == SwitchPhase::Pressed
            || old[switch].0 == SwitchPhase::LongPressed),
        res is Err ==> res->Err_0.state@ == old,
{
}

/// A Disable action of a held switch releases it with one more click,
/// reporting the click (a short one only) and scheduling the multi-click
/// timeout; of a switch in no click sequence it changes nothing; of a
/// released switch it is refused and changes nothing.
pub proof fn law_disable_outcome<Ev, Sw>(
    old: Map<Sw, (SwitchPhase, NumSwitches)>,
    event: Ev,
    switch: Sw,
    res: Result<TimedTransition<Ev, Sw>, TimedTransitionError<Sw, TimedInputError<Sw>>>,
)
    requires
        action_outcome(old, event, Some(Action::Disable(switch)), res),
    ensures
        !old.contains_key(switch) ==> res is Ok && res->Ok_0.state@ == old && res->Ok_0.timed_event is None
            && res->Ok_0.scheduled is None,
        forall|n: NumSwitches|
            #![trigger old.insert(switch, (SwitchPhase::Released, (n + 1) as u32))]
            old.get(switch) == Some((SwitchPhase::Pressed, n)) ==> res is Ok && res->Ok_0.state@
                == old.insert(switch, (SwitchPhase::Released, (n + 1) as u32)) && timed_event_is(
                res->Ok_0.timed_event,
                switch,
                TimedEventKind::Click,
                (n + 1) as u32,
            ),
        forall|n: NumSwitches|
            #![trigger old.insert(switch, (SwitchPhase::LongReleased, (n + 1) as u32))]
            old.get(switch) == Some((SwitchPhase::LongPressed, n)) ==> res is Ok && res->Ok_0.state@
                == old.insert(switch, (SwitchPhase::LongReleased, (n + 1) as u32))
                && res->Ok_0.timed_event is None,
        res is Err <==> old.contains_key(switch) && (old[switch].0 == SwitchPhase::Released
            || old[switch].0 == SwitchPhase::LongReleased),
        res is Err ==> res->Err_0.state@ == old,
{
}

/// A timeout of a held switch makes it long-pressed with its clicks kept and
/// schedules nothing; a timeout of a switch released after a short or a long
/// click reports its exact number of clicks and removes it from the state,
/// so that its next press starts a new sequence; any other timeout is
/// refused and changes nothing.
pub proof fn law_timeout_outcome<Sw>(
    old: Map<Sw, (SwitchPhase, NumSwitches)>,
    switch: Sw,
    res: Result<DelayedTimedTransition<Sw>, TimedTransitionError<Sw, DelayedTimedEventError<Sw>>>,
)
    requires
        timeout_outcome(old, switch, res),
    ensures
        forall|n: NumSwitches|
            #![trigger old.insert(switch, (SwitchPhase::LongPressed, n))]
            old.get(switch) == Some((SwitchPhase::Pressed, n)) ==> res is Ok && res->Ok_0.state@
                == old.insert(switch, (SwitchPhase::LongPressed, n)) && res->Ok_0.scheduled is None
                && delayed_event_is(res->Ok_0.timed_event, switch, DelayedTimedEventKind::LongPress, n),
        forall|n: NumSwitches|
            #![trigger delayed_event_is(res->Ok_0.timed_event, switch, DelayedTimedEventKind::ClickExact, n)]
            old.get(switch) == Some((SwitchPhase::Released, n)) ==> res is Ok && delayed_event_is(
                res->Ok_0.timed_event,
                switch,
                DelayedTimedEventKind::ClickExact,
                n,
            ),
        forall|n: NumSwitches|
            #![trigger delayed_event_is(res->Ok_0.timed_event, switch, DelayedTimedEventKind::LongClickExact, n)]
            old.get(switch) == Some((SwitchPhase::LongReleased, n)) ==> res is Ok && delayed_event_is(
                res->Ok_0.timed_event,
                switch,
                DelayedTimedEventKind::LongClickExact,
                n,
            ),
        res is Ok && res->Ok_0.timed_event is Some && (res->Ok_0.timed_event->0@.1
            == DelayedTimedEventKind::ClickExact || res->Ok_0.timed_event->0@.1
            == DelayedTimedEventKind::LongClickExact) ==> !res->Ok_0.state@.contains_key(switch)
            && res->Ok_0.state@ == old.remove(switch),
        res is Err ==> res->Err_0.state@ == old,
{
}

} // verus!
