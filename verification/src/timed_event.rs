//! Per-switch timing state machine: counts clicks, detects long presses and
//! reports the final number of clicks once a multi-click sequence is over.
//!
//! Each switch is in one of four phases. A press starts (or continues) a click
//! sequence, a release ends one click of it, a long-press timeout turns a held
//! switch into a long press, and a multi-click timeout after a release closes
//! the sequence and forgets the switch.

use std::collections::HashMap;
use std::sync::{Arc, Weak};
use vstd::prelude::*;

verus! {

broadcast use vstd::std_specs::hash::group_hash_axioms;

/// Number of clicks of a click sequence.
pub type NumClicks = u32;

/// An event produced by the timing state machine.
#[derive(Clone, Copy, Debug, Eq, Hash, Ord, PartialEq, PartialOrd)]
pub struct TimedEvent<Ki> {
    pub kind: Ki,
    pub num_clicks: NumClicks,
}

pub type TimedReleaseEvent = TimedEvent<TimedReleaseEventKind>;

pub type TimedLongPressEvent = TimedEvent<TimedLongPressEventKind>;

pub type TimedMultiClickEvent = TimedEvent<TimedMultiClickEventKind>;

#[derive(Clone, Copy, Debug, Eq, Hash, Ord, PartialEq, PartialOrd)]
pub enum TimedReleaseEventKind {
    Click,
    LongClick,
}

#[derive(Clone, Copy, Debug, Eq, Hash, Ord, PartialEq, PartialOrd)]
pub enum TimedLongPressEventKind {
    LongPress,
}

#[derive(Clone, Copy, Debug, Eq, Hash, Ord, PartialEq, PartialOrd)]
pub enum TimedMultiClickEventKind {
    ClickExact,
    LongClickExact,
}

/// The phase a tracked switch is in.
#[derive(Clone, Copy, Debug, Eq, PartialEq)]
pub enum SwitchPhase {
    Pressed,
    LongPressed,
    Released,
    LongReleased,
}

/// Timing state of every switch that is currently in a click sequence.
/// A switch that is absent from the map is in its default (idle) state.
#[derive(Debug)]
pub struct TimedState<Sw> {
    switches: HashMap<Sw, SwitchState>,
}

/// Timing state of one switch.
#[derive(Clone, Debug)]
pub struct SwitchState {
    kind: SwitchStateKind,
    num_clicks: NumClicks,
}

/// The phase of a switch; the phases that schedule a timeout hold the tag
/// that keeps the corresponding handle request alive.
#[derive(Clone, Debug)]
enum SwitchStateKind {
    Pressed(Arc<()>),
    LongPressed,
    Released(Arc<()>),
    LongReleased(Arc<()>),
}

/// A request to deliver a long-press timeout; it is honoured only while the
/// press that issued it is still the current phase of its switch.
#[verifier::external_body]
pub struct LongPressHandleRequest(Weak<()>);

impl Clone for LongPressHandleRequest {
    /// Clones the weak link (`Weak::clone`); the clone refers to the same tag.
    #[verifier::external_body]
    fn clone(&self) -> Self {
        LongPressHandleRequest(self.0.clone())
    }
}

/// A request to deliver a multi-click timeout; it is honoured only while the
/// release that issued it is still the current phase of its switch.
#[verifier::external_body]
pub struct MultiClickHandleRequest(Weak<()>);

impl Clone for MultiClickHandleRequest {
    /// Clones the weak link (`Weak::clone`); the clone refers to the same tag.
    #[verifier::external_body]
    fn clone(&self) -> Self {
        MultiClickHandleRequest(self.0.clone())
    }
}

/// Creates a long-press request linked to `tag` through `Arc::downgrade`.
/// Nothing is stated of the result: it only carries the weak link.
#[verifier::external_body]
fn long_press_request(tag: &Arc<()>) -> LongPressHandleRequest {
    LongPressHandleRequest(Arc::downgrade(tag))
}

/// Creates a multi-click request linked to `tag` through `Arc::downgrade`.
/// Nothing is stated of the result: it only carries the weak link.
#[verifier::external_body]
fn multi_click_request(tag: &Arc<()>) -> MultiClickHandleRequest {
    MultiClickHandleRequest(Arc::downgrade(tag))
}

impl LongPressHandleRequest {
    /// Whether the tag of this request is still alive (`Weak::upgrade`).
    /// Liveness depends on which clones of the state still hold the tag,
    /// so nothing is stated of the result.
    #[verifier::external_body]
    pub fn is_live(&self) -> bool {
        self.0.upgrade().is_some()
    }
}

impl MultiClickHandleRequest {
    /// Whether the tag of this request is still alive (`Weak::upgrade`).
    /// Liveness depends on which clones of the state still hold the tag,
    /// so nothing is stated of the result.
    #[verifier::external_body]
    pub fn is_live(&self) -> bool {
        self.0.upgrade().is_some()
    }
}

impl<Ki> TimedEvent<Ki> {
    pub fn new(kind: Ki, num_clicks: NumClicks) -> (res: Self)
        ensures
            res.kind == kind,
            res.num_clicks == num_clicks,
    {
        Self { kind, num_clicks }
    }
}

impl View for SwitchState {
    type V = (SwitchPhase, NumClicks);

    closed spec fn view(&self) -> (SwitchPhase, NumClicks) {
        (
            match self.kind {
                SwitchStateKind::Pressed(_) => SwitchPhase::Pressed,
                SwitchStateKind::LongPressed => SwitchPhase::LongPressed,
                SwitchStateKind::Released(_) => SwitchPhase::Released,
                SwitchStateKind::LongReleased(_) => SwitchPhase::LongReleased,
            },
            self.num_clicks,
        )
    }
}

/// The spec model of the whole state: the phase and click count of every
/// tracked switch.
pub open spec fn phases<Sw>(states: Map<Sw, SwitchState>) -> Map<Sw, (SwitchPhase, NumClicks)> {
    states.map_values(|s: SwitchState| s@)
}

/// Writes the new state of one switch into the model: `None` forgets it.
pub open spec fn update<Sw, V>(m: Map<Sw, V>, switch: Sw, new: Option<V>) -> Map<Sw, V> {
    match new {
        Some(v) => m.insert(switch, v),
        None => m.remove(switch),
    }
}

/// Phase after a press event, and the error reported for it.
pub open spec fn press_step(s: Option<(SwitchPhase, NumClicks)>) -> (
    (SwitchPhase, NumClicks),
    Option<TimedPressError>,
) {
    match s {
        None => ((SwitchPhase::Pressed, 0), None),
        Some((SwitchPhase::Pressed, n)) => ((SwitchPhase::Pressed, n), Some(TimedPressError::AlreadyPressed)),
        Some((SwitchPhase::LongPressed, n)) => (
            (SwitchPhase::LongPressed, n),
            Some(TimedPressError::AlreadyLongPressed),
        ),
        Some((_, n)) => ((SwitchPhase::Pressed, n), None),
    }
}

/// Phase after a release event of a tracked switch, and what it reports.
pub open spec fn release_step(s: (SwitchPhase, NumClicks)) -> (
    (SwitchPhase, NumClicks),
    Result<TimedReleaseEvent, TimedReleaseError>,
) {
    match s {
        (SwitchPhase::Pressed, n) => (
            (SwitchPhase::Released, (n + 1) as u32),
            Ok(TimedEvent { kind: TimedReleaseEventKind::Click, num_clicks: (n + 1) as u32 }),
        ),
        (SwitchPhase::LongPressed, n) => (
            (SwitchPhase::LongReleased, (n + 1) as u32),
            Ok(TimedEvent { kind: TimedReleaseEventKind::LongClick, num_clicks: (n + 1) as u32 }),
        ),
        (SwitchPhase::Released, n) => (
            (SwitchPhase::Released, n),
            Err(TimedReleaseError::AlreadyReleased),
        ),
        (SwitchPhase::LongReleased, n) => (
            (SwitchPhase::LongReleased, n),
            Err(TimedReleaseError::AlreadyLongReleased),
        ),
    }
}

/// Phase after a long-press timeout of a tracked switch, and what it reports.
pub open spec fn long_press_step(s: (SwitchPhase, NumClicks)) -> (
    (SwitchPhase, NumClicks),
    Result<TimedLongPressEvent, TimedLongClickError>,
) {
    match s {
        (SwitchPhase::Pressed, n) => (
            (SwitchPhase::LongPressed, n),
            Ok(TimedEvent { kind: TimedLongPressEventKind::LongPress, num_clicks: n }),
        ),
        (SwitchPhase::LongPressed, n) => (s, Err(TimedLongClickError::LongPressed)),
        (SwitchPhase::Released, n) => (s, Err(TimedLongClickError::Released)),
        (SwitchPhase::LongReleased, n) => (s, Err(TimedLongClickError::LongReleased)),
    }
}

/// Phase after a multi-click timeout of a tracked switch (`None`: the switch
/// returns to its default state), and what it reports.
pub open spec fn multi_click_step(s: (SwitchPhase, NumClicks)) -> (
    Option<(SwitchPhase, NumClicks)>,
    Result<TimedMultiClickEvent, TimedMultiClickError>,
) {
    match s {
        (SwitchPhase::Pressed, n) => (Some(s), Err(TimedMultiClickError::Pressed)),
        (SwitchPhase::LongPressed, n) => (Some(s), Err(TimedMultiClickError::LongPressed)),
        (SwitchPhase::Released, n) => (
            None,
            Ok(TimedEvent { kind: TimedMultiClickEventKind::ClickExact, num_clicks: n }),
        ),
        (SwitchPhase::LongReleased, n) => (
            None,
            Ok(TimedEvent { kind: TimedMultiClickEventKind::LongClickExact, num_clicks: n }),
        ),
    }
}

/// A release of a switch in a pressed phase increments its click count,
/// which must therefore stay below `u32::MAX`.
pub open spec fn release_fits(s: Option<(SwitchPhase, NumClicks)>) -> bool {
    match s {
        Some((SwitchPhase::Pressed, n)) => n < u32::MAX,
        Some((SwitchPhase::LongPressed, n)) => n < u32::MAX,
        _ => true,
    }
}

impl SwitchState {
    fn new(kind: SwitchStateKind, num_clicks: NumClicks) -> (res: Self)
        ensures
            res.kind == kind,
            res.num_clicks == num_clicks,
    {
        Self { kind, num_clicks }
    }

    /// The state of a switch that has just been pressed for the first time.
    pub fn from_pressed() -> (res: (Self, LongPressHandleRequest))
        ensures
            res.0@ == (SwitchPhase::Pressed, 0u32),
    {
        let tag = Arc::new(());
        let request = long_press_request(&tag);
        let state = Self::new(SwitchStateKind::Pressed(tag), 0);
        (state, request)
    }

    pub fn with_press_event(self) -> (res: (Self, Result<LongPressHandleRequest, TimedPressError>))
        ensures
            res.0@ == press_step(Some(self@)).0,
            match press_step(Some(self@)).1 {
                Some(e) => res.1 == Err::<LongPressHandleRequest, TimedPressError>(e),
                None => res.1 is Ok,
            },
    {
        match self.kind {
            SwitchStateKind::Pressed(_) => (self, Err(TimedPressError::AlreadyPressed)),
            SwitchStateKind::LongPressed => (self, Err(TimedPressError::AlreadyLongPressed)),
            SwitchStateKind::Released(_) | SwitchStateKind::LongReleased(_) => {
                let tag = Arc::new(());
                let request = long_press_request(&tag);
                let state = Self::new(SwitchStateKind::Pressed(tag), self.num_clicks);
                (state, Ok(request))
            },
        }
    }

    pub fn with_release_event(self) -> (res: (
        Self,
        Result<(TimedReleaseEvent, MultiClickHandleRequest), TimedReleaseError>,
    ))
        requires
            release_fits(Some(self@)),
        ensures
            res.0@ == release_step(self@).0,
            match release_step(self@).1 {
                Ok(ev) => res.1 matches Ok((e, _)) && e == ev,
                Err(err) => res.1 == Err::<(TimedReleaseEvent, MultiClickHandleRequest), TimedReleaseError>(err),
            },
    {
        match self.kind {
            SwitchStateKind::Pressed(_) => {
                let tag = Arc::new(());
                let request = multi_click_request(&tag);
                let state = Self::new(SwitchStateKind::Released(tag), self.num_clicks + 1);
                let event = TimedEvent::new(TimedReleaseEventKind::Click, self.num_clicks + 1);
                (state, Ok((event, request)))
            },
            SwitchStateKind::LongPressed => {
                let tag = Arc::new(());
                let request = multi_click_request(&tag);
                let state = Self::new(SwitchStateKind::LongReleased(tag), self.num_clicks + 1);
                let event = TimedEvent::new(TimedReleaseEventKind::LongClick, self.num_clicks + 1);
                (state, Ok((event, request)))
            },
            SwitchStateKind::Released(_) => (self, Err(TimedReleaseError::AlreadyReleased)),
            SwitchStateKind::LongReleased(_) => (self, Err(TimedReleaseError::AlreadyLongReleased)),
        }
    }

    pub fn with_long_press_event(self) -> (res: (
        Option<Self>,
        Result<TimedLongPressEvent, TimedLongClickError>,
    ))
        ensures
            res.0 matches Some(s) && s@ == long_press_step(self@).0,
            res.1 == long_press_step(self@).1,
    {
        match self.kind {
            SwitchStateKind::Pressed(_) => {
                let state = Self::new(SwitchStateKind::LongPressed, self.num_clicks);
                let event = TimedEvent::new(TimedLongPressEventKind::LongPress, self.num_clicks);
                (Some(state), Ok(event))
            },
            SwitchStateKind::LongPressed => (Some(self), Err(TimedLongClickError::LongPressed)),
            SwitchStateKind::Released(_) => (Some(self), Err(TimedLongClickError::Released)),
            SwitchStateKind::LongReleased(_) => (Some(self), Err(TimedLongClickError::LongReleased)),
        }
    }

    pub fn with_multi_click_event(self) -> (res: (
        Option<Self>,
        Result<TimedMultiClickEvent, TimedMultiClickError>,
    ))
        ensures
            match multi_click_step(self@).0 {
                Some(v) => res.0 matches Some(s) && s@ == v,
                None => res.0 is None,
            },
            res.1 == multi_click_step(self@).1,
    {
        match self.kind {
            SwitchStateKind::Pressed(_) => (Some(self), Err(TimedMultiClickError::Pressed)),
            SwitchStateKind::LongPressed => (Some(self), Err(TimedMultiClickError::LongPressed)),
            SwitchStateKind::Released(_) => {
                let event = TimedEvent::new(TimedMultiClickEventKind::ClickExact, self.num_clicks);
                (None, Ok(event))
            },
            SwitchStateKind::LongReleased(_) => {
                let event = TimedEvent::new(
                    TimedMultiClickEventKind::LongClickExact,
                    self.num_clicks,
                );
                (None, Ok(event))
            },
        }
    }
}

impl<Sw> View for TimedState<Sw> {
    type V = Map<Sw, (SwitchPhase, NumClicks)>;

    open spec fn view(&self) -> Map<Sw, (SwitchPhase, NumClicks)> {
        phases(self.states())
    }
}

impl<Sw> TimedState<Sw> {
    /// The state of every tracked switch.
    pub closed spec fn states(&self) -> Map<Sw, SwitchState> {
        self.switches@
    }

    /// A state in which no switch is tracked.
    pub fn new() -> (res: Self)
        ensures
            res.states() == Map::<Sw, SwitchState>::empty(),
            res@ == Map::<Sw, (SwitchPhase, NumClicks)>::empty(),
    {
        let res = Self { switches: HashMap::new() };
        assert(res@ =~= Map::<Sw, (SwitchPhase, NumClicks)>::empty());
        res
    }
}

impl<Sw> Default for TimedState<Sw> {
    fn default() -> (res: Self)
        ensures
            res@ == Map::<Sw, (SwitchPhase, NumClicks)>::empty(),
    {
        Self::new()
    }
}

/// The model of a map after one of its entries is replaced.
proof fn lemma_phases_update<Sw>(m: Map<Sw, SwitchState>, k: Sw, new: Option<SwitchState>)
    ensures
        phases(update(m, k, new)) == update(
            phases(m),
            k,
            match new {
                Some(s) => Some(s@),
                None => None,
            },
        ),
{
    assert(phases(update(m, k, new)) =~= update(
        phases(m),
        k,
        match new {
            Some(s) => Some(s@),
            None => None,
        },
    ));
}

impl<Sw: Eq + std::hash::Hash> TimedState<Sw> {
    /// Handles a press of `switch`.
    pub fn with_press_event(self, switch: Sw) -> (res: (
        Self,
        Result<LongPressHandleRequest, TimedPressError>,
    ))
        requires
            vstd::std_specs::hash::obeys_key_model::<Sw>(),
        ensures
            res.0@ == self@.insert(switch, press_step(self@.get(switch)).0),
            match press_step(self@.get(switch)).1 {
                Some(e) => res.1 == Err::<LongPressHandleRequest, TimedPressError>(e),
                None => res.1 is Ok,
            },
    {
        let mut switches = self.switches;
        let ghost old_states = switches@;
        match switches.remove(&switch) {
            Some(state) => {
                let (state, request) = state.with_press_event();
                proof {
                    lemma_phases_update(old_states, switch, Some(state));
                    assert(old_states.remove(switch).insert(switch, state) =~= old_states.insert(
                        switch,
                        state,
                    ));
                }
                switches.insert(switch, state);
                (Self { switches }, request)
            },
            None => {
                let (state, request) = SwitchState::from_pressed();
                proof {
                    lemma_phases_update(old_states, switch, Some(state));
                }
                switches.insert(switch, state);
                (Self { switches }, Ok(request))
            },
        }
    }
}

impl<Sw: Eq + std::hash::Hash> TimedState<Sw> {
    /// Handles a release of `switch`; a switch that is not tracked is ignored.
    pub fn with_release_event(self, switch: Sw) -> (res: (
        Self,
        Result<Option<(TimedReleaseEvent, MultiClickHandleRequest)>, TimedReleaseError>,
    ))
        requires
            vstd::std_specs::hash::obeys_key_model::<Sw>(),
            release_fits(self@.get(switch)),
        ensures
            match self@.get(switch) {
                None => res.0@ == self@ && res.1 matches Ok(None),
                Some(s) => {
                    &&& res.0@ == self@.insert(switch, release_step(s).0)
                    &&& match release_step(s).1 {
                        Ok(ev) => res.1 matches Ok(Some((e, _))) && e == ev,
                        Err(err) => res.1 == Err::<
                            Option<(TimedReleaseEvent, MultiClickHandleRequest)>,
                            TimedReleaseError,
                        >(err),
                    }
                },
            },
    {
        let mut switches = self.switches;
        let ghost old_states = switches@;
        match switches.remove(&switch) {
            Some(state) => {
                let (state, result) = state.with_release_event();
                proof {
                    lemma_phases_update(old_states, switch, Some(state));
                    assert(old_states.remove(switch).insert(switch, state) =~= old_states.insert(
                        switch,
                        state,
                    ));
                }
                switches.insert(switch, state);
                let result = match result {
                    Ok(pair) => Ok(Some(pair)),
                    Err(err) => Err(err),
                };
                (Self { switches }, result)
            },
            None => {
                proof {
                    assert(old_states.remove(switch) =~= old_states);
                }
                (Self { switches }, Ok(None))
            },
        }
    }

    /// Applies `callback` to the state of `switch` and stores the state it
    /// gives back (`None` forgets the switch). When the switch is not
    /// tracked, the state is unchanged and `err` is reported.
    pub fn with_timeout_event<T, E, F>(self, switch: Sw, callback: F, err: E) -> (res: (
        Self,
        Option<Result<T, E>>,
    )) where F: FnOnce(SwitchState) -> (Option<SwitchState>, Result<T, E>)
        requires
            vstd::std_specs::hash::obeys_key_model::<Sw>(),
            self.states().contains_key(switch) ==> callback.requires((self.states()[switch],)),
        ensures
            !self.states().contains_key(switch) ==> {
                &&& res.0.states() == self.states()
                &&& res.1 == Some(Err::<T, E>(err))
            },
            self.states().contains_key(switch) ==> {
                &&& res.1 is Some
                &&& callback.ensures(
                    (self.states()[switch],),
                    (res.0.states().get(switch), res.1.unwrap()),
                )
                &&& res.0.states().remove(switch) == self.states().remove(switch)
            },
    {
        let mut switches = self.switches;
        let ghost old_states = switches@;
        match switches.remove(&switch) {
            Some(state) => {
                let (state, result) = callback(state);
                match state {
                    Some(state) => {
                        switches.insert(switch, state);
                        proof {
                            assert(switches@.remove(switch) =~= old_states.remove(switch));
                        }
                    },
                    None => {
                        proof {
                            assert(switches@.remove(switch) =~= old_states.remove(switch));
                        }
                    },
                }
                (Self { switches }, Some(result))
            },
            None => {
                proof {
                    assert(switches@ =~= old_states);
                }
                (Self { switches }, Some(Err(err)))
            },
        }
    }

    /// Handles a long-press timeout of `switch` whose request is, or is no
    /// longer, live.
    pub fn with_long_press_timeout(self, switch: Sw, request_live: bool) -> (res: (
        Self,
        Option<Result<TimedLongPressEvent, TimedLongClickError>>,
    ))
        requires
            vstd::std_specs::hash::obeys_key_model::<Sw>(),
        ensures
            !request_live ==> res.0@ == self@ && res.1 is None,
            request_live ==> match self@.get(switch) {
                None => res.0@ == self@ && res.1 == Some(
                    Err::<TimedLongPressEvent, TimedLongClickError>(TimedLongClickError::Default),
                ),
                Some(s) => res.0@ == self@.insert(switch, long_press_step(s).0) && res.1 == Some(
                    long_press_step(s).1,
                ),
            },
    {
        if request_live {
            let ghost old_states = self.states();
            let res = self.with_timeout_event(
                switch,
                SwitchState::with_long_press_event,
                TimedLongClickError::Default,
            );
            proof {
                if old_states.contains_key(switch) {
                    let new_states = res.0.states();
                    assert(new_states.contains_key(switch));
                    assert(new_states =~= old_states.remove(switch).insert(switch, new_states[switch]));
                    lemma_phases_update(old_states.remove(switch), switch, Some(new_states[switch]));
                    lemma_phases_update(old_states, switch, None);
                    assert(phases(old_states).remove(switch).insert(switch, new_states[switch]@)
                        =~= phases(old_states).insert(switch, new_states[switch]@));
                }
            }
            res
        } else {
            (self, None)
        }
    }

    /// Handles a long-press timeout of `switch`; the request is honoured only
    /// while it is live.
    pub fn with_long_press_event(self, switch: Sw, request: LongPressHandleRequest) -> (res: (
        Self,
        Option<Result<TimedLongPressEvent, TimedLongClickError>>,
    ))
        requires
            vstd::std_specs::hash::obeys_key_model::<Sw>(),
        ensures
            res.1 is None ==> res.0@ == self@,
            res.1 is Some ==> match self@.get(switch) {
                None => res.0@ == self@ && res.1 == Some(
                    Err::<TimedLongPressEvent, TimedLongClickError>(TimedLongClickError::Default),
                ),
                Some(s) => res.0@ == self@.insert(switch, long_press_step(s).0) && res.1 == Some(
                    long_press_step(s).1,
                ),
            },
    {
        let live = request.is_live();
        self.with_long_press_timeout(switch, live)
    }

    /// Handles a multi-click timeout of `switch` whose request is, or is no
    /// longer, live.
    pub fn with_multi_click_timeout(self, switch: Sw, request_live: bool) -> (res: (
        Self,
        Option<Result<TimedMultiClickEvent, TimedMultiClickError>>,
    ))
        requires
            vstd::std_specs::hash::obeys_key_model::<Sw>(),
        ensures
            !request_live ==> res.0@ == self@ && res.1 is None,
            request_live ==> match self@.get(switch) {
                None => res.0@ == self@ && res.1 == Some(
                    Err::<TimedMultiClickEvent, TimedMultiClickError>(TimedMultiClickError::Default),
                ),
                Some(s) => res.0@ == update(self@, switch, multi_click_step(s).0) && res.1 == Some(
                    multi_click_step(s).1,
                ),
            },
    {
        if request_live {
            let ghost old_states = self.states();
            let res = self.with_timeout_event(
                switch,
                SwitchState::with_multi_click_event,
                TimedMultiClickError::Default,
            );
            proof {
                if old_states.contains_key(switch) {
                    let new_states = res.0.states();
                    lemma_phases_update(old_states, switch, None);
                    if new_states.contains_key(switch) {
                        assert(new_states =~= old_states.remove(switch).insert(switch, new_states[switch]));
                        lemma_phases_update(old_states.remove(switch), switch, Some(new_states[switch]));
                        assert(phases(old_states).remove(switch).insert(switch, new_states[switch]@)
                            =~= phases(old_states).insert(switch, new_states[switch]@));
                    } else {
                        assert(new_states =~= old_states.remove(switch));
                    }
                }
            }
            res
        } else {
            (self, None)
        }
    }

    /// Handles a multi-click timeout of `switch`; the request is honoured
    /// only while it is live.
    pub fn with_multi_click_event(self, switch: Sw, request: MultiClickHandleRequest) -> (res: (
        Self,
        Option<Result<TimedMultiClickEvent, TimedMultiClickError>>,
    ))
        requires
            vstd::std_specs::hash::obeys_key_model::<Sw>(),
        ensures
            res.1 is None ==> res.0@ == self@,
            res.1 is Some ==> match self@.get(switch) {
                None => res.0@ == self@ && res.1 == Some(
                    Err::<TimedMultiClickEvent, TimedMultiClickError>(TimedMultiClickError::Default),
                ),
                Some(s) => res.0@ == update(self@, switch, multi_click_step(s).0) && res.1 == Some(
                    multi_click_step(s).1,
                ),
            },
    {
        let live = request.is_live();
        self.with_multi_click_timeout(switch, live)
    }
}

/// Error of a press event.
#[derive(Clone, Copy, Debug, Eq, PartialEq)]
pub enum TimedPressError {
    AlreadyPressed,
    AlreadyLongPressed,
}

/// Error of a release event.
#[derive(Clone, Copy, Debug, Eq, PartialEq)]
pub enum TimedReleaseError {
    AlreadyReleased,
    AlreadyLongReleased,
}

/// Error of a long-press timeout.
#[derive(Clone, Copy, Debug, Eq, PartialEq)]
pub enum TimedLongClickError {
    Default,
    LongPressed,
    Released,
    LongReleased,
}

/// Error of a multi-click timeout.
#[derive(Clone, Copy, Debug, Eq, PartialEq)]
pub enum TimedMultiClickError {
    Default,
    Pressed,
    LongPressed,
}


/// The model after `k` presses, each followed by a release, of `switch`.
pub open spec fn after_clicks<Sw>(
    m: Map<Sw, (SwitchPhase, NumClicks)>,
    switch: Sw,
    k: nat,
) -> Map<Sw, (SwitchPhase, NumClicks)>
    decreases k,
{
    if k == 0 {
        m
    } else {
        let before = after_clicks(m, switch, (k - 1) as nat);
        let pressed = before.insert(switch, press_step(before.get(switch)).0);
        pressed.insert(switch, release_step(pressed[switch]).0)
    }
}

proof fn lemma_after_clicks<Sw>(m: Map<Sw, (SwitchPhase, NumClicks)>, switch: Sw, k: nat)
    requires
        !m.contains_key(switch),
        1 <= k <= u32::MAX,
    ensures
        after_clicks(m, switch, k) == m.insert(switch, (SwitchPhase::Released, k as u32)),
    decreases k,
{
    let before = after_clicks(m, switch, (k - 1) as nat);
    if k > 1 {
        lemma_after_clicks(m, switch, (k - 1) as nat);
        assert(before.get(switch) == Some((SwitchPhase::Released, (k - 1) as u32)));
        assert(press_step(before.get(switch)).0 == (SwitchPhase::Pressed, (k - 1) as u32));
        assert(release_step((SwitchPhase::Pressed, (k - 1) as u32)).0 == (
            SwitchPhase::Released,
            k as u32,
        ));
        assert(before.insert(switch, (SwitchPhase::Pressed, (k - 1) as u32)).insert(
            switch,
            (SwitchPhase::Released, k as u32),
        ) =~= m.insert(switch, (SwitchPhase::Released, k as u32)));
    } else {
        assert(before == m);
        assert(m.insert(switch, (SwitchPhase::Pressed, 0u32)).insert(
            switch,
            (SwitchPhase::Released, 1u32),
        ) =~= m.insert(switch, (SwitchPhase::Released, 1u32)));
    }
}

/// Multi-click counting: starting from a switch that is in no click
/// sequence, each of `k` presses is accepted and the release that follows it
/// reports a click with the number of clicks so far; the multi-click timeout
/// then reports exactly `k` clicks and forgets the switch, so that the state
/// is the one before the first press.
pub proof fn law_multi_click<Sw>(m: Map<Sw, (SwitchPhase, NumClicks)>, switch: Sw, k: nat)
    requires
        !m.contains_key(switch),
        1 <= k <= u32::MAX,
    ensures
        forall|j: nat|
            j < k ==> {
                let before = #[trigger] after_clicks(m, switch, j);
                let pressed = press_step(before.get(switch));
                &&& pressed.1 is None
                &&& release_step(pressed.0).1 == Ok::<TimedReleaseEvent, TimedReleaseError>(
                    TimedEvent { kind: TimedReleaseEventKind::Click, num_clicks: (j + 1) as u32 },
                )
            },
        after_clicks(m, switch, k)[switch] == (SwitchPhase::Released, k as u32),
        multi_click_step(after_clicks(m, switch, k)[switch]) == (
            None::<(SwitchPhase, NumClicks)>,
            Ok::<TimedMultiClickEvent, TimedMultiClickError>(
                TimedEvent { kind: TimedMultiClickEventKind::ClickExact, num_clicks: k as u32 },
            ),
        ),
        update(after_clicks(m, switch, k), switch, None) == m,
{
    assert forall|j: nat|
        j < k implies {
            let before = #[trigger] after_clicks(m, switch, j);
            let pressed = press_step(before.get(switch));
            &&& pressed.1 is None
            &&& release_step(pressed.0).1 == Ok::<TimedReleaseEvent, TimedReleaseError>(
                TimedEvent { kind: TimedReleaseEventKind::Click, num_clicks: (j + 1) as u32 },
            )
        } by {
        if j > 0 {
            lemma_after_clicks(m, switch, j);
        }
    }
    lemma_after_clicks(m, switch, k);
    assert(m.insert(switch, (SwitchPhase::Released, k as u32)).remove(switch) =~= m);
}

/// Long click: a press of a switch that is in no click sequence, held until
/// the long-press timeout, reports a long press with no finished click; the
/// release then reports one long click, and the multi-click timeout one
/// exact long click, after which the switch is forgotten again.
pub proof fn law_long_click<Sw>(m: Map<Sw, (SwitchPhase, NumClicks)>, switch: Sw)
    requires
        !m.contains_key(switch),
    ensures
        ({
            let pressed = press_step(m.get(switch));
            let long = long_press_step(pressed.0);
            let released = release_step(long.0);
            let exact = multi_click_step(released.0);
            &&& pressed == ((SwitchPhase::Pressed, 0u32), None::<TimedPressError>)
            &&& long.1 == Ok::<TimedLongPressEvent, TimedLongClickError>(
                TimedEvent { kind: TimedLongPressEventKind::LongPress, num_clicks: 0 },
            )
            &&& released.1 == Ok::<TimedReleaseEvent, TimedReleaseError>(
                TimedEvent { kind: TimedReleaseEventKind::LongClick, num_clicks: 1 },
            )
            &&& exact == (
                None::<(SwitchPhase, NumClicks)>,
                Ok::<TimedMultiClickEvent, TimedMultiClickError>(
                    TimedEvent { kind: TimedMultiClickEventKind::LongClickExact, num_clicks: 1 },
                ),
            )
            &&& update(
                m.insert(switch, released.0),
                switch,
                exact.0,
            ) == m
        }),
{
    assert(m.insert(switch, (SwitchPhase::LongReleased, 1u32)).remove(switch) =~= m);
}

/// A switch that is held or long-held refuses a second press, a released
/// switch refuses a second release, and neither refusal changes its phase or
/// click count.
pub proof fn law_refused_events_keep_state(s: (SwitchPhase, NumClicks))
    ensures
        press_step(Some(s)).1 is Some ==> press_step(Some(s)).0 == s,
        release_step(s).1 is Err ==> release_step(s).0 == s,
        long_press_step(s).1 is Err ==> long_press_step(s).0 == s,
        multi_click_step(s).1 is Err ==> multi_click_step(s).0 == Some(s),
{
}

impl<Sw: Clone> Clone for TimedState<Sw> {
    /// A copy holding the same state for every switch; the copy shares the
    /// tags of the original, so a request stays live while either holds it.
    fn clone(&self) -> (res: Self)
        ensures
            res.states() == self.states(),
            res@ == self@,
    {
        Self { switches: self.switches.clone() }
    }
}

/// A live long-press request for a held switch turns it long-pressed with
/// its click count kept and reports a long press with that count; the next
/// release then reports a long click with one more click. A live multi-click
/// request for a released switch reports the exact (long) click count and
/// forgets the switch, so that the next press starts a new sequence. These
/// are the steps that `with_long_press_timeout` and `with_multi_click_timeout`
/// take when the request is live; a stale request changes nothing.
pub proof fn law_live_timeouts<Sw>(n: NumClicks)
    ensures
        long_press_step((SwitchPhase::Pressed, n)) == (
            (SwitchPhase::LongPressed, n),
            Ok::<TimedLongPressEvent, TimedLongClickError>(
                TimedEvent { kind: TimedLongPressEventKind::LongPress, num_clicks: n },
            ),
        ),
        n < u32::MAX ==> release_step((SwitchPhase::LongPressed, n)) == (
            (SwitchPhase::LongReleased, (n + 1) as u32),
            Ok::<TimedReleaseEvent, TimedReleaseError>(
                TimedEvent { kind: TimedReleaseEventKind::LongClick, num_clicks: (n + 1) as u32 },
            ),
        ),
        multi_click_step((SwitchPhase::Released, n)) == (
            None::<(SwitchPhase, NumClicks)>,
            Ok::<TimedMultiClickEvent, TimedMultiClickError>(
                TimedEvent { kind: TimedMultiClickEventKind::ClickExact, num_clicks: n },
            ),
        ),
        multi_click_step((SwitchPhase::LongReleased, n)) == (
            None::<(SwitchPhase, NumClicks)>,
            Ok::<TimedMultiClickEvent, TimedMultiClickError>(
                TimedEvent { kind: TimedMultiClickEventKind::LongClickExact, num_clicks: n },
            ),
        ),
        forall|m: Map<Sw, (SwitchPhase, NumClicks)>, switch: Sw|
            #[trigger] update(m, switch, None::<(SwitchPhase, NumClicks)>) == m.remove(switch),
{
}

/// Only a switch that is held (pressed or long-pressed) refuses a press. A
/// press of a switch in no click sequence starts one with no click yet; a
/// press after a release, whether the released click was short or long,
/// continues the sequence with its clicks so far.
pub proof fn law_press_accepted_unless_held(s: Option<(SwitchPhase, NumClicks)>)
    ensures
        press_step(s).1 is Some <==> (s == Some((SwitchPhase::Pressed, s.unwrap().1)) || s == Some(
            (SwitchPhase::LongPressed, s.unwrap().1),
        )),
        s is None ==> press_step(s) == ((SwitchPhase::Pressed, 0u32), None::<TimedPressError>),
        forall|n: NumClicks|
            #![trigger press_step(Some((SwitchPhase::Released, n)))]
            #![trigger press_step(Some((SwitchPhase::LongReleased, n)))]
            press_step(Some((SwitchPhase::Released, n))) == ((SwitchPhase::Pressed, n), None::<TimedPressError>)
                && press_step(Some((SwitchPhase::LongReleased, n))) == (
                (SwitchPhase::Pressed, n),
                None::<TimedPressError>,
            ),
        press_step(s).1 is Some ==> press_step(s).0 == s.unwrap(),
{
}

} // verus!
