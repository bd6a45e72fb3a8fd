//! Tracking of the set of currently enabled modifier switches, attached to
//! every event.

use std::collections::BTreeSet;
use std::sync::Arc;
use vstd::prelude::*;

verus! {

broadcast use vstd::std_specs::btree::group_btree_axioms;

/// An event together with the modifier switches that were enabled when it
/// happened (after the event itself was applied).
#[derive(Clone, Debug, Eq, Hash, Ord, PartialEq, PartialOrd)]
pub struct EventWithModifiers<Ev, Sw> {
    pub event: Ev,
    pub modifiers: Arc<BTreeSet<Sw>>,
}

/// The set of currently enabled modifier switches.
#[derive(Debug, Eq, Hash, Ord, PartialEq, PartialOrd)]
pub struct ModifiedState<Sw> {
    modifiers: Arc<BTreeSet<Sw>>,
}

impl<Sw> ModifiedState<Sw> {
    /// The set of enabled switches.
    pub closed spec fn spec_modifiers(&self) -> Set<Sw> {
        self.modifiers@
    }
}

impl<Ev, Sw> EventWithModifiers<Ev, Sw> {
    /// The modifier state after this event.
    pub fn to_state(&self) -> (res: ModifiedState<Sw>)
        ensures
            res.spec_modifiers() == self.modifiers@,
    {
        ModifiedState { modifiers: Arc::clone(&self.modifiers) }
    }
}

impl<Sw> ModifiedState<Sw> {
    /// A state with no enabled switch.
    pub fn new() -> (res: Self)
        ensures
            res.spec_modifiers() == Set::<Sw>::empty(),
    {
        Self { modifiers: Arc::new(BTreeSet::new()) }
    }

    /// The enabled switches.
    pub fn modifiers(&self) -> (res: &Arc<BTreeSet<Sw>>)
        ensures
            res@ == self.spec_modifiers(),
    {
        &self.modifiers
    }

    /// Enables `switch` and attaches the resulting set to `event`.
    pub fn with_press_event<Ev>(self, event: Ev, switch: Sw) -> (res: EventWithModifiers<Ev, Sw>)
        where
            Sw: Clone + Eq + std::hash::Hash + Ord,
        requires
            vstd::laws_cmp::obeys_cmp::<Sw>(),
            !self.spec_modifiers().contains(switch),
        ensures
            res.event == event,
            res.modifiers@ == self.spec_modifiers().insert(switch),
    {
        let mut modifiers: BTreeSet<Sw> = (*self.modifiers).clone();
        let is_added = modifiers.insert(switch);
        assert(is_added);
        EventWithModifiers { event, modifiers: Arc::new(modifiers) }
    }

    /// Disables `switch` and attaches the resulting set to `event`.
    pub fn with_release_event<Ev>(self, event: Ev, switch: Sw) -> (res: EventWithModifiers<Ev, Sw>)
        where
            Sw: Clone + Eq + std::hash::Hash + Ord,
        requires
            vstd::laws_cmp::obeys_cmp::<Sw>(),
            self.spec_modifiers().contains(switch),
        ensures
            res.event == event,
            res.modifiers@ == self.spec_modifiers().remove(switch),
    {
        let mut modifiers: BTreeSet<Sw> = (*self.modifiers).clone();
        let is_removed = modifiers.remove(&switch);
        assert(is_removed);
        EventWithModifiers { event, modifiers: Arc::new(modifiers) }
    }

    /// Attaches the current set to `event` without changing it.
    pub fn with_trigger_event<Ev>(self, event: Ev) -> (res: EventWithModifiers<Ev, Sw>)
        where
            Sw: Clone + Eq + std::hash::Hash + Ord,
        ensures
            res.event == event,
            res.modifiers@ == self.spec_modifiers(),
    {
        let modifiers = self.modifiers;
        EventWithModifiers { event, modifiers }
    }
}

impl<Sw> Default for ModifiedState<Sw> {
    fn default() -> (res: Self)
        ensures
            res.spec_modifiers() == Set::<Sw>::empty(),
    {
        Self::new()
    }
}

impl<Ev, Sw> From<EventWithModifiers<Ev, Sw>> for ModifiedState<Sw> {
    /// The modifier state after an event, taking the event's set.
    fn from(event: EventWithModifiers<Ev, Sw>) -> (res: Self)
        ensures
            res.spec_modifiers() == event.modifiers@,
    {
        ModifiedState { modifiers: event.modifiers }
    }
}

impl<Ev, Sw> vstd::std_specs::convert::FromSpecImpl<EventWithModifiers<Ev, Sw>> for ModifiedState<Sw> {
    open spec fn obeys_from_spec() -> bool {
        true
    }

    closed spec fn from_spec(event: EventWithModifiers<Ev, Sw>) -> Self {
        ModifiedState { modifiers: event.modifiers }
    }
}

/// Pressing a switch that is not enabled and then releasing it gives back the
/// set of enabled switches from before; so does releasing an enabled switch
/// and pressing it again.
pub proof fn law_press_release_restores<Sw>(modifiers: Set<Sw>, switch: Sw)
    ensures
        !modifiers.contains(switch) ==> modifiers.insert(switch).remove(switch) == modifiers,
        modifiers.contains(switch) ==> modifiers.remove(switch).insert(switch) == modifiers,
{
    assert(!modifiers.contains(switch) ==> modifiers.insert(switch).remove(switch) =~= modifiers);
    assert(modifiers.contains(switch) ==> modifiers.remove(switch).insert(switch) =~= modifiers);
}

impl<Sw> Clone for ModifiedState<Sw> {
    /// A copy with the same enabled switches, sharing the original's set.
    fn clone(&self) -> (res: Self)
        ensures
            res.spec_modifiers() == self.spec_modifiers(),
    {
        ModifiedState { modifiers: Arc::clone(&self.modifiers) }
    }
}

} // verus!
