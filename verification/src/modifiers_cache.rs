//! The set of modifier switches gathered from a list of bindings.

use std::collections::HashSet;
use vstd::prelude::*;

use crate::mapping_modifiers_cache::collect_switches;

verus! {

broadcast use vstd::std_specs::hash::group_hash_axioms;

/// The switches that act as modifiers, each held once.
#[derive(Debug)]
pub struct ModifiersCache<Mo> {
    switches: HashSet<Mo>,
}

impl<Mo> View for ModifiersCache<Mo> {
    type V = Set<Mo>;

    closed spec fn view(&self) -> Set<Mo> {
        self.switches@
    }
}

impl<Mo: Eq + std::hash::Hash> ModifiersCache<Mo> {
    /// A cache holding each of the given switches once.
    pub fn from_switches(switches: Vec<Mo>) -> (res: Self)
        requires
            vstd::std_specs::hash::obeys_key_model::<Mo>(),
        ensures
            res@ == switches@.to_set(),
    {
        Self { switches: collect_switches(switches) }
    }
}

impl<Mo> ModifiersCache<Mo> {
    /// The modifier switches.
    pub fn switches(&self) -> (res: &HashSet<Mo>)
        ensures
            res@ == self@,
    {
        &self.switches
    }
}

impl<Mo> Default for ModifiersCache<Mo> {
    fn default() -> (res: Self)
        ensures
            res@ == Set::<Mo>::empty(),
    {
        Self { switches: HashSet::new() }
    }
}

} // verus!
