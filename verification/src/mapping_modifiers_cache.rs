//! The set of switches that some mapping rule uses as a modifier.

use std::collections::HashSet;
use vstd::prelude::*;

verus! {

broadcast use vstd::std_specs::hash::group_hash_axioms;

/// The switches that act as modifiers in a mapping; presses and releases of
/// other switches never change the modifiers state.
#[derive(Debug)]
pub struct MappingModifiersCache<Mo> {
    switches: HashSet<Mo>,
}

impl<Mo> View for MappingModifiersCache<Mo> {
    type V = Set<Mo>;

    closed spec fn view(&self) -> Set<Mo> {
        self.switches@
    }
}

/// Collects the given switches into a hash set, each once.
pub(crate) fn collect_switches<Mo: Eq + std::hash::Hash>(switches: Vec<Mo>) -> (res: HashSet<Mo>)
    requires
        vstd::std_specs::hash::obeys_key_model::<Mo>(),
    ensures
        res@ == switches@.to_set(),
{
    let ghost all = switches@;
    let mut switches = switches;
    let mut set: HashSet<Mo> = HashSet::new();
    while switches.len() > 0
        invariant
            vstd::std_specs::hash::obeys_key_model::<Mo>(),
            switches@ == all.subrange(0, switches@.len() as int),
            switches@.len() <= all.len(),
            forall|x: Mo|
                set@.contains(x) <==> exists|j: int|
                    switches@.len() <= j < all.len() && #[trigger] all[j] == x,
        decreases switches.len(),
    {
        let ghost before = switches@;
        let x = switches.pop().unwrap();
        proof {
            assert(all[before.len() - 1] == x);
        }
        set.insert(x);
        proof {
            assert forall|y: Mo|
                set@.contains(y) <==> exists|j: int|
                    switches@.len() <= j < all.len() && #[trigger] all[j] == y by {
                if y == x {
                    assert(all[switches@.len() as int] == y);
                }
            }
        }
    }
    proof {
        assert forall|y: Mo| set@.contains(y) <==> all.contains(y) by {
            if all.contains(y) {
                let j = choose|j: int| 0 <= j < all.len() && all[j] == y;
                assert(all[j] == y);
            }
        }
        assert(set@ =~= all.to_set());
    }
    set
}

impl<Mo: Clone + Eq + std::hash::Hash> MappingModifiersCache<Mo> {
    /// A cache holding each of the given switches once.
    pub fn from_switches(switches: Vec<Mo>) -> (res: Self)
        requires
            vstd::std_specs::hash::obeys_key_model::<Mo>(),
        ensures
            res@ == switches@.to_set(),
    {
        Self { switches: collect_switches(switches) }
    }
}

impl<Mo> MappingModifiersCache<Mo> {
    /// The modifier switches.
    pub fn switches(&self) -> (res: &HashSet<Mo>)
        ensures
            res@ == self@,
    {
        &self.switches
    }
}

impl<Mo> Default for MappingModifiersCache<Mo> {
    fn default() -> (res: Self)
        ensures
            res@ == Set::<Mo>::empty(),
    {
        Self { switches: HashSet::new() }
    }
}

} // verus!
