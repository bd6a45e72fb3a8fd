//! Mapping of combined input events to application events.
//!
//! The application lists, for an input, the events it may be mapped to, each
//! with the modifiers it needs. An event is emitted only when the choice is
//! unambiguous: among the candidates whose modifiers are met, one asks for a
//! superset of the buttons every other one asks for. When several candidates
//! ask for that same greatest set of buttons, the first of them wins.

use vstd::prelude::*;

use crate::button::ButtonKind;
use crate::combined::{CombinedEvent, CombinedInput, Event, TimestampMs};
use crate::modifiers::{Modifiers, ModifiersFilter};

verus! {

/// Candidate `i` has its modifiers met by `m`.
pub open spec fn candidate_matches<E>(m: Modifiers, ms: Seq<(E, ModifiersFilter)>, i: int) -> bool {
    0 <= i < ms.len() && ms[i].1.matches(m)
}

/// Candidate `i` is met and asks for every button any met candidate asks for.
pub open spec fn candidate_is_greatest<E>(m: Modifiers, ms: Seq<(E, ModifiersFilter)>, i: int) -> bool {
    &&& candidate_matches(m, ms, i)
    &&& forall|j: int|
        #![trigger ms[j]]
        candidate_matches(m, ms, j) ==> ms[j].1.button_set().subset_of(ms[i].1.button_set())
}

/// The candidate that is emitted: the first greatest one, if there is one.
pub open spec fn selected_candidate<E>(m: Modifiers, ms: Seq<(E, ModifiersFilter)>, i: int) -> bool {
    &&& candidate_is_greatest(m, ms, i)
    &&& forall|k: int| 0 <= k < i ==> !candidate_is_greatest(m, ms, k)
}

/// Whether every button of `a` is in `b`.
fn buttons_subset(a: &Vec<ButtonKind>, b: &Vec<ButtonKind>) -> (res: bool)
    ensures
        res == a@.to_set().subset_of(b@.to_set()),
{
    let mut i: usize = 0;
    while i < a.len()
        invariant
            i <= a.len(),
            forall|k: int| 0 <= k < i ==> b@.contains(#[trigger] a@[k]),
        decreases a.len() - i,
    {
        let mut found = false;
        let mut j: usize = 0;
        while j < b.len()
            invariant
                i < a.len(),
                j <= b.len(),
                found ==> b@.contains(a@[i as int]),
                !found ==> forall|l: int| 0 <= l < j ==> b@[l] != a@[i as int],
            decreases b.len() - j,
        {
            if b[j] == a[i] {
                found = true;
            }
            j += 1;
        }
        if !found {
            assert(a@.to_set().contains(a@[i as int]));
            assert(!b@.contains(a@[i as int]));
            return false;
        }
        i += 1;
    }
    assert forall|x: ButtonKind| a@.to_set().contains(x) implies b@.to_set().contains(x) by {
        let k = choose|k: int| 0 <= k < a@.len() && a@[k] == x;
        assert(b@.contains(a@[k]));
    }
    true
}

/// Whether candidate `i` is the greatest met candidate.
fn is_greatest<E>(modifiers: &Modifiers, mappings: &Vec<(E, ModifiersFilter)>, i: usize) -> (res: bool)
    requires
        modifiers.wf(),
        i < mappings@.len(),
    ensures
        res == candidate_is_greatest(*modifiers, mappings@, i as int),
{
    if !mappings[i].1.is_matched_by(modifiers) {
        return false;
    }
    let mut j: usize = 0;
    while j < mappings.len()
        invariant
            modifiers.wf(),
            i < mappings@.len(),
            j <= mappings.len(),
            candidate_matches(*modifiers, mappings@, i as int),
            forall|k: int|
                #![trigger mappings@[k]]
                0 <= k < j && candidate_matches(*modifiers, mappings@, k)
                    ==> mappings@[k].1.button_set().subset_of(mappings@[i as int].1.button_set()),
        decreases mappings.len() - j,
    {
        if mappings[j].1.is_matched_by(modifiers) && !buttons_subset(
            &mappings[j].1.buttons,
            &mappings[i].1.buttons,
        ) {
            return false;
        }
        j += 1;
    }
    true
}

/// The application event to emit for an input whose candidate mappings are
/// `mappings`, given the modifiers at the time of the input.
pub fn select_mapped_event<E>(modifiers: &Modifiers, mappings: Vec<(E, ModifiersFilter)>) -> (res: Option<E>)
    requires
        modifiers.wf(),
    ensures
        match res {
            Some(e) => exists|i: int| #[trigger]
                selected_candidate(*modifiers, mappings@, i) && e == mappings@[i].0,
            None => forall|i: int| !candidate_is_greatest(*modifiers, mappings@, i),
        },
{
    let mut list = mappings;
    let ghost all = list@;
    let mut i: usize = 0;
    while i < list.len()
        invariant
            modifiers.wf(),
            list@ == all,
            all == mappings@,
            i <= list.len(),
            forall|k: int| 0 <= k < i ==> !candidate_is_greatest(*modifiers, all, k),
        decreases list.len() - i,
    {
        if is_greatest(modifiers, &list, i) {
            let (event, _) = list.remove(i);
            assert(selected_candidate(*modifiers, all, i as int));
            return Some(event);
        }
        i += 1;
    }
    None
}

/// The application event that the candidates `mappings` give for an input
/// at time `timestamp` under the modifiers `m`: the selected candidate's
/// event, stamped with that time, or `None` when no candidate is selected.
pub open spec fn mapped_event<E>(
    m: Modifiers,
    timestamp: TimestampMs,
    mappings: Seq<(E, ModifiersFilter)>,
) -> Option<Event<E>> {
    if exists|i: int| selected_candidate(m, mappings, i) {
        let i = choose|i: int| selected_candidate(m, mappings, i);
        Some(Event { input: mappings[i].0, timestamp })
    } else {
        None
    }
}

/// The modifiers at the time of `ev`.
pub open spec fn modifiers_of<T>(ev: CombinedEvent<T>) -> Modifiers {
    *ev.modifiers
}

/// An application that maps combined input events to its own events.
pub trait MappedContext: Sized {
    type CustomEvent;

    type MappedEvent: Clone;

    /// The events `input` may be mapped to, each with the modifiers it needs.
    fn events(&self, input: &CombinedInput<Self::CustomEvent>) -> Vec<(Self::MappedEvent, ModifiersFilter)>;

    /// Handles one mapped event.
    fn emit(self, ev: Event<Self::MappedEvent>) -> Self;

    /// Maps `ev` and emits the selected event, stamped with the time of `ev`.
    /// The candidates are those that `events` gave for the input of `ev`;
    /// when none is selected the context is handed back unchanged.
    fn process(self, ev: CombinedEvent<Self::CustomEvent>) -> (res: Self)
        requires
            ev.modifiers.wf(),
        ensures
            exists|mappings: Vec<(Self::MappedEvent, ModifiersFilter)>|
                #![trigger call_ensures(Self::events, (&self, &ev.input), mappings)]
                call_ensures(Self::events, (&self, &ev.input), mappings) && match mapped_event(
                    *ev.modifiers,
                    ev.timestamp,
                    mappings@,
                ) {
                    Some(e) => call_ensures(Self::emit, (self, e), res),
                    None => res == self,
                },
    {
        let mappings = self.events(&ev.input);
        let ghost candidates = mappings@;
        let ghost m: Modifiers = modifiers_of(ev);
        match select_mapped_event(&ev.modifiers, mappings) {
            Some(event) => {
                proof {
                    let i = choose|i: int| selected_candidate(m, candidates, i) && event
                        == candidates[i].0;
                    let j = choose|j: int| selected_candidate(m, candidates, j);
                    law_selection_unique(m, candidates, i, j);
                }
                self.emit(Event { input: event, timestamp: ev.timestamp })
            },
            None => self,
        }
    }
}

/// When the modifiers meet exactly one candidate, that candidate is the one
/// selected; when they meet none, none is selected.
pub proof fn law_single_match_selected<E>(m: Modifiers, ms: Seq<(E, ModifiersFilter)>, i: int)
    ensures
        (candidate_matches(m, ms, i) && forall|j: int| j != i ==> !candidate_matches(m, ms, j))
            ==> selected_candidate(m, ms, i),
        (forall|j: int| !candidate_matches(m, ms, j)) ==> forall|k: int|
            !candidate_is_greatest(m, ms, k),
{
}

/// The selected candidate is unique, and each candidate that the modifiers
/// meet asks for no button that the selected one does not ask for.
pub proof fn law_selection_unique<E>(m: Modifiers, ms: Seq<(E, ModifiersFilter)>, i: int, k: int)
    requires
        selected_candidate(m, ms, i),
        selected_candidate(m, ms, k),
    ensures
        i == k,
        forall|j: int|
            candidate_matches(m, ms, j) ==> #[trigger] ms[j].1.button_set().subset_of(
                ms[i].1.button_set(),
            ),
{
}

/// A selected candidate's whole filter is met: each button it asks for is
/// pressed, and each coordinate it names exists and lies in its range, both
/// ends included. A filter that is not met is never selected.
pub proof fn law_selected_filter_is_met<E>(m: Modifiers, ms: Seq<(E, ModifiersFilter)>, i: int)
    requires
        selected_candidate(m, ms, i),
    ensures
        0 <= i < ms.len(),
        forall|k: int| 0 <= k < ms[i].1.buttons@.len() ==> m.buttons@.contains(#[trigger] ms[i].1.buttons@[k]),
        forall|k: int|
            0 <= k < ms[i].1.axes_ranges@.len() ==> {
                let (kind, range) = #[trigger] ms[i].1.axes_ranges@[k];
                &&& m.axis_map().contains_key(kind)
                &&& range.start <= m.axis_map()[kind]
                &&& m.axis_map()[kind] <= range.end
            },
{
    assert forall|k: int| 0 <= k < ms[i].1.buttons@.len() implies m.buttons@.contains(
        #[trigger] ms[i].1.buttons@[k],
    ) by {
        assert(ms[i].1.button_set().contains(ms[i].1.buttons@[k]));
    }
}

} // verus!
