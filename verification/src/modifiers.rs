//! The set of pressed buttons and the current pointer coordinates, and
//! filters over them.

use vstd::prelude::*;

use crate::axis::{AxisKind, AxisValue};
use crate::button::ButtonKind;

verus! {

/// The buttons that are currently pressed, without repetition.
pub type ModifiersButtons = Vec<ButtonKind>;

/// The current value of every existing coordinate, one entry per coordinate.
pub type ModifiersAxes = Vec<(AxisKind, AxisValue)>;

/// Pressed buttons and current coordinates.
#[derive(Debug)]
pub struct Modifiers {
    pub buttons: ModifiersButtons,
    pub axes: ModifiersAxes,
}

/// An inclusive range of coordinate values.
#[derive(Clone, Copy, Debug, Eq, Hash, PartialEq)]
pub struct AxisRange {
    pub start: AxisValue,
    pub end: AxisValue,
}

/// A condition on modifiers: the listed buttons must be pressed and the
/// listed coordinates must exist and lie in their ranges.
#[derive(Clone, Debug)]
pub struct ModifiersFilter {
    pub buttons: Vec<ButtonKind>,
    pub axes_ranges: Vec<(AxisKind, AxisRange)>,
}

/// No key occurs twice in `s`.
pub open spec fn unique_keys<K, V>(s: Seq<(K, V)>) -> bool {
    forall|i: int, j: int|
        0 <= i < s.len() && 0 <= j < s.len() && i != j ==> #[trigger] s[i].0 != #[trigger] s[j].0
}

/// `k` is the key of some entry of `s`.
pub open spec fn has_key<K, V>(s: Seq<(K, V)>, k: K) -> bool {
    exists|i: int| 0 <= i < s.len() && #[trigger] s[i].0 == k
}

/// The map that a list of key-value pairs with unique keys describes.
pub open spec fn pairs_to_map<K, V>(s: Seq<(K, V)>) -> Map<K, V> {
    Map::new(
        |k: K| has_key(s, k),
        |k: K| s[choose|i: int| 0 <= i < s.len() && #[trigger] s[i].0 == k].1,
    )
}

impl AxisRange {
    /// `value` lies in the range, both ends included.
    pub open spec fn spec_contains(&self, value: AxisValue) -> bool {
        self.start <= value <= self.end
    }

    pub fn contains(&self, value: &AxisValue) -> (res: bool)
        ensures
            res == self.spec_contains(*value),
    {
        self.start <= *value && *value <= self.end
    }
}

impl Modifiers {
    /// Buttons occur once each and coordinates once each.
    pub open spec fn wf(&self) -> bool {
        &&& self.buttons@.no_duplicates()
        &&& unique_keys(self.axes@)
    }

    /// The set of pressed buttons.
    pub open spec fn button_set(&self) -> Set<ButtonKind> {
        self.buttons@.to_set()
    }

    /// The current value of every existing coordinate.
    pub open spec fn axis_map(&self) -> Map<AxisKind, AxisValue> {
        pairs_to_map(self.axes@)
    }

    /// No button pressed and no coordinate known.
    pub fn new() -> (res: Self)
        ensures
            res.wf(),
            res.button_set() == Set::<ButtonKind>::empty(),
            res.axis_map() == Map::<AxisKind, AxisValue>::empty(),
    {
        let res = Self { buttons: Vec::new(), axes: Vec::new() };
        assert(res.button_set() =~= Set::<ButtonKind>::empty());
        assert(res.axis_map() =~= Map::<AxisKind, AxisValue>::empty());
        res
    }

    /// Whether `button` is pressed.
    pub fn contains_button(&self, button: &ButtonKind) -> (res: bool)
        ensures
            res == self.button_set().contains(*button),
    {
        let mut i: usize = 0;
        while i < self.buttons.len()
            invariant
                i <= self.buttons.len(),
                forall|j: int| 0 <= j < i ==> self.buttons@[j] != *button,
            decreases self.buttons.len() - i,
        {
            if self.buttons[i] == *button {
                assert(self.buttons@.contains(*button));
                return true;
            }
            i += 1;
        }
        false
    }

    /// Where the entry of coordinate `kind` is, if it exists.
    fn axis_position(&self, kind: &AxisKind) -> (res: Option<usize>)
        ensures
            match res {
                Some(i) => i < self.axes@.len() && self.axes@[i as int].0 == *kind,
                None => !has_key(self.axes@, *kind),
            },
    {
        let mut i: usize = 0;
        while i < self.axes.len()
            invariant
                i <= self.axes.len(),
                forall|j: int| 0 <= j < i ==> self.axes@[j].0 != *kind,
            decreases self.axes.len() - i,
        {
            if self.axes[i].0 == *kind {
                return Some(i);
            }
            i += 1;
        }
        None
    }

    /// The current value of coordinate `kind`.
    pub fn axis(&self, kind: &AxisKind) -> (res: Option<AxisValue>)
        requires
            self.wf(),
        ensures
            res == self.axis_map().get(*kind),
    {
        match self.axis_position(kind) {
            Some(i) => {
                proof {
                    let j = choose|j: int| 0 <= j < self.axes@.len() && #[trigger] self.axes@[j].0 == *kind;
                    assert(self.axes@[j].0 == self.axes@[i as int].0);
                }
                Some(self.axes[i].1)
            },
            None => None,
        }
    }

    /// Presses `button`; returns whether it was not pressed before.
    pub fn insert_button(&mut self, button: ButtonKind) -> (added: bool)
        requires
            old(self).wf(),
        ensures
            final(self).wf(),
            added == !old(self).button_set().contains(button),
            final(self).button_set() == old(self).button_set().insert(button),
            final(self).axes == old(self).axes,
    {
        if self.contains_button(&button) {
            assert(self.button_set().insert(button) =~= self.button_set());
            false
        } else {
            let ghost old_buttons = self.buttons@;
            self.buttons.push(button);
            proof {
                assert(self.buttons@ == old_buttons.push(button));
                assert(self.buttons@.no_duplicates()) by {
                    assert forall|i: int, j: int|
                        0 <= i < self.buttons@.len() && 0 <= j < self.buttons@.len() && i != j
                        implies self.buttons@[i] != self.buttons@[j] by {
                        if i < old_buttons.len() && j < old_buttons.len() {
                        } else if i == old_buttons.len() {
                            assert(old_buttons.contains(old_buttons[j]));
                        } else {
                            assert(old_buttons.contains(old_buttons[i]));
                        }
                    }
                }
                assert forall|x: ButtonKind| #[trigger] self.buttons@.contains(x) <==> (
                    old_buttons.contains(x) || x == button) by {
                    if self.buttons@.contains(x) {
                        let k = choose|k: int| 0 <= k < self.buttons@.len() && self.buttons@[k] == x;
                        if k < old_buttons.len() {
                            assert(old_buttons[k] == x);
                        }
                    }
                    if old_buttons.contains(x) {
                        let k = choose|k: int| 0 <= k < old_buttons.len() && old_buttons[k] == x;
                        assert(self.buttons@[k] == x);
                    }
                    if x == button {
                        assert(self.buttons@[old_buttons.len() as int] == x);
                    }
                }
                assert(self.button_set() =~= old_buttons.to_set().insert(button));
            }
            true
        }
    }

    /// Releases `button`; returns whether it was pressed before.
    pub fn remove_button(&mut self, button: &ButtonKind) -> (removed: bool)
        requires
            old(self).wf(),
        ensures
            final(self).wf(),
            removed == old(self).button_set().contains(*button),
            final(self).button_set() == old(self).button_set().remove(*button),
            final(self).axes == old(self).axes,
    {
        let mut i: usize = 0;
        while i < self.buttons.len()
            invariant
                i <= self.buttons.len(),
                self.buttons@ == old(self).buttons@,
                self.axes == old(self).axes,
                old(self).wf(),
                forall|j: int| 0 <= j < i ==> self.buttons@[j] != *button,
            decreases self.buttons.len() - i,
        {
            if self.buttons[i] == *button {
                let ghost old_buttons = self.buttons@;
                self.buttons.remove(i);
                proof {
                    assert(self.buttons@ == old_buttons.remove(i as int));
                    assert forall|x: ButtonKind| #[trigger] self.buttons@.contains(x) <==> (
                        old_buttons.contains(x) && x != *button) by {
                        if self.buttons@.contains(x) {
                            let k = choose|k: int| 0 <= k < self.buttons@.len() && self.buttons@[k] == x;
                            let ok = if k < i { k } else { k + 1 };
                            assert(old_buttons[ok] == x);
                            assert(ok != i);
                            assert(old_buttons[i as int] == *button);
                            assert(old_buttons[ok] != old_buttons[i as int]);
                        }
                        if old_buttons.contains(x) && x != *button {
                            let k = choose|k: int| 0 <= k < old_buttons.len() && old_buttons[k] == x;
                            if k < i {
                                assert(self.buttons@[k] == x);
                            } else {
                                assert(k != i);
                                assert(self.buttons@[k - 1] == x);
                            }
                        }
                    }
                    assert(self.button_set() =~= old_buttons.to_set().remove(*button));
                    assert(old_buttons[i as int] == *button);
                    assert(old_buttons.contains(*button));
                    assert(self.buttons@.no_duplicates()) by {
                        assert forall|a: int, b: int|
                            0 <= a < self.buttons@.len() && 0 <= b < self.buttons@.len() && a != b
                            implies self.buttons@[a] != self.buttons@[b] by {
                            let oa = if a < i { a } else { a + 1 };
                            let ob = if b < i { b } else { b + 1 };
                            assert(self.buttons@[a] == old_buttons[oa]);
                            assert(self.buttons@[b] == old_buttons[ob]);
                        }
                    }
                }
                return true;
            }
            i += 1;
        }
        assert(!self.buttons@.contains(*button));
        assert(self.button_set().remove(*button) =~= self.button_set());
        false
    }

    /// Sets coordinate `kind` to `value`; returns its previous value.
    pub fn set_axis(&mut self, kind: AxisKind, value: AxisValue) -> (prev: Option<AxisValue>)
        requires
            old(self).wf(),
        ensures
            final(self).wf(),
            prev == old(self).axis_map().get(kind),
            final(self).axis_map() == old(self).axis_map().insert(kind, value),
            final(self).buttons == old(self).buttons,
    {
        let ghost old_axes = self.axes@;
        let prev = self.axis(&kind);
        match self.axis_position(&kind) {
            Some(i) => {
                self.axes.set(i, (kind, value));
                proof {
                    assert(self.axes@ == old_axes.update(i as int, (kind, value)));
                    assert(unique_keys(self.axes@));
                    assert forall|k: AxisKind| #[trigger] has_key(self.axes@, k) <==> has_key(old_axes, k) by {
                        if has_key(old_axes, k) {
                            let j = choose|j: int| 0 <= j < old_axes.len() && #[trigger] old_axes[j].0 == k;
                            assert(self.axes@[j].0 == k);
                        }
                        if has_key(self.axes@, k) {
                            let j = choose|j: int| 0 <= j < self.axes@.len() && #[trigger] self.axes@[j].0 == k;
                            assert(old_axes[j].0 == k);
                        }
                    }
                    assert forall|k: AxisKind| has_key(self.axes@, k) && k != kind implies #[trigger] pairs_to_map(
                        self.axes@,
                    )[k] == pairs_to_map(old_axes)[k] by {
                        let j1 = choose|j: int| 0 <= j < self.axes@.len() && #[trigger] self.axes@[j].0 == k;
                        let j2 = choose|j: int| 0 <= j < old_axes.len() && #[trigger] old_axes[j].0 == k;
                        assert(old_axes[j1].0 == k);
                    }
                    let j = choose|j: int| 0 <= j < self.axes@.len() && #[trigger] self.axes@[j].0 == kind;
                    assert(self.axes@[j].0 == self.axes@[i as int].0);
                    assert(self.axis_map() =~= pairs_to_map(old_axes).insert(kind, value));
                }
            },
            None => {
                self.axes.push((kind, value));
                proof {
                    assert(self.axes@ == old_axes.push((kind, value)));
                    assert(unique_keys(self.axes@)) by {
                        assert forall|i: int, j: int|
                            0 <= i < self.axes@.len() && 0 <= j < self.axes@.len() && i != j
                            implies #[trigger] self.axes@[i].0 != #[trigger] self.axes@[j].0 by {
                            if i == old_axes.len() {
                                assert(old_axes[j].0 == self.axes@[j].0);
                            } else if j == old_axes.len() {
                                assert(old_axes[i].0 == self.axes@[i].0);
                            }
                        }
                    }
                    assert forall|k: AxisKind| #[trigger] has_key(self.axes@, k) <==> (has_key(old_axes, k) || k == kind) by {
                        if has_key(old_axes, k) {
                            let j = choose|j: int| 0 <= j < old_axes.len() && #[trigger] old_axes[j].0 == k;
                            assert(self.axes@[j].0 == k);
                        }
                        if has_key(self.axes@, k) && k != kind {
                            let j = choose|j: int| 0 <= j < self.axes@.len() && #[trigger] self.axes@[j].0 == k;
                            assert(old_axes[j].0 == k);
                        }
                        if k == kind {
                            assert(self.axes@[old_axes.len() as int].0 == k);
                        }
                    }
                    assert forall|k: AxisKind| has_key(old_axes, k) implies #[trigger] pairs_to_map(
                        self.axes@,
                    )[k] == pairs_to_map(old_axes)[k] by {
                        let j1 = choose|j: int| 0 <= j < self.axes@.len() && #[trigger] self.axes@[j].0 == k;
                        let j2 = choose|j: int| 0 <= j < old_axes.len() && #[trigger] old_axes[j].0 == k;
                        assert(self.axes@[j2].0 == k);
                    }
                    let j = choose|j: int| 0 <= j < self.axes@.len() && #[trigger] self.axes@[j].0 == kind;
                    assert(self.axes@[old_axes.len() as int].0 == kind);
                    assert(self.axis_map() =~= pairs_to_map(old_axes).insert(kind, value));
                }
            },
        }
        prev
    }

    /// Removes coordinate `kind`; returns its previous value.
    pub fn remove_axis(&mut self, kind: &AxisKind) -> (prev: Option<AxisValue>)
        requires
            old(self).wf(),
        ensures
            final(self).wf(),
            prev == old(self).axis_map().get(*kind),
            final(self).axis_map() == old(self).axis_map().remove(*kind),
            final(self).buttons == old(self).buttons,
    {
        let ghost old_axes = self.axes@;
        let prev = self.axis(kind);
        match self.axis_position(kind) {
            Some(i) => {
                self.axes.remove(i);
                proof {
                    let new_axes = self.axes@;
                    assert(new_axes == old_axes.remove(i as int));
                    assert forall|a: int| 0 <= a < new_axes.len() implies #[trigger] new_axes[a] == old_axes[if a
                        < i {
                        a
                    } else {
                        a + 1
                    }] by {}
                    assert(unique_keys(new_axes)) by {
                        assert forall|a: int, b: int|
                            0 <= a < new_axes.len() && 0 <= b < new_axes.len() && a != b
                            implies #[trigger] new_axes[a].0 != #[trigger] new_axes[b].0 by {
                            let oa = if a < i { a } else { a + 1 };
                            let ob = if b < i { b } else { b + 1 };
                            assert(new_axes[a] == old_axes[oa]);
                            assert(new_axes[b] == old_axes[ob]);
                        }
                    }
                    assert forall|k: AxisKind| #[trigger] has_key(new_axes, k) <==> (has_key(old_axes, k) && k != *kind) by {
                        if has_key(new_axes, k) {
                            let a = choose|a: int| 0 <= a < new_axes.len() && #[trigger] new_axes[a].0 == k;
                            let oa = if a < i { a } else { a + 1 };
                            assert(new_axes[a] == old_axes[oa]);
                            assert(old_axes[oa].0 == k);
                            assert(oa != i);
                        }
                        if has_key(old_axes, k) && k != *kind {
                            let oa = choose|a: int| 0 <= a < old_axes.len() && #[trigger] old_axes[a].0 == k;
                            assert(oa != i);
                            let a = if oa < i { oa } else { oa - 1 };
                            assert(new_axes[a] == old_axes[oa]);
                            assert(new_axes[a].0 == k);
                        }
                    }
                    assert forall|k: AxisKind| has_key(new_axes, k) implies #[trigger] pairs_to_map(new_axes)[k]
                        == pairs_to_map(old_axes)[k] by {
                        let a = choose|a: int| 0 <= a < new_axes.len() && #[trigger] new_axes[a].0 == k;
                        let oa = if a < i { a } else { a + 1 };
                        assert(new_axes[a] == old_axes[oa]);
                        let ob = choose|b: int| 0 <= b < old_axes.len() && #[trigger] old_axes[b].0 == k;
                        assert(old_axes[oa].0 == k);
                    }
                    assert(self.axis_map() =~= pairs_to_map(old_axes).remove(*kind));
                }
            },
            None => {
                proof {
                    assert(self.axis_map() =~= pairs_to_map(old_axes).remove(*kind));
                }
            },
        }
        prev
    }
}

impl Clone for Modifiers {
    fn clone(&self) -> (res: Self)
        ensures
            res.buttons@ == self.buttons@,
            res.axes@ == self.axes@,
    {
        let buttons = self.buttons.clone();
        let mut axes: Vec<(AxisKind, AxisValue)> = Vec::new();
        let mut i: usize = 0;
        while i < self.axes.len()
            invariant
                i <= self.axes.len(),
                axes@ == self.axes@.take(i as int),
            decreases self.axes.len() - i,
        {
            axes.push(self.axes[i]);
            proof {
                assert(self.axes@.take(i + 1) =~= self.axes@.take(i as int).push(self.axes@[i as int]));
            }
            i += 1;
        }
        proof {
            assert(buttons@ =~= self.buttons@);
            assert(self.axes@.take(self.axes@.len() as int) =~= self.axes@);
        }
        Self { buttons, axes }
    }
}

impl Default for Modifiers {
    fn default() -> (res: Self)
        ensures
            res.wf(),
            res.button_set() == Set::<ButtonKind>::empty(),
            res.axis_map() == Map::<AxisKind, AxisValue>::empty(),
    {
        Self::new()
    }
}

impl ModifiersFilter {
    /// The buttons the filter asks for.
    pub open spec fn button_set(&self) -> Set<ButtonKind> {
        self.buttons@.to_set()
    }

    /// Every coordinate range of the filter is met by the current value of
    /// that coordinate, which must exist.
    pub open spec fn axes_match(&self, axes: Map<AxisKind, AxisValue>) -> bool {
        forall|i: int|
            0 <= i < self.axes_ranges@.len() ==> {
                let (kind, range) = #[trigger] self.axes_ranges@[i];
                axes.contains_key(kind) && range.spec_contains(axes[kind])
            }
    }

    /// The filter is met by `modifiers`.
    pub open spec fn matches(&self, modifiers: Modifiers) -> bool {
        &&& self.button_set().subset_of(modifiers.button_set())
        &&& self.axes_match(modifiers.axis_map())
    }

    /// A filter that asks for nothing.
    pub fn new() -> (res: Self)
        ensures
            res.buttons@ == Seq::<ButtonKind>::empty(),
            res.axes_ranges@ == Seq::<(AxisKind, AxisRange)>::empty(),
    {
        Self { buttons: Vec::new(), axes_ranges: Vec::new() }
    }

    /// Whether `modifiers` meet the filter.
    pub fn is_matched_by(&self, modifiers: &Modifiers) -> (res: bool)
        requires
            modifiers.wf(),
        ensures
            res == self.matches(*modifiers),
    {
        let mut i: usize = 0;
        while i < self.buttons.len()
            invariant
                i <= self.buttons.len(),
                forall|j: int| 0 <= j < i ==> modifiers.button_set().contains(#[trigger] self.buttons@[j]),
            decreases self.buttons.len() - i,
        {
            if !modifiers.contains_button(&self.buttons[i]) {
                assert(self.button_set().contains(self.buttons@[i as int]));
                return false;
            }
            i += 1;
        }
        assert(self.button_set().subset_of(modifiers.button_set())) by {
            assert forall|b: ButtonKind| self.button_set().contains(b) implies modifiers.button_set().contains(b) by {
                let j = choose|j: int| 0 <= j < self.buttons@.len() && self.buttons@[j] == b;
            }
        }
        let mut k: usize = 0;
        while k < self.axes_ranges.len()
            invariant
                k <= self.axes_ranges.len(),
                modifiers.wf(),
                forall|j: int|
                    0 <= j < k ==> {
                        let (kind, range) = #[trigger] self.axes_ranges@[j];
                        modifiers.axis_map().contains_key(kind) && range.spec_contains(
                            modifiers.axis_map()[kind],
                        )
                    },
            decreases self.axes_ranges.len() - k,
        {
            let (kind, range) = self.axes_ranges[k];
            match modifiers.axis(&kind) {
                Some(value) => {
                    if !range.contains(&value) {
                        return false;
                    }
                },
                None => {
                    return false;
                },
            }
            k += 1;
        }
        true
    }
}

impl Default for ModifiersFilter {
    fn default() -> (res: Self)
        ensures
            res.buttons@ == Seq::<ButtonKind>::empty(),
            res.axes_ranges@ == Seq::<(AxisKind, AxisRange)>::empty(),
    {
        Self::new()
    }
}

/// Adding a button that is not pressed and removing it again gives back the
/// buttons from before; setting a coordinate that is not known and removing
/// it again gives back the coordinates from before; of two settings of one
/// coordinate the later one holds.
pub proof fn law_modifier_round_trips(
    buttons: Set<ButtonKind>,
    axes: Map<AxisKind, AxisValue>,
    button: ButtonKind,
    kind: AxisKind,
    first: AxisValue,
    second: AxisValue,
)
    ensures
        !buttons.contains(button) ==> buttons.insert(button).remove(button) == buttons,
        !axes.contains_key(kind) ==> axes.insert(kind, first).remove(kind) == axes,
        axes.insert(kind, first).insert(kind, second) == axes.insert(kind, second),
{
    assert(!buttons.contains(button) ==> buttons.insert(button).remove(button) =~= buttons);
    assert(!axes.contains_key(kind) ==> axes.insert(kind, first).remove(kind) =~= axes);
    assert(axes.insert(kind, first).insert(kind, second) =~= axes.insert(kind, second));
}

} // verus!
