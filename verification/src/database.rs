//! An in-memory store of text blocks, each known by a random 128-bit id and
//! holding its text and the ids of its child blocks.

use std::collections::HashMap;
use vstd::prelude::*;

verus! {

broadcast use vstd::std_specs::hash::group_hash_axioms;

/// The version-4 layout of a random id: version bits `0100`, variant bits
/// `10`.
pub open spec fn is_v4_id(id: u128) -> bool {
    &&& (id >> 76u32) & 0xfu128 == 4
    &&& (id >> 62u32) & 0x3u128 == 2
}

/// A fresh random id: `uuid::Uuid::new_v4`, read as a `u128` with
/// `Uuid::as_u128`. The value depends on the random number generator, so
/// nothing ties it to earlier calls; the source sets the version bits to 4
/// and the variant bits to `10`, and that is all that is claimed.
#[verifier::external_body]
fn new_block_id() -> (id: u128)
    ensures
        is_v4_id(id),
{
    uuid::Uuid::new_v4().as_u128()
}

/// One block: its id, its text and the ids of its children, in order.
#[derive(Debug)]
pub struct MockBlock {
    id: u128,
    spans_text: String,
    children: Vec<u128>,
}

impl View for MockBlock {
    type V = (u128, Seq<char>, Seq<u128>);

    closed spec fn view(&self) -> (u128, Seq<char>, Seq<u128>) {
        (self.id, self.spans_text@, self.children@)
    }
}

/// `i` is the first position of `x` in `s`.
pub open spec fn first_index<T>(s: Seq<T>, x: T, i: int) -> bool {
    &&& 0 <= i < s.len()
    &&& s[i] == x
    &&& forall|j: int| 0 <= j < i ==> s[j] != x
}

impl MockBlock {
    /// An empty block with no children.
    pub fn new(id: u128) -> (res: Self)
        ensures
            res@ == (id, Seq::<char>::empty(), Seq::<u128>::empty()),
    {
        Self { id, spans_text: String::new(), children: Vec::new() }
    }

    pub fn id(&self) -> (res: u128)
        ensures
            res == self@.0,
    {
        self.id
    }

    pub fn spans_text(&self) -> (res: &str)
        ensures
            res@ == self@.1,
    {
        self.spans_text.as_str()
    }

    pub fn children(&self) -> (res: &Vec<u128>)
        ensures
            res@ == self@.2,
    {
        &self.children
    }

    /// Replaces the text of the block.
    pub fn set_spans_text(&mut self, value: String)
        ensures
            final(self)@ == (old(self)@.0, value@, old(self)@.2),
    {
        self.spans_text = value;
    }

    fn position(&self, child: u128) -> (res: Option<usize>)
        ensures
            match res {
                Some(i) => first_index(self@.2, child, i as int),
                None => !self@.2.contains(child),
            },
    {
        let mut i: usize = 0;
        while i < self.children.len()
            invariant
                i <= self.children.len(),
                forall|j: int| 0 <= j < i ==> self.children@[j] != child,
            decreases self.children.len() - i,
        {
            if self.children[i] == child {
                return Some(i);
            }
            i += 1;
        }
        None
    }

    /// Appends `child` unless it already is a child; says whether it was
    /// appended.
    pub fn add_child(&mut self, child: u128) -> (added: bool)
        ensures
            added == !old(self)@.2.contains(child),
            final(self)@.0 == old(self)@.0,
            final(self)@.1 == old(self)@.1,
            final(self)@.2 == if added {
                old(self)@.2.push(child)
            } else {
                old(self)@.2
            },
    {
        match self.position(child) {
            Some(_) => false,
            None => {
                self.children.push(child);
                true
            },
        }
    }

    /// Removes the first occurrence of `child`; says whether there was one.
    pub fn remove_child(&mut self, child: u128) -> (removed: bool)
        ensures
            removed == old(self)@.2.contains(child),
            final(self)@.0 == old(self)@.0,
            final(self)@.1 == old(self)@.1,
            !removed ==> final(self)@.2 == old(self)@.2,
            removed ==> exists|i: int|
                first_index(old(self)@.2, child, i) && final(self)@.2 == old(self)@.2.remove(i),
    {
        match self.position(child) {
            Some(i) => {
                let ghost before = self.children@;
                self.children.remove(i);
                assert(first_index(before, child, i as int));
                true
            },
            None => false,
        }
    }
}

impl Clone for MockBlock {
    fn clone(&self) -> (res: Self)
        ensures
            res@ == self@,
    {
        let children = self.children.clone();
        proof {
            assert forall|i: int| 0 <= i < children@.len() implies children@[i] == self.children@[i] by {
                assert(vstd::pervasive::cloned(self.children[i], children[i]));
            }
            assert(children@ =~= self.children@);
        }
        MockBlock { id: self.id, spans_text: self.spans_text.clone(), children }
    }
}

/// The blocks, by id.
#[derive(Debug)]
pub struct MockDatabase {
    blocks: HashMap<u128, MockBlock>,
}

impl View for MockDatabase {
    type V = Map<u128, (u128, Seq<char>, Seq<u128>)>;

    closed spec fn view(&self) -> Map<u128, (u128, Seq<char>, Seq<u128>)> {
        self.blocks@.map_values(|b: MockBlock| b@)
    }
}

/// The model of a block that was just added under `id`.
pub open spec fn empty_block(id: u128) -> (u128, Seq<char>, Seq<u128>) {
    (id, Seq::<char>::empty(), Seq::<u128>::empty())
}

impl Clone for MockDatabase {
    fn clone(&self) -> (res: Self)
        ensures
            res@ == self@,
    {
        Self { blocks: self.blocks.clone() }
    }
}

impl MockDatabase {
    /// A database without blocks.
    pub fn new() -> (res: Self)
        ensures
            res@ == Map::<u128, (u128, Seq<char>, Seq<u128>)>::empty(),
    {
        let res = Self { blocks: HashMap::new() };
        assert(res@ =~= Map::<u128, (u128, Seq<char>, Seq<u128>)>::empty());
        res
    }

    /// The block with the given id, if there is one.
    pub fn block(&self, id: u128) -> (res: Option<&MockBlock>)
        ensures
            match res {
                Some(b) => self@.contains_key(id) && b@ == self@[id],
                None => !self@.contains_key(id),
            },
    {
        self.blocks.get(&id)
    }

    /// Stores an empty block under `id` unless the id is taken; says whether
    /// it was stored.
    pub fn insert_block(&mut self, id: u128) -> (inserted: bool)
        ensures
            inserted == !old(self)@.contains_key(id),
            inserted ==> final(self)@ == old(self)@.insert(id, empty_block(id)),
            !inserted ==> final(self)@ == old(self)@,
    {
        if self.blocks.contains_key(&id) {
            false
        } else {
            let block = MockBlock::new(id);
            self.blocks.insert(id, block);
            assert(self@ =~= old(self)@.insert(id, empty_block(id)));
            true
        }
    }

    /// Adds an empty block under a fresh random id and returns the id;
    /// returns `None`, and changes nothing, when the random id is already
    /// taken. So it succeeds whenever no block has a version-4 id, in
    /// particular on an empty database.
    pub fn add_block(&mut self) -> (res: Option<u128>)
        ensures
            match res {
                Some(id) => {
                    &&& is_v4_id(id)
                    &&& !old(self)@.contains_key(id)
                    &&& final(self)@ == old(self)@.insert(id, empty_block(id))
                },
                None => {
                    &&& final(self)@ == old(self)@
                    &&& exists|id: u128| is_v4_id(id) && #[trigger] old(self)@.contains_key(id)
                },
            },
    {
        let id = new_block_id();
        if self.insert_block(id) {
            Some(id)
        } else {
            None
        }
    }

    /// Removes the block with the given id; says whether there was one.
    pub fn remove_block(&mut self, id: u128) -> (removed: bool)
        ensures
            removed == old(self)@.contains_key(id),
            final(self)@ == old(self)@.remove(id),
    {
        let removed = self.blocks.remove(&id).is_some();
        assert(self@ =~= old(self)@.remove(id));
        removed
    }
}

/// Removing a block that was just added under a fresh id gives back the
/// database as it was before.
pub proof fn law_add_then_remove(db: Map<u128, (u128, Seq<char>, Seq<u128>)>, id: u128)
    requires
        !db.contains_key(id),
    ensures
        db.insert(id, empty_block(id)).remove(id) == db,
{
    assert(db.insert(id, empty_block(id)).remove(id) =~= db);
}

/// Removing a child that was just appended, and was not a child before,
/// gives back the children as they were.
pub proof fn law_add_then_remove_child(children: Seq<u128>, child: u128, i: int)
    requires
        !children.contains(child),
        first_index(children.push(child), child, i),
    ensures
        i == children.len(),
        children.push(child).remove(i) == children,
{
    if i < children.len() {
        assert(children.contains(children[i]));
    }
    assert(children.push(child).remove(children.len() as int) =~= children);
}

} // verus!
