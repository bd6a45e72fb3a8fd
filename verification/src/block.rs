//! Parses indented text into a tree of blocks.
//!
//! Each non-blank line opens a block whose text is the line without its
//! leading blanks. The leading blanks (spaces and tabs) are the line's
//! indentation: a line indented deeper than the previous one opens a child of
//! the previous block, a line with the same indentation a sibling, and a line
//! with a shallower indentation closes the deeper blocks. Indentations are
//! compared as strings, by lexicographic order of their characters.

use vstd::prelude::*;

verus! {

/// Identifier of a block, as written in a link.
#[derive(Clone, Copy, Debug, Eq, Hash, PartialEq)]
pub struct BlockId<'a>(pub &'a str);

/// A block: its text and its children.
#[derive(Debug)]
pub struct Block {
    spans: String,
    blocks: Vec<Block>,
}

/// The open blocks, one level per indentation, from the shallowest to the
/// deepest.
#[derive(Debug)]
pub struct BlockParser<'a> {
    nestings: Vec<(&'a str, ParserNestingLevel)>,
}

/// One indentation level: the completed blocks of this level and the text of
/// the block that is still open.
#[derive(Debug)]
pub struct ParserNestingLevel {
    blocks: Vec<Block>,
    spans: String,
}

/// `c` is a space or a tab.
pub open spec fn is_blank(c: char) -> bool {
    c == ' ' || c == '\t'
}

/// The number of blanks `line` starts with.
pub open spec fn blank_prefix_len(line: Seq<char>) -> int
    decreases line.len(),
{
    if line.len() > 0 && is_blank(line[0]) {
        1 + blank_prefix_len(line.drop_first())
    } else {
        0
    }
}

/// `a` comes before `b` in lexicographic order of their characters.
pub open spec fn lex_lt(a: Seq<char>, b: Seq<char>) -> bool {
    exists|i: int|
        0 <= i <= a.len() && i <= b.len() && a.take(i) == b.take(i) && ((i == a.len() && i < b.len())
            || (i < a.len() && i < b.len() && (a[i] as u32) < (b[i] as u32)))
}

/// Length of the leading run of spaces and tabs of `line`, found with the
/// regular expression `^[ \t]*` (`regex::Regex::new`, `Regex::find`,
/// `Match::end`). The expression is anchored and its star is greedy, so the
/// match starts at 0 and ends after the last leading blank; every blank is
/// one byte, so this byte offset is also a character count.
#[verifier::external_body]
fn leading_blanks_end(line: &str) -> (end: usize)
    ensures
        0 <= end <= line@.len(),
        forall|i: int| 0 <= i < end ==> is_blank(#[trigger] line@[i]),
        end == line@.len() || !is_blank(line@[end as int]),
{
    regex::Regex::new("^[ \t]*").unwrap().find(line).unwrap().end()
}

proof fn lemma_blank_prefix_len(line: Seq<char>, n: int)
    requires
        0 <= n <= line.len(),
        forall|i: int| 0 <= i < n ==> is_blank(#[trigger] line[i]),
        n == line.len() || !is_blank(line[n]),
    ensures
        blank_prefix_len(line) == n,
    decreases n,
{
    if n > 0 {
        assert(is_blank(line[0]));
        assert forall|i: int| 0 <= i < n - 1 implies is_blank(#[trigger] line.drop_first()[i]) by {
            assert(line.drop_first()[i] == line[i + 1]);
        }
        if n < line.len() {
            assert(line.drop_first()[n - 1] == line[n]);
        }
        lemma_blank_prefix_len(line.drop_first(), n - 1);
    }
}

/// Whether `a` comes before `b` in lexicographic order.
fn str_lt(a: &str, b: &str) -> (res: bool)
    ensures
        res == lex_lt(a@, b@),
{
    let la = a.unicode_len();
    let lb = b.unicode_len();
    let mut i: usize = 0;
    while i < la && i < lb
        invariant
            la == a@.len(),
            lb == b@.len(),
            i <= la,
            i <= lb,
            a@.take(i as int) == b@.take(i as int),
        decreases la - i,
    {
        let ca = a.get_char(i);
        let cb = b.get_char(i);
        if ca != cb {
            let res = (ca as u32) < (cb as u32);
            proof {
                if res {
                    assert(lex_lt(a@, b@));
                } else {
                    assert forall|j: int|
                        0 <= j <= a@.len() && j <= b@.len() && a@.take(j) == b@.take(j) implies !((j
                        == a@.len() && j < b@.len()) || (j < a@.len() && j < b@.len() && (a@[j] as u32)
                        < (b@[j] as u32))) by {
                        if j > i {
                            assert(a@.take(j)[i as int] == a@[i as int]);
                            assert(b@.take(j)[i as int] == b@[i as int]);
                        } else if j < i {
                            assert(a@.take(i as int)[j] == a@[j]);
                            assert(b@.take(i as int)[j] == b@[j]);
                        }
                    }
                }
            }
            return res;
        }
        proof {
            assert(a@.take(i + 1) =~= a@.take(i as int).push(a@[i as int]));
            assert(b@.take(i + 1) =~= b@.take(i as int).push(b@[i as int]));
        }
        i += 1;
    }
    let res = i == la && i < lb;
    proof {
        if res {
            assert(lex_lt(a@, b@));
        } else {
            assert forall|j: int|
                0 <= j <= a@.len() && j <= b@.len() && a@.take(j) == b@.take(j) implies !((j == a@.len()
                && j < b@.len()) || (j < a@.len() && j < b@.len() && (a@[j] as u32) < (b@[j] as u32))) by {
                if j < i {
                    assert(a@.take(i as int)[j] == a@[j]);
                    assert(b@.take(i as int)[j] == b@[j]);
                }
            }
        }
    }
    res
}

impl Block {
    /// The text of the block.
    pub closed spec fn spec_spans(&self) -> Seq<char> {
        self.spans@
    }

    /// The children of the block.
    pub closed spec fn spec_blocks(&self) -> Seq<Block> {
        self.blocks@
    }

    /// The text of the block.
    pub fn spans(&self) -> (res: &str)
        ensures
            res@ == self.spec_spans(),
    {
        self.spans.as_str()
    }

    /// The children of the block.
    pub fn blocks(&self) -> (res: &Vec<Block>)
        ensures
            res@ == self.spec_blocks(),
    {
        &self.blocks
    }
}

impl ParserNestingLevel {
    /// The completed blocks of the level.
    pub closed spec fn spec_blocks(&self) -> Seq<Block> {
        self.blocks@
    }

    /// The text of the open block of the level.
    pub closed spec fn spec_spans(&self) -> Seq<char> {
        self.spans@
    }
}

/// The index of the first indentation from `k` on that is not before
/// `prefix`, or the number of indentations when there is none.
pub open spec fn split_from(indents: Seq<Seq<char>>, prefix: Seq<char>, k: int) -> int
    decreases indents.len() - k,
{
    if 0 <= k < indents.len() && lex_lt(indents[k], prefix) {
        split_from(indents, prefix, k + 1)
    } else {
        k
    }
}

/// `blocks` is what the levels from `i` on fold into: the completed blocks of
/// level `i`, then its open block, whose children are what the deeper levels
/// fold into.
pub open spec fn folds_to(levels: Seq<ParserNestingLevel>, i: int, blocks: Seq<Block>) -> bool
    decreases levels.len() - i,
{
    if i < 0 || i >= levels.len() {
        blocks.len() == 0
    } else {
        let level = levels[i];
        &&& blocks.len() == level.spec_blocks().len() + 1
        &&& blocks.take(level.spec_blocks().len() as int) == level.spec_blocks()
        &&& blocks.last().spec_spans() == level.spec_spans()
        &&& folds_to(levels, i + 1, blocks.last().spec_blocks())
    }
}

impl<'a> BlockParser<'a> {
    /// The indentations of the open levels, from the shallowest.
    pub closed spec fn indents(&self) -> Seq<Seq<char>> {
        self.nestings@.map_values(|p: (&'a str, ParserNestingLevel)| p.0@)
    }

    /// The open levels, from the shallowest.
    pub closed spec fn levels(&self) -> Seq<ParserNestingLevel> {
        self.nestings@.map_values(|p: (&'a str, ParserNestingLevel)| p.1)
    }

    /// The indentations strictly increase from level to level.
    pub open spec fn sorted(&self) -> bool {
        forall|i: int, j: int|
            0 <= i < j < self.indents().len() ==> lex_lt(#[trigger] self.indents()[i], #[trigger] self.indents()[j])
    }

    /// The index of the first open level whose indentation is not before
    /// `prefix`, or the number of levels when there is none.
    pub open spec fn split_point(&self, prefix: Seq<char>) -> int {
        split_from(self.indents(), prefix, 0)
    }

    /// A line is accepted when it is blank, or when its indentation is that
    /// of the first open level whose indentation does not come before it, or
    /// comes after the indentation of every open level.
    pub open spec fn accepts(&self, line: Seq<char>) -> bool {
        let n = blank_prefix_len(line);
        let prefix = line.take(n);
        let k = self.split_point(prefix);
        n == line.len() || k == self.indents().len() || self.indents()[k] == prefix
    }

    /// A parser with no open level.
    pub fn new() -> (res: Self)
        ensures
            res.levels().len() == 0,
            res.indents().len() == 0,
            res.sorted(),
    {
        Self { nestings: Vec::new() }
    }

    /// Closes every level and returns the top-level blocks.
    pub fn into_blocks(self) -> (res: Vec<Block>)
        ensures
            folds_to(self.levels(), 0, res@),
    {
        let ghost levels = self.levels();
        let mut nestings = self.nestings;
        let mut children: Vec<Block> = Vec::new();
        while nestings.len() > 0
            invariant
                nestings@.len() <= levels.len(),
                forall|i: int| 0 <= i < nestings@.len() ==> #[trigger] nestings@[i].1 == levels[i],
                folds_to(levels, nestings@.len() as int, children@),
            decreases nestings.len(),
        {
            let ghost n = nestings@.len() as int;
            let (_, nesting) = nestings.pop().unwrap();
            let mut blocks = nesting.blocks;
            let ghost completed = blocks@;
            blocks.push(Block { spans: nesting.spans, blocks: children });
            proof {
                assert(nesting == levels[n - 1]);
                assert(blocks@.take(completed.len() as int) =~= completed);
            }
            children = blocks;
        }
        children
    }

    /// Whether `with` accepts `line` (see `accepts`).
    pub fn accepts_line(&self, line: &str) -> (res: bool)
        ensures
            res == self.accepts(line@),
    {
        let prefix_len = leading_blanks_end(line);
        proof {
            lemma_blank_prefix_len(line@, prefix_len as int);
        }
        if prefix_len == line.unicode_len() {
            return true;
        }
        let prefix = line.substring_char(0, prefix_len);
        let k = self.find_split(prefix);
        k == self.nestings.len() || str_eq(self.nestings[k].0, prefix)
    }

    /// The index of the first open level whose indentation is not before
    /// `prefix`.
    fn find_split(&self, prefix: &str) -> (k: usize)
        ensures
            k as int == self.split_point(prefix@),
            k <= self.nestings@.len(),
            forall|j: int| 0 <= j < k ==> lex_lt(#[trigger] self.indents()[j], prefix@),
            k < self.nestings@.len() ==> !lex_lt(self.indents()[k as int], prefix@),
    {
        let mut k: usize = 0;
        while k < self.nestings.len()
            invariant
                k <= self.nestings@.len(),
                self.indents().len() == self.nestings@.len(),
                split_from(self.indents(), prefix@, 0) == split_from(self.indents(), prefix@, k as int),
                forall|j: int| 0 <= j < k ==> lex_lt(#[trigger] self.indents()[j], prefix@),
            decreases self.nestings.len() - k,
        {
            if !str_lt(self.nestings[k].0, prefix) {
                assert(self.indents()[k as int] == self.nestings@[k as int].0@);
                return k;
            }
            assert(self.indents()[k as int] == self.nestings@[k as int].0@);
            k += 1;
        }
        k
    }

    /// Adds one line. A blank line changes nothing. Otherwise the levels
    /// whose indentation is not before the line's indentation are closed and
    /// become the completed blocks of a new level with that indentation,
    /// whose open block holds the text of the line.
    pub fn with(self, line: &'a str) -> (res: Self)
        requires
            self.sorted(),
            self.accepts(line@),
        ensures
            res.sorted(),
            ({
                let n = blank_prefix_len(line@);
                let prefix = line@.take(n);
                let k = self.split_point(prefix);
                if n == line@.len() {
                    res.levels() == self.levels() && res.indents() == self.indents()
                } else {
                    &&& res.indents() == self.indents().take(k).push(prefix)
                    &&& res.levels().len() == k + 1
                    &&& res.levels().take(k) == self.levels().take(k)
                    &&& res.levels()[k].spec_spans() == line@.skip(n)
                    &&& folds_to(self.levels().skip(k), 0, res.levels()[k].spec_blocks())
                }
            }),
    {
        let prefix_len = leading_blanks_end(line);
        proof {
            lemma_blank_prefix_len(line@, prefix_len as int);
        }
        if prefix_len == line.unicode_len() {
            return self;
        }
        let ghost old_indents = self.indents();
        let ghost old_levels = self.levels();
        let prefix = line.substring_char(0, prefix_len);
        let spans = line.substring_char(prefix_len, line.unicode_len()).to_owned();
        let k = self.find_split(prefix);
        let mut nestings = self.nestings;
        let rest_nestings = nestings.split_off(k);
        let rest = BlockParser { nestings: rest_nestings };
        proof {
            assert(rest.levels() =~= old_levels.skip(k as int));
        }
        let blocks = rest.into_blocks();
        nestings.push((prefix, ParserNestingLevel { blocks, spans }));
        let res = Self { nestings };
        proof {
            assert(res.indents() =~= old_indents.take(k as int).push(prefix@));
            assert(res.levels().take(k as int) =~= old_levels.take(k as int));
            assert forall|i: int, j: int|
                0 <= i < j < res.indents().len() implies lex_lt(
                #[trigger] res.indents()[i],
                #[trigger] res.indents()[j],
            ) by {
                if j < k {
                    assert(res.indents()[i] == old_indents[i]);
                    assert(res.indents()[j] == old_indents[j]);
                } else {
                    assert(res.indents()[i] == old_indents[i]);
                    assert(lex_lt(old_indents[i], prefix@));
                }
            }
        }
        res
    }
}

/// Whether `a` and `b` hold the same characters.
fn str_eq(a: &str, b: &str) -> (res: bool)
    ensures
        res == (a@ == b@),
{
    let la = a.unicode_len();
    let lb = b.unicode_len();
    if la != lb {
        return false;
    }
    let mut i: usize = 0;
    while i < la
        invariant
            la == a@.len(),
            lb == b@.len(),
            la == lb,
            i <= la,
            forall|j: int| 0 <= j < i ==> a@[j] == b@[j],
        decreases la - i,
    {
        if a.get_char(i) != b.get_char(i) {
            return false;
        }
        i += 1;
    }
    assert(a@ =~= b@);
    true
}


/// `b` is a copy of `a`: the same text, and children that are copies of the
/// children of `a`, in order.
pub open spec fn same_block(a: Block, b: Block) -> bool
    decreases a,
{
    &&& a.spec_spans() == b.spec_spans()
    &&& a.spec_blocks().len() == b.spec_blocks().len()
    &&& forall|i: int|
        0 <= i < a.spec_blocks().len() ==> same_block(a.spec_blocks()[i], b.spec_blocks()[i])
}

/// A copy of `block` and of all its descendants.
fn clone_block(block: &Block) -> (res: Block)
    ensures
        same_block(*block, res),
    decreases block,
{
    let mut blocks: Vec<Block> = Vec::new();
    let mut i: usize = 0;
    while i < block.blocks.len()
        invariant
            i <= block.blocks.len(),
            blocks@.len() == i,
            forall|j: int| 0 <= j < i ==> same_block(block.blocks@[j], #[trigger] blocks@[j]),
        decreases block.blocks.len() - i,
    {
        let child = clone_block(&block.blocks[i]);
        blocks.push(child);
        i += 1;
    }
    let spans = block.spans.clone();
    let res = Block { spans, blocks };
    assert(same_block(*block, res));
    res
}

impl Clone for Block {
    fn clone(&self) -> (res: Self)
        ensures
            same_block(*self, res),
    {
        clone_block(self)
    }
}

/// `b` is a copy of `a`: the same text of the open block, and completed
/// blocks that are copies of those of `a`, in order.
pub open spec fn same_level(a: ParserNestingLevel, b: ParserNestingLevel) -> bool {
    &&& a.spec_spans() == b.spec_spans()
    &&& a.spec_blocks().len() == b.spec_blocks().len()
    &&& forall|i: int|
        0 <= i < a.spec_blocks().len() ==> same_block(a.spec_blocks()[i], b.spec_blocks()[i])
}

/// Copies of `blocks`, in order.
fn clone_blocks(blocks: &Vec<Block>) -> (res: Vec<Block>)
    ensures
        res@.len() == blocks@.len(),
        forall|j: int| 0 <= j < blocks@.len() ==> same_block(blocks@[j], #[trigger] res@[j]),
{
    let mut res: Vec<Block> = Vec::new();
    let mut i: usize = 0;
    while i < blocks.len()
        invariant
            i <= blocks.len(),
            res@.len() == i,
            forall|j: int| 0 <= j < i ==> same_block(blocks@[j], #[trigger] res@[j]),
        decreases blocks.len() - i,
    {
        res.push(blocks[i].clone());
        i += 1;
    }
    res
}

impl<'a> Clone for BlockParser<'a> {
    fn clone(&self) -> (res: Self)
        ensures
            res.indents() == self.indents(),
            res.levels().len() == self.levels().len(),
            forall|i: int|
                0 <= i < self.levels().len() ==> same_level(self.levels()[i], #[trigger] res.levels()[i]),
    {
        let mut nestings: Vec<(&'a str, ParserNestingLevel)> = Vec::new();
        let mut i: usize = 0;
        while i < self.nestings.len()
            invariant
                i <= self.nestings.len(),
                nestings@.len() == i,
                forall|j: int| 0 <= j < i ==> nestings@[j].0@ == self.nestings@[j].0@,
                forall|j: int|
                    0 <= j < i ==> same_level(self.nestings@[j].1, #[trigger] nestings@[j].1),
            decreases self.nestings.len() - i,
        {
            let (indent, level) = &self.nestings[i];
            let blocks = clone_blocks(&level.blocks);
            let spans = level.spans.clone();
            let copy = ParserNestingLevel { blocks, spans };
            assert(same_level(*level, copy));
            nestings.push((*indent, copy));
            i += 1;
        }
        let res = Self { nestings };
        proof {
            assert(res.indents() =~= self.indents());
            assert forall|i: int| 0 <= i < self.levels().len() implies same_level(
                self.levels()[i],
                #[trigger] res.levels()[i],
            ) by {
                assert(same_level(self.nestings@[i].1, nestings@[i].1));
            }
        }
        res
    }
}

impl Default for Block {
    /// A block without text and without children.
    fn default() -> (res: Self)
        ensures
            res.spec_spans() == Seq::<char>::empty(),
            res.spec_blocks() == Seq::<Block>::empty(),
    {
        Block { spans: String::new(), blocks: Vec::new() }
    }
}

impl<'a> Default for BlockParser<'a> {
    /// A parser with no open level.
    fn default() -> (res: Self)
        ensures
            res.levels().len() == 0,
            res.indents().len() == 0,
            res.sorted(),
    {
        Self::new()
    }
}

} // verus!
