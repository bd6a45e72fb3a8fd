//! Splits the text of a block into spans: plain text, links to blocks and
//! named URLs.
//!
//! The parser is a state machine over the text. Only its plain-text state is
//! complete: text without any `[` is one text span. The states that read a
//! link or a URL after a `[` are not written yet; a parser that reaches one
//! stops there and returns the spans it has found, which are none, since the
//! text before the first `[` is left to the link state.

use vstd::prelude::*;

use crate::block::BlockId;

verus! {

/// One span of a block's text.
#[derive(Clone, Debug)]
pub enum Span<'a> {
    Link(BlockId<'a>),
    Url(Url<'a>),
    Text(&'a str),
}

/// A named URL.
#[derive(Clone, Debug)]
pub struct Url<'a> {
    name: &'a str,
    url: &'a str,
}

/// The spans found so far and the state of the parser.
#[derive(Clone, Debug)]
pub struct SpanParser<'a> {
    spans: Vec<Span<'a>>,
    state: State,
}

#[derive(Clone, Copy, Debug)]
enum State {
    Text(TextState),
    LinkOrUrl(LinkOrUrlState),
    TextOrUrl(TextOrUrlState),
    Url(UrlState),
    End,
}

#[derive(Clone, Copy, Debug)]
struct TextState {
    offset: usize,
}

#[derive(Clone, Copy, Debug)]
struct LinkOrUrlState {
    offset: usize,
}

#[derive(Clone, Copy, Debug)]
struct TextOrUrlState {
    offset: usize,
}

#[derive(Clone, Copy, Debug)]
struct UrlState {
    title_offset: usize,
    url_offset: usize,
}

enum ParseChunkResult<'a> {
    TextAndParser((&'a str, SpanParser<'a>)),
    Spans(Vec<Span<'a>>),
}

/// The empty string at the end of `s`.
fn empty_end<'a>(s: &'a str) -> (res: &'a str)
    ensures
        res@ == Seq::<char>::empty(),
{
    let n = s.unicode_len();
    s.substring_char(n, n)
}

/// `v` with `value` appended.
fn vec_with<T>(v: Vec<T>, value: T) -> (res: Vec<T>)
    ensures
        res@ == v@.push(value),
{
    let mut v = v;
    v.push(value);
    v
}

impl TextState {
    /// Reads plain text up to the next `[`: the text before it is left for
    /// the next state, which starts at the `[`. Without a `[`, the whole text
    /// is one text span and the parser ends.
    fn parse<'a>(self, text: &'a str, spans: Vec<Span<'a>>) -> (res: (&'a str, SpanParser<'a>))
        ensures
            !text@.contains('[') ==> {
                &&& res.0@ == Seq::<char>::empty()
                &&& res.1.spans@ == spans@.push(Span::Text(text))
                &&& res.1.state is End
            },
            text@.contains('[') ==> {
                &&& res.1.spans@ == spans@
                &&& res.1.state is LinkOrUrl
            },
    {
        let n = text.unicode_len();
        let mut i: usize = 0;
        while i < n
            invariant
                n == text@.len(),
                i <= n,
                forall|j: int| 0 <= j < i ==> text@[j] != '[',
            decreases n - i,
        {
            if text.get_char(i) == '[' {
                assert(text@.contains('['));
                return (
                    text.substring_char(i, n),
                    SpanParser { spans, state: State::LinkOrUrl(LinkOrUrlState { offset: i }) },
                );
            }
            i += 1;
        }
        assert(!text@.contains('['));
        (empty_end(text), SpanParser { spans: vec_with(spans, Span::Text(text)), state: State::End })
    }
}

impl<'a> SpanParser<'a> {
    spec fn stage(&self) -> int {
        match self.state {
            State::Text(_) => 2,
            State::End => 0,
            _ => 1,
        }
    }

    /// The spans of `text`: one text span when it holds no `[`; none when it
    /// does, because the parser stops at the first `[` (see the module
    /// documentation).
    pub fn parse(text: &'a str) -> (res: Vec<Span<'a>>)
        ensures
            !text@.contains('[') ==> res@ == seq![Span::Text(text)],
            text@.contains('[') ==> res@.len() == 0,
    {
        let mut parser = Self::new();
        let mut rest = text;
        loop
            invariant
                (parser.state is Text && parser.spans@.len() == 0 && rest == text) || (parser.state is End
                    && !text@.contains('[') && parser.spans@ == seq![Span::Text(text)]) || (
                parser.state is LinkOrUrl && text@.contains('[') && parser.spans@.len() == 0),
            decreases parser.stage(),
        {
            let (new_rest, new_parser) = match parser.parse_chunk(rest) {
                ParseChunkResult::TextAndParser(result) => result,
                ParseChunkResult::Spans(spans) => return spans,
            };
            rest = new_rest;
            parser = new_parser;
        }
    }

    fn new() -> (res: Self)
        ensures
            res.spans@.len() == 0,
            res.state is Text,
    {
        Self { spans: Vec::new(), state: State::Text(TextState { offset: 0 }) }
    }

    /// Runs one state of the parser; a state that is not written yet ends
    /// the parse with the spans found so far.
    fn parse_chunk(self, text: &'a str) -> (res: ParseChunkResult<'a>)
        ensures
            !(self.state is Text) ==> (res matches ParseChunkResult::Spans(s) && s == self.spans),
            self.state is Text ==> (res matches ParseChunkResult::TextAndParser(r) && (if text@.contains(
                '[',
            ) {
                r.1.state is LinkOrUrl && r.1.spans@ == self.spans@
            } else {
                r.1.state is End && r.1.spans@ == self.spans@.push(Span::Text(text))
            })),
    {
        let spans = self.spans;
        match self.state {
            State::Text(state) => ParseChunkResult::TextAndParser(state.parse(text, spans)),
            State::End => ParseChunkResult::Spans(spans),
            State::LinkOrUrl(_) | State::TextOrUrl(_) | State::Url(_) => ParseChunkResult::Spans(spans),
        }
    }
}

} // verus!
