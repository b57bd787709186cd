//! The front end for text in single bytes: each byte is one code point.
use vstd::prelude::*;
use crate::breaks::break_offsets;
use crate::cursor::CodepointCursor;
use crate::engine::{next_offset, pending};
use crate::property::{classes_of, LineBreakRule};

verus! {

/// The code points of a text in single bytes.
pub open spec fn latin1_codes(bytes: Seq<u8>) -> Seq<u32> {
    Seq::new(bytes.len(), |i: int| bytes[i] as u32)
}

/// The offsets of the code points of a text in single bytes, and its length.
pub open spec fn latin1_offsets(bytes: Seq<u8>) -> Seq<int> {
    Seq::new(bytes.len() + 1, |i: int| i)
}

/// The break offsets of a text in single bytes.
pub open spec fn latin1_breaks(bytes: Seq<u8>, rule: LineBreakRule) -> Seq<int> {
    break_offsets(classes_of(latin1_codes(bytes), rule), latin1_offsets(bytes), 0)
}

/// A cursor on a text in single bytes.
#[derive(Copy, Clone)]
pub struct Latin1Cursor<'a> {
    bytes: &'a [u8],
    position: usize,
}

impl<'a> Latin1Cursor<'a> {
    /// A cursor at the start of `bytes`.
    pub fn new(bytes: &'a [u8]) -> (cursor: Self)
        ensures
            cursor.well_formed(),
            cursor.codes() == latin1_codes(bytes@),
            cursor.offsets() == latin1_offsets(bytes@),
            cursor.index() == 0,
    {
        let length: usize = bytes.len();
        assert(bytes@.len() == length);
        Latin1Cursor { bytes, position: 0 }
    }
}

impl<'a> CodepointCursor for Latin1Cursor<'a> {
    closed spec fn well_formed(&self) -> bool {
        self.position <= self.bytes@.len() <= usize::MAX
    }

    closed spec fn codes(&self) -> Seq<u32> {
        latin1_codes(self.bytes@)
    }

    closed spec fn offsets(&self) -> Seq<int> {
        latin1_offsets(self.bytes@)
    }

    closed spec fn index(&self) -> int {
        self.position as int
    }

    proof fn lemma_well_formed(&self) {
    }

    fn is_eof(&self) -> (eof: bool) {
        self.position >= self.bytes.len()
    }

    fn current(&self) -> (code: u32) {
        self.bytes[self.position] as u32
    }

    fn advance(&mut self) {
        self.position = self.position + 1;
    }

    fn save(&self) -> (saved: Self) {
        *self
    }

    fn restore(&mut self, saved: Self) {
        *self = saved;
    }

    fn offset(&self) -> (offset: usize) {
        self.position
    }
}

/// The line breaks of a text in single bytes, one at a time.
pub struct LineBreakIteratorLatin1<'a> {
    cursor: Latin1Cursor<'a>,
    break_rule: LineBreakRule,
}

impl<'a> View for LineBreakIteratorLatin1<'a> {
    type V = Seq<int>;

    /// The offsets that are still to come.
    closed spec fn view(&self) -> Seq<int> {
        pending(&self.cursor, self.break_rule)
    }
}

impl<'a> LineBreakIteratorLatin1<'a> {
    /// The cursor is well formed.
    #[verifier::type_invariant]
    closed spec fn well_formed(&self) -> bool {
        self.cursor.well_formed()
    }

    /// The strictness rule.
    pub closed spec fn rule(&self) -> LineBreakRule {
        self.break_rule
    }

    /// An iterator over the breaks of `input` under the strict rule.
    pub fn new(input: &'a [u8]) -> (iter: Self)
        ensures
            iter.rule() == LineBreakRule::Strict,
            iter@ == latin1_breaks(input@, LineBreakRule::Strict),
    {
        Self::new_with_break_rule(input, LineBreakRule::Strict)
    }

    /// An iterator over the breaks of `input` under `break_rule`.
    pub fn new_with_break_rule(input: &'a [u8], break_rule: LineBreakRule) -> (iter: Self)
        ensures
            iter.rule() == break_rule,
            iter@ == latin1_breaks(input@, break_rule),
    {
        LineBreakIteratorLatin1 { cursor: Latin1Cursor::new(input), break_rule }
    }

    /// The offset of the next break, or `None` when the break at the end
    /// of the text has been returned.
    pub fn next(&mut self) -> (found: Option<usize>)
        ensures
            final(self).rule() == old(self).rule(),
            old(self)@.len() == 0 ==> found is None && final(self)@ == old(self)@,
            old(self)@.len() > 0 ==> found is Some && found->0 == old(self)@[0] && final(self)@
                == old(self)@.drop_first(),
    {
        proof {
            use_type_invariant(&*self);
        }
        let mut cursor = self.cursor;
        let found = next_offset(&mut cursor, self.break_rule);
        self.cursor = cursor;
        found
    }
}

} // verus!
