//! The front end for native text: a string slice, read as UTF-8. The code
//! points are its characters, and the offsets count bytes.
use vstd::prelude::*;
use vstd::utf8::{
    decode_first_scalar, encode_scalar, encode_utf8, encode_utf8_first_scalar,
    encode_utf8_valid_utf8, is_char_boundary, length_of_first_scalar, pop_first_scalar,
    valid_first_scalar,
};
use crate::breaks::break_offsets;
use crate::cursor::CodepointCursor;
use crate::engine::{next_offset, pending};
use crate::property::{classes_of, LineBreakRule};

verus! {

/// The code points of a text.
pub open spec fn native_codes(chars: Seq<char>) -> Seq<u32> {
    Seq::new(chars.len(), |i: int| chars[i] as u32)
}

/// The number of bytes that the first `count` characters take in UTF-8.
pub open spec fn utf8_offset(chars: Seq<char>, count: int) -> int {
    encode_utf8(chars.take(count)).len() as int
}

/// The byte offsets of the characters of a text, and its length in bytes.
pub open spec fn native_offsets(chars: Seq<char>) -> Seq<int> {
    Seq::new(chars.len() + 1, |i: int| utf8_offset(chars, i))
}

/// The break offsets of a text, in bytes of its UTF-8 form.
pub open spec fn native_breaks(chars: Seq<char>, rule: LineBreakRule) -> Seq<int> {
    break_offsets(classes_of(native_codes(chars), rule), native_offsets(chars), 0)
}

/// The encoding of a text in two parts is the encoding of the first part
/// followed by that of the second.
pub proof fn lemma_encode_concat(first: Seq<char>, second: Seq<char>)
    ensures
        encode_utf8(first + second) == encode_utf8(first) + encode_utf8(second),
    decreases first.len(),
{
    if first.len() == 0 {
        assert(first + second =~= second);
        assert(encode_utf8(first) + encode_utf8(second) =~= encode_utf8(second));
    } else {
        lemma_encode_concat(first.drop_first(), second);
        assert((first + second).drop_first() =~= first.drop_first() + second);
        assert(encode_utf8(first + second) =~= encode_utf8(first) + encode_utf8(second));
    }
}

/// A character takes from one to four bytes, and the offset behind it is
/// its own offset and its width.
pub proof fn lemma_utf8_offset_step(chars: Seq<char>, index: int)
    requires
        0 <= index < chars.len(),
    ensures
        utf8_offset(chars, index + 1) == utf8_offset(chars, index) + encode_scalar(
            chars[index] as u32,
        ).len(),
        1 <= encode_scalar(chars[index] as u32).len() <= 4,
{
    let single = seq![chars[index]];
    assert(chars.take(index + 1) =~= chars.take(index) + single);
    lemma_encode_concat(chars.take(index), single);
    assert(single.drop_first() =~= Seq::<char>::empty());
    assert(encode_utf8(single.drop_first()) =~= Seq::<u8>::empty());
    assert(encode_utf8(single) =~= encode_scalar(single[0] as u32));
    vstd::utf8::char_is_scalar(chars[index]);
}

/// The byte offsets start at zero and ascend.
pub proof fn lemma_utf8_offsets_ascend(chars: Seq<char>, low: int, high: int)
    requires
        0 <= low <= high <= chars.len(),
    ensures
        utf8_offset(chars, 0) == 0,
        low < high ==> utf8_offset(chars, low) < utf8_offset(chars, high),
        low == high ==> utf8_offset(chars, low) == utf8_offset(chars, high),
    decreases high - low,
{
    assert(chars.take(0) =~= Seq::<char>::empty());
    if low < high {
        lemma_utf8_offsets_ascend(chars, low, high - 1);
        lemma_utf8_offset_step(chars, high - 1);
    }
}

/// The byte offset of each position is a character boundary of the UTF-8
/// form of the text.
pub proof fn lemma_utf8_offset_is_boundary(chars: Seq<char>, count: int)
    requires
        0 <= count <= chars.len(),
    ensures
        is_char_boundary(encode_utf8(chars), utf8_offset(chars, count)),
    decreases count,
{
    let bytes = encode_utf8(chars);
    encode_utf8_valid_utf8(chars);
    lemma_utf8_offsets_ascend(chars, 0, count);
    if count > 0 {
        let rest = chars.drop_first();
        encode_utf8_first_scalar(chars);
        lemma_utf8_offsets_ascend(chars, count, chars.len() as int);
        assert(chars.take(chars.len() as int) =~= chars);
        assert(pop_first_scalar(bytes) =~= encode_utf8(rest));
        assert(chars.take(count).drop_first() =~= rest.take(count - 1));
        assert(utf8_offset(chars, count) == length_of_first_scalar(bytes) + utf8_offset(
            rest,
            count - 1,
        ));
        lemma_utf8_offset_is_boundary(rest, count - 1);
    }
}

/// A cursor on a string slice.
#[derive(Copy, Clone)]
pub struct Utf8Cursor<'a> {
    bytes: &'a [u8],
    position: usize,
    chars: Ghost<Seq<char>>,
    index: Ghost<int>,
}

impl<'a> Utf8Cursor<'a> {
    /// A cursor at the start of `text`.
    pub fn new(text: &'a str) -> (cursor: Self)
        ensures
            cursor.well_formed(),
            cursor.codes() == native_codes(text@),
            cursor.offsets() == native_offsets(text@),
            cursor.index() == 0,
    {
        let bytes = text.as_bytes();
        let length: usize = bytes.len();
        assert(bytes@.len() == length);
        proof {
            assert(text@.skip(0) =~= text@);
            assert(text@.take(0) =~= Seq::<char>::empty());
            assert(text@.take(text@.len() as int) =~= text@);
            assert(bytes@.subrange(0, bytes@.len() as int) =~= bytes@);
        }
        Utf8Cursor { bytes, position: 0, chars: Ghost(text@), index: Ghost(0) }
    }

    /// The bytes from the cursor on.
    closed spec fn rest(&self) -> Seq<u8> {
        self.bytes@.subrange(self.position as int, self.bytes@.len() as int)
    }

    /// Where the cursor stands inside the text, the bytes from it on begin
    /// with the encoding of the character at the cursor.
    proof fn lemma_first(&self)
        requires
            self.well_formed(),
            self.index@ < self.chars@.len(),
        ensures
            valid_first_scalar(self.rest()),
            decode_first_scalar(self.rest()) == self.chars@[self.index@] as u32,
            length_of_first_scalar(self.rest()) == encode_scalar(
                self.chars@[self.index@] as u32,
            ).len(),
            pop_first_scalar(self.rest()) == encode_utf8(self.chars@.skip(self.index@ + 1)),
            self.position + length_of_first_scalar(self.rest()) <= self.bytes@.len(),
    {
        let tail = self.chars@.skip(self.index@);
        encode_utf8_first_scalar(tail);
        assert(tail.drop_first() =~= self.chars@.skip(self.index@ + 1));
        assert(pop_first_scalar(self.rest()) =~= encode_utf8(tail.drop_first()));
    }
}

impl<'a> CodepointCursor for Utf8Cursor<'a> {
    closed spec fn well_formed(&self) -> bool {
        &&& self.position <= self.bytes@.len() <= usize::MAX
        &&& 0 <= self.index@ <= self.chars@.len()
        &&& self.bytes@ == encode_utf8(self.chars@)
        &&& self.rest() == encode_utf8(self.chars@.skip(self.index@))
        &&& self.position == utf8_offset(self.chars@, self.index@)
    }

    closed spec fn codes(&self) -> Seq<u32> {
        native_codes(self.chars@)
    }

    closed spec fn offsets(&self) -> Seq<int> {
        native_offsets(self.chars@)
    }

    closed spec fn index(&self) -> int {
        self.index@
    }

    proof fn lemma_well_formed(&self) {
        let chars = self.chars@;
        let offsets = native_offsets(chars);
        assert(chars.take(chars.len() as int) =~= chars);
        lemma_utf8_offsets_ascend(chars, 0, 0);
        assert forall|i: int, j: int| 0 <= i < j < offsets.len() implies offsets[i]
            < offsets[j] by {
            lemma_utf8_offsets_ascend(chars, i, j);
        }
    }

    fn is_eof(&self) -> (eof: bool) {
        proof {
            assert(self.rest().len() == self.bytes@.len() - self.position);
            if self.index@ < self.chars@.len() {
                self.lemma_first();
            } else {
                assert(self.chars@.skip(self.index@) =~= Seq::<char>::empty());
            }
        }
        self.position >= self.bytes.len()
    }

    fn current(&self) -> (code: u32) {
        proof {
            self.lemma_first();
        }
        let ghost rest = self.rest();
        let first: u8 = self.bytes[self.position];
        assert(first == rest[0]);
        if first < 0x80 {
            (first & 0x7F) as u32
        } else if first < 0xE0 {
            let second: u8 = self.bytes[self.position + 1];
            assert(second == rest[1]);
            (((first & 0x1F) as u32) << 6) | ((second & 0x3F) as u32)
        } else if first < 0xF0 {
            let second: u8 = self.bytes[self.position + 1];
            let third: u8 = self.bytes[self.position + 2];
            assert(second == rest[1] && third == rest[2]);
            (((first & 0x0F) as u32) << 12) | (((second & 0x3F) as u32) << 6) | ((third
                & 0x3F) as u32)
        } else {
            let second: u8 = self.bytes[self.position + 1];
            let third: u8 = self.bytes[self.position + 2];
            let fourth: u8 = self.bytes[self.position + 3];
            assert(second == rest[1] && third == rest[2] && fourth == rest[3]);
            (((first & 0x07) as u32) << 18) | (((second & 0x3F) as u32) << 12) | (((third
                & 0x3F) as u32) << 6) | ((fourth & 0x3F) as u32)
        }
    }

    fn advance(&mut self) {
        proof {
            self.lemma_first();
            lemma_utf8_offset_step(self.chars@, self.index@);
        }
        let ghost rest = self.rest();
        let first: u8 = self.bytes[self.position];
        assert(first == rest[0]);
        let width: usize = if first < 0x80 {
            1
        } else if first < 0xE0 {
            2
        } else if first < 0xF0 {
            3
        } else {
            4
        };
        assert(width == length_of_first_scalar(rest));
        proof {
            assert(self.bytes@.subrange(self.position + width, self.bytes@.len() as int)
                =~= pop_first_scalar(rest));
        }
        self.position = self.position + width;
        self.index = Ghost(self.index@ + 1);
    }

    fn save(&self) -> (saved: Self) {
        *self
    }

    fn restore(&mut self, saved: Self) {
        *self = saved;
    }

    fn offset(&self) -> (offset: usize) {
        self.position
    }
}

/// The line breaks of a string slice, one at a time, as byte offsets.
pub struct LineBreakIterator<'a> {
    cursor: Utf8Cursor<'a>,
    break_rule: LineBreakRule,
}

impl<'a> View for LineBreakIterator<'a> {
    type V = Seq<int>;

    /// The offsets that are still to come.
    closed spec fn view(&self) -> Seq<int> {
        pending(&self.cursor, self.break_rule)
    }
}

impl<'a> LineBreakIterator<'a> {
    /// The cursor is well formed.
    #[verifier::type_invariant]
    closed spec fn well_formed(&self) -> bool {
        self.cursor.well_formed()
    }

    /// The strictness rule.
    pub closed spec fn rule(&self) -> LineBreakRule {
        self.break_rule
    }

    /// An iterator over the breaks of `input` under the strict rule.
    pub fn new(input: &'a str) -> (iter: Self)
        ensures
            iter.rule() == LineBreakRule::Strict,
            iter@ == native_breaks(input@, LineBreakRule::Strict),
    {
        Self::new_with_break_rule(input, LineBreakRule::Strict)
    }

    /// An iterator over the breaks of `input` under `break_rule`.
    pub fn new_with_break_rule(input: &'a str, break_rule: LineBreakRule) -> (iter: Self)
        ensures
            iter.rule() == break_rule,
            iter@ == native_breaks(input@, break_rule),
    {
        LineBreakIterator { cursor: Utf8Cursor::new(input), break_rule }
    }

    /// The offset of the next break, or `None` when the break at the end
    /// of the text has been returned.
    pub fn next(&mut self) -> (found: Option<usize>)
        ensures
            final(self).rule() == old(self).rule(),
            old(self)@.len() == 0 ==> found is None && final(self)@ == old(self)@,
            old(self)@.len() > 0 ==> found is Some && found->0 == old(self)@[0] && final(self)@
                == old(self)@.drop_first(),
    {
        proof {
            use_type_invariant(&*self);
        }
        let mut cursor = self.cursor;
        let found = next_offset(&mut cursor, self.break_rule);
        self.cursor = cursor;
        found
    }
}

} // verus!
