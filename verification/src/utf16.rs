//! The front end for UTF-16: a high surrogate and the low surrogate right
//! behind it are one code point; every other unit is a code point of its
//! own, a lone surrogate too.
use vstd::prelude::*;
use crate::breaks::break_offsets;
use crate::cursor::CodepointCursor;
use crate::engine::{next_offset, pending};
use crate::property::{classes_of, LineBreakRule};

verus! {

/// The first unit of a surrogate pair.
pub open spec fn is_high_surrogate(unit: u16) -> bool {
    0xD800 <= unit <= 0xDBFF
}

/// The second unit of a surrogate pair.
pub open spec fn is_low_surrogate(unit: u16) -> bool {
    0xDC00 <= unit <= 0xDFFF
}

/// A surrogate pair begins at `pos`.
pub open spec fn pair_at(units: Seq<u16>, pos: int) -> bool {
    &&& 0 <= pos
    &&& pos + 1 < units.len()
    &&& is_high_surrogate(units[pos])
    &&& is_low_surrogate(units[pos + 1])
}

/// The number of units of the code point that begins at `pos`.
pub open spec fn width_at(units: Seq<u16>, pos: int) -> int {
    if pair_at(units, pos) {
        2
    } else {
        1
    }
}

/// The code point of a surrogate pair.
pub open spec fn combine(high: u16, low: u16) -> u32 {
    (0x10000 + (high - 0xD800) * 0x400 + (low - 0xDC00)) as u32
}

/// The code point that begins at `pos`.
pub open spec fn code_at(units: Seq<u16>, pos: int) -> u32 {
    if pair_at(units, pos) {
        combine(units[pos], units[pos + 1])
    } else {
        units[pos] as u32
    }
}

/// The code points from the unit `pos` on.
pub open spec fn utf16_codes_from(units: Seq<u16>, pos: int) -> Seq<u32>
    decreases units.len() - pos,
{
    if pos < 0 || pos >= units.len() {
        Seq::empty()
    } else {
        seq![code_at(units, pos)] + utf16_codes_from(units, pos + width_at(units, pos))
    }
}

/// The offsets of the code points from the unit `pos` on, and behind them
/// the length of the text.
pub open spec fn utf16_offsets_from(units: Seq<u16>, pos: int) -> Seq<int>
    decreases units.len() - pos,
{
    if pos < 0 || pos >= units.len() {
        seq![units.len() as int]
    } else {
        seq![pos] + utf16_offsets_from(units, pos + width_at(units, pos))
    }
}

/// The code points of a UTF-16 text.
pub open spec fn utf16_codes(units: Seq<u16>) -> Seq<u32> {
    utf16_codes_from(units, 0)
}

/// The offsets of the code points of a UTF-16 text, and its length.
pub open spec fn utf16_offsets(units: Seq<u16>) -> Seq<int> {
    utf16_offsets_from(units, 0)
}

/// The units that stand for one character: the character itself below
/// U+10000, a surrogate pair from there on.
pub open spec fn utf16_units_of(c: char) -> Seq<u16> {
    let code = c as u32;
    if code < 0x10000 {
        seq![code as u16]
    } else {
        seq![
            (0xD800 + (code - 0x10000) / 0x400) as u16,
            (0xDC00 + (code - 0x10000) % 0x400) as u16,
        ]
    }
}

/// The UTF-16 form of a text.
pub open spec fn utf16_encode(chars: Seq<char>) -> Seq<u16>
    decreases chars.len(),
{
    if chars.len() == 0 {
        Seq::empty()
    } else {
        utf16_units_of(chars[0]) + utf16_encode(chars.drop_first())
    }
}

/// The break offsets of a UTF-16 text.
pub open spec fn utf16_breaks(units: Seq<u16>, rule: LineBreakRule) -> Seq<int> {
    break_offsets(classes_of(utf16_codes(units), rule), utf16_offsets(units), 0)
}

/// From a position inside the text or at its end there is one offset for
/// each code point and one more; the first is the position, the last is
/// the length of the text, and they ascend.
pub proof fn lemma_utf16_offsets(units: Seq<u16>, pos: int)
    requires
        0 <= pos <= units.len(),
    ensures
        utf16_offsets_from(units, pos).len() == utf16_codes_from(units, pos).len() + 1,
        utf16_offsets_from(units, pos)[0] == pos,
        utf16_offsets_from(units, pos).last() == units.len(),
        forall|i: int, j: int|
            0 <= i < j < utf16_offsets_from(units, pos).len() ==> utf16_offsets_from(units, pos)[i]
                < utf16_offsets_from(units, pos)[j],
        forall|i: int|
            0 <= i < utf16_offsets_from(units, pos).len() ==> pos <= #[trigger] utf16_offsets_from(
                units,
                pos,
            )[i] <= units.len(),
    decreases units.len() - pos,
{
    if pos < units.len() {
        let next = pos + width_at(units, pos);
        lemma_utf16_offsets(units, next);
        let rest = utf16_offsets_from(units, next);
        let all = utf16_offsets_from(units, pos);
        assert(all == seq![pos] + rest);
        assert forall|i: int, j: int| 0 <= i < j < all.len() implies all[i] < all[j] by {
            assert(all[j] == rest[j - 1]);
            if i > 0 {
                assert(all[i] == rest[i - 1]);
            }
        }
        assert forall|i: int| 0 <= i < all.len() implies pos <= #[trigger] all[i]
            <= units.len() by {
            if i > 0 {
                assert(all[i] == rest[i - 1]);
            }
        }
    }
}

/// A cursor on a UTF-16 text.
#[derive(Copy, Clone)]
pub struct Utf16Cursor<'a> {
    units: &'a [u16],
    position: usize,
    index: Ghost<int>,
}

impl<'a> Utf16Cursor<'a> {
    /// A cursor at the start of `units`.
    pub fn new(units: &'a [u16]) -> (cursor: Self)
        ensures
            cursor.well_formed(),
            cursor.codes() == utf16_codes(units@),
            cursor.offsets() == utf16_offsets(units@),
            cursor.index() == 0,
    {
        let length: usize = units.len();
        assert(units@.len() == length);
        let cursor = Utf16Cursor { units, position: 0, index: Ghost(0) };
        proof {
            assert(utf16_codes(units@).skip(0) =~= utf16_codes(units@));
            assert(utf16_offsets(units@).skip(0) =~= utf16_offsets(units@));
        }
        cursor
    }
}

impl<'a> CodepointCursor for Utf16Cursor<'a> {
    closed spec fn well_formed(&self) -> bool {
        &&& self.position <= self.units@.len() <= usize::MAX
        &&& 0 <= self.index@ <= utf16_codes(self.units@).len()
        &&& utf16_codes_from(self.units@, self.position as int) == utf16_codes(self.units@).skip(
            self.index@,
        )
        &&& utf16_offsets_from(self.units@, self.position as int) == utf16_offsets(
            self.units@,
        ).skip(self.index@)
    }

    closed spec fn codes(&self) -> Seq<u32> {
        utf16_codes(self.units@)
    }

    closed spec fn offsets(&self) -> Seq<int> {
        utf16_offsets(self.units@)
    }

    closed spec fn index(&self) -> int {
        self.index@
    }

    proof fn lemma_well_formed(&self) {
        lemma_utf16_offsets(self.units@, 0);
    }

    fn is_eof(&self) -> (eof: bool) {
        proof {
            let rest = utf16_codes(self.units@).skip(self.index@);
            assert(rest.len() == utf16_codes(self.units@).len() - self.index@);
            assert(rest == utf16_codes_from(self.units@, self.position as int));
        }
        self.position >= self.units.len()
    }

    fn current(&self) -> (code: u32) {
        proof {
            let rest = utf16_codes(self.units@).skip(self.index@);
            assert(rest[0] == utf16_codes(self.units@)[self.index@]);
        }
        let unit: u16 = self.units[self.position];
        if 0xD800 <= unit && unit <= 0xDBFF && self.position + 1 < self.units.len() {
            let low: u16 = self.units[self.position + 1];
            if 0xDC00 <= low && low <= 0xDFFF {
                return 0x10000 + (unit as u32 - 0xD800) * 0x400 + (low as u32 - 0xDC00);
            }
        }
        unit as u32
    }

    fn advance(&mut self) {
        let ghost units = self.units@;
        let ghost before = self.position as int;
        let unit: u16 = self.units[self.position];
        let mut width: usize = 1;
        if 0xD800 <= unit && unit <= 0xDBFF && self.position + 1 < self.units.len() {
            let low: u16 = self.units[self.position + 1];
            if 0xDC00 <= low && low <= 0xDFFF {
                width = 2;
            }
        }
        proof {
            let codes = utf16_codes(units);
            let offsets = utf16_offsets(units);
            let index = self.index@;
            lemma_utf16_offsets(units, 0);
            assert(width == width_at(units, before));
            assert(utf16_codes_from(units, before + width) =~= codes.skip(index).drop_first());
            assert(codes.skip(index).drop_first() =~= codes.skip(index + 1));
            assert(utf16_offsets_from(units, before + width) =~= offsets.skip(index).drop_first());
            assert(offsets.skip(index).drop_first() =~= offsets.skip(index + 1));
            assert(codes.skip(index).len() > 0);
        }
        self.position = self.position + width;
        self.index = Ghost(self.index@ + 1);
    }

    fn save(&self) -> (saved: Self) {
        *self
    }

    fn restore(&mut self, saved: Self) {
        *self = saved;
    }

    fn offset(&self) -> (offset: usize) {
        proof {
            lemma_utf16_offsets(self.units@, 0);
            lemma_utf16_offsets(self.units@, self.position as int);
            let rest = utf16_offsets(self.units@).skip(self.index@);
            assert(rest[0] == utf16_offsets(self.units@)[self.index@]);
        }
        self.position
    }
}

/// The line breaks of a UTF-16 text, one at a time.
pub struct LineBreakIteratorUTF16<'a> {
    cursor: Utf16Cursor<'a>,
    break_rule: LineBreakRule,
}

impl<'a> View for LineBreakIteratorUTF16<'a> {
    type V = Seq<int>;

    /// The offsets that are still to come.
    closed spec fn view(&self) -> Seq<int> {
        pending(&self.cursor, self.break_rule)
    }
}

impl<'a> LineBreakIteratorUTF16<'a> {
    /// The cursor is well formed.
    #[verifier::type_invariant]
    closed spec fn well_formed(&self) -> bool {
        self.cursor.well_formed()
    }

    /// The strictness rule.
    pub closed spec fn rule(&self) -> LineBreakRule {
        self.break_rule
    }

    /// An iterator over the breaks of `input` under the strict rule.
    pub fn new(input: &'a [u16]) -> (iter: Self)
        ensures
            iter.rule() == LineBreakRule::Strict,
            iter@ == utf16_breaks(input@, LineBreakRule::Strict),
    {
        Self::new_with_break_rule(input, LineBreakRule::Strict)
    }

    /// An iterator over the breaks of `input` under `break_rule`.
    pub fn new_with_break_rule(input: &'a [u16], break_rule: LineBreakRule) -> (iter: Self)
        ensures
            iter.rule() == break_rule,
            iter@ == utf16_breaks(input@, break_rule),
    {
        LineBreakIteratorUTF16 { cursor: Utf16Cursor::new(input), break_rule }
    }

    /// The offset of the next break, or `None` when the break at the end
    /// of the text has been returned.
    pub fn next(&mut self) -> (found: Option<usize>)
        ensures
            final(self).rule() == old(self).rule(),
            old(self)@.len() == 0 ==> found is None && final(self)@ == old(self)@,
            old(self)@.len() > 0 ==> found is Some && found->0 == old(self)@[0] && final(self)@
                == old(self)@.drop_first(),
    {
        proof {
            use_type_invariant(&*self);
        }
        let mut cursor = self.cursor;
        let found = next_offset(&mut cursor, self.break_rule);
        self.cursor = cursor;
        found
    }
}

} // verus!
