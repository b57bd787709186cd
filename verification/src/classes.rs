//! The line-break classes of UAX #14 and the lookahead states of the pair
//! table, as small integers.
//!
//! Classes are numbered from 1 to `CLASS_COUNT`. The states that the pair
//! table can enter follow them, up to `PROP_COUNT`, so that a state can be
//! fed back into the table as its left operand. The table is square: it
//! has a row and a column for each of the `PROP_COUNT` numbers.
use vstd::prelude::*;

verus! {

/// Mandatory break.
pub const BK: u8 = 1;

/// Carriage return.
pub const CR: u8 = 2;

/// Line feed.
pub const LF: u8 = 3;

/// Combining mark.
pub const CM: u8 = 4;

/// Next line.
pub const NL: u8 = 5;

/// Surrogate.
pub const SG: u8 = 6;

/// Word joiner.
pub const WJ: u8 = 7;

/// Zero width space.
pub const ZW: u8 = 8;

/// Non-breaking glue.
pub const GL: u8 = 9;

/// Space.
pub const SP: u8 = 10;

/// Zero width joiner.
pub const ZWJ: u8 = 11;

/// Break opportunity before and after.
pub const B2: u8 = 12;

/// Break after.
pub const BA: u8 = 13;

/// Break before.
pub const BB: u8 = 14;

/// Hyphen.
pub const HY: u8 = 15;

/// Contingent break opportunity.
pub const CB: u8 = 16;

/// Close punctuation.
pub const CL: u8 = 17;

/// Close parenthesis.
pub const CP: u8 = 18;

/// Exclamation or interrogation.
pub const EX: u8 = 19;

/// Inseparable.
pub const IN: u8 = 20;

/// Nonstarter.
pub const NS: u8 = 21;

/// Open punctuation.
pub const OP: u8 = 22;

/// Quotation.
pub const QU: u8 = 23;

/// Infix numeric separator.
pub const IS: u8 = 24;

/// Numeric.
pub const NU: u8 = 25;

/// Postfix numeric.
pub const PO: u8 = 26;

/// Prefix numeric.
pub const PR: u8 = 27;

/// Symbol allowing a break after.
pub const SY: u8 = 28;

/// Ambiguous (alphabetic or ideographic).
pub const AI: u8 = 29;

/// Alphabetic.
pub const AL: u8 = 30;

/// Conditional Japanese starter.
pub const CJ: u8 = 31;

/// Emoji base.
pub const EB: u8 = 32;

/// Emoji modifier.
pub const EM: u8 = 33;

/// Hangul LV syllable.
pub const H2: u8 = 34;

/// Hangul LVT syllable.
pub const H3: u8 = 35;

/// Hebrew letter.
pub const HL: u8 = 36;

/// Ideographic.
pub const ID: u8 = 37;

/// Hangul leading jamo.
pub const JL: u8 = 38;

/// Hangul vowel jamo.
pub const JV: u8 = 39;

/// Hangul trailing jamo.
pub const JT: u8 = 40;

/// Regional indicator.
pub const RI: u8 = 41;

/// Complex-context dependent (South East Asian).
pub const SA: u8 = 42;

/// Unknown or unassigned.
pub const XX: u8 = 43;

/// Open punctuation that is East Asian wide, fullwidth or halfwidth.
pub const OP_EA: u8 = 44;

/// State: open punctuation followed by spaces.
pub const OP_SP: u8 = 45;

/// State: quotation followed by spaces.
pub const QU_SP: u8 = 46;

/// State: close punctuation or parenthesis followed by spaces.
pub const CL_SP: u8 = 47;

/// State: a `B2` dash followed by spaces.
pub const B2_SP: u8 = 48;

/// State: zero width space followed by spaces.
pub const ZW_SP: u8 = 49;

/// State: Hebrew letter followed by a hyphen or a break-after character.
pub const HL_HY: u8 = 50;

/// State: an even, non-zero number of regional indicators.
pub const RI_RI: u8 = 51;

/// Number of line-break classes.
pub const CLASS_COUNT: usize = 44;

/// Number of operands of the pair table, on either side: the classes and
/// the states.
pub const PROP_COUNT: usize = 51;

/// `c` is the number of a line-break class.
pub open spec fn is_class(c: u8) -> bool {
    1 <= c <= 44
}

/// `c` is the number of a class or of a state: an operand of the pair table.
pub open spec fn is_prop(c: u8) -> bool {
    1 <= c <= 51
}

} // verus!
