//! Line-break opportunities of a text after UAX #14, for text in single
//! bytes, in UTF-16 and in native strings.

pub mod breaks;
pub mod class_data;
pub mod classes;
pub mod cursor;
pub mod engine;
pub mod latin1;
pub mod laws;
pub mod native;
pub mod pair;
pub mod property;
pub mod rule_table;
pub mod rules;
pub mod scan;
pub mod utf16;

pub use crate::classes::{
    AI, AL, B2, BA, BB, BK, CB, CJ, CL, CM, CP, CR, EB, EM, EX, GL, H2, H3, HL, HY, ID, IN, IS, JL,
    JT, JV, LF, NL, NS, NU, OP, OP_EA, PO, PR, PROP_COUNT, QU, RI, SA, SG, SP, SY, WJ, XX, ZW, ZWJ,
};
pub use crate::latin1::LineBreakIteratorLatin1;
pub use crate::native::LineBreakIterator;
pub use crate::pair::is_break;
pub use crate::rule_table::get_break_state;
pub use crate::property::{
    get_linebreak_property, get_linebreak_property_utf32_with_rule,
    get_linebreak_property_with_rule, LineBreakRule,
};
pub use crate::utf16::LineBreakIteratorUTF16;
