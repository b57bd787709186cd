//! Classification: from a code point and the strictness rule to a
//! line-break class.
use vstd::prelude::*;
use crate::class_data::{table_class, table_lookup, TABLE_LIMIT};
use crate::classes::{is_class, CJ, CM, H2, ID, XX};

verus! {

/// How strictly the East Asian conditional cases are read.
#[derive(Copy, Clone, PartialEq, Eq, Structural, Debug)]
pub enum LineBreakRule {
    /// Conditional Japanese starters, the iteration marks and the hyphens
    /// U+2010 and U+2013 count as ideographs.
    Normal,
    /// Nothing is reclassified.
    Strict,
    /// The same code points count as ideographs as under `Normal`.
    Loose,
}

impl Default for LineBreakRule {
    fn default() -> (rule: Self)
        ensures
            rule == LineBreakRule::Strict,
    {
        LineBreakRule::Strict
    }
}

/// The first Hangul syllable.
pub const HANGUL_FIRST: u32 = 0xAC00;

/// The last Hangul syllable.
pub const HANGUL_LAST: u32 = 0xD7A3;

/// `code` is a Hangul syllable without a trailing consonant.
pub open spec fn is_hangul_lv(code: u32) -> bool {
    HANGUL_FIRST <= code <= HANGUL_LAST && (code - HANGUL_FIRST) % 28 == 0
}

/// The class of a code point below U+20000 before any rule is applied.
pub open spec fn base_class(code: u32) -> u8 {
    if is_hangul_lv(code) {
        H2
    } else {
        table_class(code)
    }
}

/// The iteration marks U+3005, U+303B, U+309D, U+309E, U+30FD and U+30FE.
pub open spec fn is_iteration_mark(code: u32) -> bool {
    code == 0x3005 || code == 0x303B || code == 0x309D || code == 0x309E || code == 0x30FD
        || code == 0x30FE
}

/// The code points that `rule` forces to the ideographic class: none
/// under `Strict`; under `Normal` and `Loose` alike the iteration marks
/// and the hyphens U+2010 and U+2013.
pub open spec fn forced_ideographic(code: u32, rule: LineBreakRule) -> bool {
    match rule {
        LineBreakRule::Strict => false,
        LineBreakRule::Normal => is_iteration_mark(code) || code == 0x2010 || code == 0x2013,
        LineBreakRule::Loose => is_iteration_mark(code) || code == 0x2010 || code == 0x2013,
    }
}

/// The class of a code point from U+20000 on: the two supplementary
/// ideographic planes, the tag characters and variation selectors, and
/// unknown for the rest.
pub open spec fn high_class(code: u32) -> u8 {
    if 0x20000 <= code <= 0x2FFFD || 0x30000 <= code <= 0x3FFFD {
        ID
    } else if code == 0xE0001 || 0xE0020 <= code <= 0xE007F || 0xE0100 <= code <= 0xE01EF {
        CM
    } else {
        XX
    }
}

/// The line-break class of `code` under `rule`.
pub open spec fn class_of(code: u32, rule: LineBreakRule) -> u8 {
    if code >= TABLE_LIMIT {
        high_class(code)
    } else if forced_ideographic(code, rule) {
        ID
    } else if rule != LineBreakRule::Strict && base_class(code) == CJ {
        ID
    } else {
        base_class(code)
    }
}

/// The classes of a whole text, code point by code point.
pub open spec fn classes_of(codes: Seq<u32>, rule: LineBreakRule) -> Seq<u8> {
    Seq::new(codes.len(), |i: int| class_of(codes[i], rule))
}

fn lookup_base(code: u32) -> (class: u8)
    requires
        code < TABLE_LIMIT,
    ensures
        class == base_class(code),
        is_class(class),
{
    if HANGUL_FIRST <= code && code <= HANGUL_LAST && (code - HANGUL_FIRST) % 28 == 0 {
        H2
    } else {
        table_lookup(code)
    }
}

fn is_forced_ideographic(code: u32, rule: LineBreakRule) -> (forced: bool)
    ensures
        forced == forced_ideographic(code, rule),
{
    let mark: bool = code == 0x3005 || code == 0x303B || code == 0x309D || code == 0x309E || code
        == 0x30FD || code == 0x30FE;
    let forced: bool = mark || code == 0x2010 || code == 0x2013;
    match rule {
        LineBreakRule::Strict => false,
        LineBreakRule::Normal => forced,
        LineBreakRule::Loose => forced,
    }
}

/// The line-break class of any 32-bit value under `rule`. Surrogates have
/// their own class; what lies above the last code point is unknown.
pub fn get_linebreak_property_utf32_with_rule(codepoint: u32, rule: LineBreakRule) -> (class: u8)
    ensures
        class == class_of(codepoint, rule),
        is_class(class),
{
    if codepoint >= TABLE_LIMIT {
        if (0x20000 <= codepoint && codepoint <= 0x2FFFD) || (0x30000 <= codepoint && codepoint
            <= 0x3FFFD) {
            ID
        } else if codepoint == 0xE0001 || (0xE0020 <= codepoint && codepoint <= 0xE007F) || (
        0xE0100 <= codepoint && codepoint <= 0xE01EF) {
            CM
        } else {
            XX
        }
    } else if is_forced_ideographic(codepoint, rule) {
        ID
    } else {
        let base: u8 = lookup_base(codepoint);
        if rule != LineBreakRule::Strict && base == CJ {
            ID
        } else {
            base
        }
    }
}

/// The line-break class of a character under `rule`.
pub fn get_linebreak_property_with_rule(codepoint: char, rule: LineBreakRule) -> (class: u8)
    ensures
        class == class_of(codepoint as u32, rule),
        is_class(class),
{
    get_linebreak_property_utf32_with_rule(codepoint as u32, rule)
}

/// The line-break class of a character under the strict rule.
pub fn get_linebreak_property(codepoint: char) -> (class: u8)
    ensures
        class == class_of(codepoint as u32, LineBreakRule::Strict),
        is_class(class),
{
    get_linebreak_property_with_rule(codepoint, LineBreakRule::Strict)
}

} // verus!
