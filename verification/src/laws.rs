//! What holds of the breaks of every text: the three encodings agree, the
//! offsets ascend to the length of the text, and no break falls inside a
//! glued numeric run.
use vstd::prelude::*;
use vstd::utf8::{encode_utf8, is_char_boundary};
use crate::breaks::{
    break_offsets, lemma_break_offsets_ascend, lemma_breaks_are_offsets, lemma_breaks_ascend,
    strictly_increasing,
};
use crate::latin1::{latin1_breaks, latin1_codes, latin1_offsets};
use crate::native::{
    lemma_utf8_offset_is_boundary, lemma_utf8_offsets_ascend, native_breaks, native_codes,
    native_offsets, utf8_offset,
};
use crate::pair::{outcome_of, Outcome};
use crate::property::{classes_of, LineBreakRule};
use crate::scan::{
    all_breaks, breaks_from, follow, is_prefix_or_postfix, is_trigger, lemma_pair_step_bounds,
    lemma_run_end, lemma_scan_bounds, pair_step, run_end, run_kind, scan, RunMatch,
};
use crate::utf16::{
    is_high_surrogate, lemma_utf16_offsets, utf16_breaks, utf16_codes, utf16_codes_from,
    utf16_encode, utf16_offsets, utf16_offsets_from, utf16_units_of,
};

verus! {

/// The three encodings hold the same text: they have one length, and at
/// each place the byte, the unit and the character are one number.
pub open spec fn same_text(bytes: Seq<u8>, units: Seq<u16>, chars: Seq<char>) -> bool {
    &&& bytes.len() == units.len()
    &&& bytes.len() == chars.len()
    &&& forall|i: int|
        0 <= i < bytes.len() ==> bytes[i] as u32 == units[i] as u32 && bytes[i] as u32
            == chars[i] as u32
}

/// Without a high surrogate each unit is a code point, and its offset is
/// its index.
pub proof fn lemma_utf16_plain(units: Seq<u16>, pos: int)
    requires
        0 <= pos <= units.len(),
        forall|i: int| 0 <= i < units.len() ==> !is_high_surrogate(#[trigger] units[i]),
    ensures
        utf16_codes_from(units, pos) == Seq::new(
            (units.len() - pos) as nat,
            |i: int| units[pos + i] as u32,
        ),
        utf16_offsets_from(units, pos) == Seq::new(
            (units.len() - pos + 1) as nat,
            |i: int| pos + i,
        ),
    decreases units.len() - pos,
{
    if pos < units.len() {
        lemma_utf16_plain(units, pos + 1);
        assert(!is_high_surrogate(units[pos]));
        assert(utf16_codes_from(units, pos) =~= Seq::new(
            (units.len() - pos) as nat,
            |i: int| units[pos + i] as u32,
        ));
        assert(utf16_offsets_from(units, pos) =~= Seq::new(
            (units.len() - pos + 1) as nat,
            |i: int| pos + i,
        ));
    } else {
        assert(utf16_codes_from(units, pos) =~= Seq::new(
            (units.len() - pos) as nat,
            |i: int| units[pos + i] as u32,
        ));
        assert(utf16_offsets_from(units, pos) =~= Seq::new(
            (units.len() - pos + 1) as nat,
            |i: int| pos + i,
        ));
    }
}

/// Where the offset of each position is the position itself, the break
/// offsets are the break positions.
pub proof fn lemma_plain_offsets(classes: Seq<u8>, offsets: Seq<int>)
    requires
        offsets.len() == classes.len() + 1,
        forall|i: int| 0 <= i < offsets.len() ==> offsets[i] == i,
    ensures
        break_offsets(classes, offsets, 0) == all_breaks(classes),
{
    if classes.len() > 0 {
        lemma_breaks_ascend(classes, 0);
    }
    assert(break_offsets(classes, offsets, 0) =~= all_breaks(classes));
}

/// Cross-encoding equivalence: for a text that is written in single
/// bytes, in UTF-16 and as native text, the three front ends decode the
/// same code points and break at the same positions under every rule. In
/// single bytes and in UTF-16 the offsets are those positions; in native
/// text they are the byte offsets of those positions.
pub proof fn lemma_cross_encoding(
    bytes: Seq<u8>,
    units: Seq<u16>,
    chars: Seq<char>,
    rule: LineBreakRule,
)
    requires
        same_text(bytes, units, chars),
    ensures
        utf16_codes(units) == latin1_codes(bytes),
        native_codes(chars) == latin1_codes(bytes),
        latin1_breaks(bytes, rule) == all_breaks(classes_of(latin1_codes(bytes), rule)),
        utf16_breaks(units, rule) == all_breaks(classes_of(latin1_codes(bytes), rule)),
        native_breaks(chars, rule) == all_breaks(
            classes_of(latin1_codes(bytes), rule),
        ).map_values(|b: int| utf8_offset(chars, b)),
{
    let codes = latin1_codes(bytes);
    let classes = classes_of(codes, rule);
    assert forall|i: int| 0 <= i < units.len() implies !is_high_surrogate(
        #[trigger] units[i],
    ) by {
        assert(bytes[i] as u32 == units[i] as u32);
    }
    lemma_utf16_plain(units, 0);
    assert(utf16_codes(units) =~= codes);
    assert(native_codes(chars) =~= codes);
    lemma_plain_offsets(classes, latin1_offsets(bytes));
    lemma_plain_offsets(classes, utf16_offsets(units));
    if classes.len() > 0 {
        lemma_breaks_ascend(classes, 0);
    }
    assert(native_breaks(chars, rule) =~= all_breaks(classes).map_values(
        |b: int| utf8_offset(chars, b),
    ));
}

/// Behind any units, the UTF-16 form of a text decodes to the code points
/// of the text.
pub proof fn lemma_utf16_decodes(before: Seq<u16>, chars: Seq<char>)
    ensures
        utf16_codes_from(before + utf16_encode(chars), before.len() as int) == native_codes(chars),
    decreases chars.len(),
{
    let units = before + utf16_encode(chars);
    let pos = before.len() as int;
    if chars.len() == 0 {
        assert(utf16_codes_from(units, pos) =~= native_codes(chars));
    } else {
        let first = utf16_units_of(chars[0]);
        let rest = chars.drop_first();
        vstd::utf8::char_is_scalar(chars[0]);
        lemma_utf16_decodes(before + first, rest);
        assert(units =~= (before + first) + utf16_encode(rest));
        assert(units[pos] == first[0]);
        if (chars[0] as u32) >= 0x10000 {
            assert(units[pos + 1] == first[1]);
        }
        assert(utf16_codes_from(units, pos) =~= native_codes(chars));
    }
}

/// Cross-encoding equivalence of UTF-16 and native text, for every text:
/// the two front ends decode the same code points, and so break at the
/// same positions; each reports them as offsets in its own units.
pub proof fn lemma_utf16_matches_native(chars: Seq<char>, rule: LineBreakRule)
    ensures
        utf16_codes(utf16_encode(chars)) == native_codes(chars),
        utf16_breaks(utf16_encode(chars), rule) == all_breaks(
            classes_of(native_codes(chars), rule),
        ).map_values(|b: int| utf16_offsets(utf16_encode(chars))[b]),
        native_breaks(chars, rule) == all_breaks(
            classes_of(native_codes(chars), rule),
        ).map_values(|b: int| native_offsets(chars)[b]),
{
    lemma_utf16_decodes(Seq::empty(), chars);
    assert(Seq::<u16>::empty() + utf16_encode(chars) =~= utf16_encode(chars));
}

/// Monotonicity and termination for text in single bytes: the offsets
/// ascend from above zero to the length of the text; an empty text has
/// none.
pub proof fn lemma_latin1_breaks_ascend(bytes: Seq<u8>, rule: LineBreakRule)
    ensures
        strictly_increasing(latin1_breaks(bytes, rule)),
        bytes.len() == 0 ==> latin1_breaks(bytes, rule).len() == 0,
        bytes.len() > 0 ==> latin1_breaks(bytes, rule).len() >= 1 && latin1_breaks(bytes, rule)[0]
            > 0 && latin1_breaks(bytes, rule).last() == bytes.len(),
{
    lemma_break_offsets_ascend(classes_of(latin1_codes(bytes), rule), latin1_offsets(bytes));
}

/// Monotonicity and termination for UTF-16: the offsets ascend from above
/// zero to the length of the text in units; an empty text has none.
pub proof fn lemma_utf16_breaks_ascend(units: Seq<u16>, rule: LineBreakRule)
    ensures
        strictly_increasing(utf16_breaks(units, rule)),
        units.len() == 0 ==> utf16_breaks(units, rule).len() == 0,
        units.len() > 0 ==> utf16_breaks(units, rule).len() >= 1 && utf16_breaks(units, rule)[0]
            > 0 && utf16_breaks(units, rule).last() == units.len(),
{
    lemma_utf16_offsets(units, 0);
    lemma_break_offsets_ascend(classes_of(utf16_codes(units), rule), utf16_offsets(units));
}

/// Monotonicity and termination for native text: the offsets ascend from
/// above zero to the length of the text in bytes; an empty text has none.
pub proof fn lemma_native_breaks_ascend(chars: Seq<char>, rule: LineBreakRule)
    ensures
        strictly_increasing(native_breaks(chars, rule)),
        chars.len() == 0 ==> native_breaks(chars, rule).len() == 0,
        chars.len() > 0 ==> native_breaks(chars, rule).len() >= 1 && native_breaks(chars, rule)[0]
            > 0 && native_breaks(chars, rule).last() == encode_utf8(chars).len(),
{
    let offsets = native_offsets(chars);
    lemma_utf8_offsets_ascend(chars, 0, 0);
    assert forall|i: int, j: int| 0 <= i < j < offsets.len() implies offsets[i] < offsets[j] by {
        lemma_utf8_offsets_ascend(chars, i, j);
    }
    assert(chars.take(chars.len() as int) =~= chars);
    lemma_break_offsets_ascend(classes_of(native_codes(chars), rule), offsets);
}

/// Every break of native text falls on a character boundary of its UTF-8
/// form.
pub proof fn lemma_native_breaks_on_boundaries(chars: Seq<char>, rule: LineBreakRule, which: int)
    requires
        0 <= which < native_breaks(chars, rule).len(),
    ensures
        is_char_boundary(encode_utf8(chars), native_breaks(chars, rule)[which]),
{
    let classes = classes_of(native_codes(chars), rule);
    lemma_breaks_are_offsets(classes, native_offsets(chars), which);
    lemma_utf8_offset_is_boundary(chars, all_breaks(classes)[which]);
}

/// Every break of a UTF-16 text is the offset of one of its code points
/// or its length: no break parts a surrogate pair.
pub proof fn lemma_utf16_breaks_on_boundaries(units: Seq<u16>, rule: LineBreakRule, which: int)
    requires
        0 <= which < utf16_breaks(units, rule).len(),
    ensures
        exists|i: int|
            0 < i < utf16_offsets(units).len() && utf16_breaks(units, rule)[which]
                == #[trigger] utf16_offsets(units)[i],
{
    let classes = classes_of(utf16_codes(units), rule);
    lemma_utf16_offsets(units, 0);
    lemma_breaks_are_offsets(classes, utf16_offsets(units), which);
    let i = all_breaks(classes)[which];
    assert(utf16_breaks(units, rule)[which] == utf16_offsets(units)[i]);
}

/// The scan that starts at `start` comes to stand at `pos`, where it
/// tries the numeric run and then the pair, before it finds its break.
pub open spec fn scan_visits(classes: Seq<u8>, start: int, pos: int) -> bool
    decreases classes.len() - start, 2int,
    via scan_visits_decreases
{
    if start < 0 || start >= classes.len() {
        false
    } else if start == pos {
        true
    } else if is_trigger(classes[start]) {
        let end = run_end(classes, start);
        match run_kind(classes, start) {
            RunMatch::NotApplicable => pair_visits(classes, start, pos),
            RunMatch::EndOfInput => false,
            RunMatch::Glued => if is_prefix_or_postfix(classes[end]) {
                scan_visits(classes, end, pos)
            } else {
                pair_visits(classes, end, pos)
            },
        }
    } else {
        pair_visits(classes, start, pos)
    }
}

#[via_fn]
proof fn scan_visits_decreases(classes: Seq<u8>, start: int, pos: int) {
    if 0 <= start < classes.len() && run_kind(classes, start) == RunMatch::Glued {
        lemma_run_end(classes, start);
    }
}

/// The same, from the pair whose left operand is the class at `start`.
pub open spec fn pair_visits(classes: Seq<u8>, start: int, pos: int) -> bool
    decreases classes.len() - start, 1int,
{
    if start < 0 || start + 1 >= classes.len() {
        false
    } else {
        match outcome_of(classes[start], classes[start + 1]) {
            Outcome::Continue(state) => follow_visits(classes, state, start + 1, pos),
            Outcome::BreakHere => false,
            Outcome::NoBreak => scan_visits(classes, start + 1, pos),
        }
    }
}

/// The same, from a run of states that has taken in the class at `start`.
pub open spec fn follow_visits(classes: Seq<u8>, state: u8, start: int, pos: int) -> bool
    decreases classes.len() - start, 0int,
{
    if start < 0 || start + 1 >= classes.len() {
        false
    } else {
        match outcome_of(state, classes[start + 1]) {
            Outcome::Continue(next_state) => follow_visits(classes, next_state, start + 1, pos),
            Outcome::BreakHere => false,
            Outcome::NoBreak => scan_visits(classes, start + 1, pos),
        }
    }
}

/// The last position of the numeric run that is matched at `pos`: where
/// the cursor is left, or the last position of the text where the text
/// ends inside the run.
pub open spec fn run_last(classes: Seq<u8>, pos: int) -> int {
    if run_kind(classes, pos) == RunMatch::EndOfInput {
        classes.len() - 1
    } else {
        run_end(classes, pos)
    }
}

/// The numeric run that is matched at `pos` is glued: the scan that
/// stands at `pos` finds its break behind the last position of the run.
pub proof fn lemma_break_behind_run(classes: Seq<u8>, pos: int)
    requires
        0 <= pos < classes.len(),
        is_trigger(classes[pos]),
        run_kind(classes, pos) != RunMatch::NotApplicable,
    ensures
        pos <= run_last(classes, pos) < scan(classes, pos),
{
    if run_kind(classes, pos) == RunMatch::Glued {
        let end = run_end(classes, pos);
        lemma_run_end(classes, pos);
        if is_prefix_or_postfix(classes[end]) {
            lemma_scan_bounds(classes, end);
        } else {
            lemma_pair_step_bounds(classes, end);
        }
    }
}

/// A scan finds the break that the scan from any position it comes to
/// stand at finds, and that position is not before its start.
pub proof fn lemma_scan_visits(classes: Seq<u8>, start: int, pos: int)
    requires
        scan_visits(classes, start, pos),
    ensures
        start <= pos < classes.len(),
        scan(classes, start) == scan(classes, pos),
    decreases classes.len() - start, 2int,
{
    if start != pos {
        if is_trigger(classes[start]) && run_kind(classes, start) == RunMatch::Glued {
            let end = run_end(classes, start);
            lemma_run_end(classes, start);
            if is_prefix_or_postfix(classes[end]) {
                lemma_scan_visits(classes, end, pos);
            } else {
                lemma_pair_visits(classes, end, pos);
            }
        } else {
            lemma_pair_visits(classes, start, pos);
        }
    }
}

/// The same of a pair step.
pub proof fn lemma_pair_visits(classes: Seq<u8>, start: int, pos: int)
    requires
        pair_visits(classes, start, pos),
    ensures
        start < pos < classes.len(),
        pair_step(classes, start) == scan(classes, pos),
    decreases classes.len() - start, 1int,
{
    match outcome_of(classes[start], classes[start + 1]) {
        Outcome::Continue(state) => lemma_follow_visits(classes, state, start + 1, pos),
        Outcome::BreakHere => {},
        Outcome::NoBreak => lemma_scan_visits(classes, start + 1, pos),
    }
}

/// The same of a run of states.
pub proof fn lemma_follow_visits(classes: Seq<u8>, state: u8, start: int, pos: int)
    requires
        follow_visits(classes, state, start, pos),
    ensures
        start < pos < classes.len(),
        follow(classes, state, start) == scan(classes, pos),
    decreases classes.len() - start, 0int,
{
    match outcome_of(state, classes[start + 1]) {
        Outcome::Continue(next_state) => lemma_follow_visits(classes, next_state, start + 1, pos),
        Outcome::BreakHere => {},
        Outcome::NoBreak => lemma_scan_visits(classes, start + 1, pos),
    }
}

/// No break inside glue: let the scans of a text start at its beginning
/// and then at each break. Where one of them comes to stand at `pos` and
/// matches a numeric run there, no break of the text lies behind `pos` and
/// not behind the last position of the run.
pub proof fn lemma_no_break_inside_glue(classes: Seq<u8>, which: int, pos: int, other: int)
    requires
        0 <= which < all_breaks(classes).len(),
        0 <= other < all_breaks(classes).len(),
        scan_visits(
            classes,
            if which == 0 {
                0
            } else {
                all_breaks(classes)[which - 1]
            },
            pos,
        ),
        0 <= pos < classes.len(),
        is_trigger(classes[pos]),
        run_kind(classes, pos) != RunMatch::NotApplicable,
    ensures
        all_breaks(classes)[other] <= pos || all_breaks(classes)[other] > run_last(classes, pos),
{
    let breaks = all_breaks(classes);
    let start = if which == 0 {
        0
    } else {
        breaks[which - 1]
    };
    lemma_scan_visits(classes, start, pos);
    lemma_break_behind_run(classes, pos);
    lemma_breaks_ascend(classes, 0);
    lemma_nth_break(classes, 0, which);
    assert(breaks[which] == scan(classes, pos));
    if other < which {
        assert(breaks[other] <= breaks[which - 1]);
    }
}

/// Each break is what the scan finds that starts at the break before it,
/// or at `from` for the first.
pub proof fn lemma_nth_break(classes: Seq<u8>, from: int, which: int)
    requires
        0 <= from < classes.len(),
        0 <= which < breaks_from(classes, from).len(),
    ensures
        breaks_from(classes, from)[which] == scan(
            classes,
            if which == 0 {
                from
            } else {
                breaks_from(classes, from)[which - 1]
            },
        ),
    decreases which,
{
    lemma_scan_bounds(classes, from);
    let next = scan(classes, from);
    assert(breaks_from(classes, from) == seq![next] + breaks_from(classes, next));
    if which > 0 {
        assert(breaks_from(classes, from)[which] == breaks_from(classes, next)[which - 1]);
        lemma_nth_break(classes, next, which - 1);
        if which > 1 {
            assert(breaks_from(classes, from)[which - 1] == breaks_from(classes, next)[which
                - 2]);
        }
    }
}

} // verus!
