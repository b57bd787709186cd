//! The break engine: the run matcher and the main loop, written once for
//! every encoding.
use vstd::prelude::*;
use crate::breaks::{break_offsets, lemma_breaks_unfold};
use crate::classes::{is_prop, CL, CP, HY, IS, NU, OP, OP_EA, PO, PR, SY};
use crate::cursor::CodepointCursor;
use crate::pair::{resolve, Outcome};
use crate::property::{classes_of, get_linebreak_property_utf32_with_rule, LineBreakRule};
use crate::scan::{
    follow, lemma_run_end, number_run, pair_step, run_anchor, run_end, run_kind, run_tail, scan,
    RunMatch,
};

verus! {

/// Tries to match a numeric run,
/// `(PR|PO)? (OP|HY)? NU (NU|SY|IS)* (CL|CP)? (PR|PO)?`, from the cursor on.
/// `current` is the class of the code point at the cursor. The cursor ends
/// on the last class of the run, at the end of the text if the text ends
/// inside the run, or where it was if there is no run.
pub fn match_run<C: CodepointCursor>(
    cursor: &mut C,
    rule: LineBreakRule,
    current: u8,
) -> (kind: RunMatch)
    requires
        old(cursor).well_formed(),
        old(cursor).index() < old(cursor).codes().len(),
        current == classes_of(old(cursor).codes(), rule)[old(cursor).index()],
    ensures
        final(cursor).well_formed(),
        final(cursor).codes() == old(cursor).codes(),
        final(cursor).offsets() == old(cursor).offsets(),
        kind == run_kind(classes_of(old(cursor).codes(), rule), old(cursor).index()),
        final(cursor).index() == run_end(
            classes_of(old(cursor).codes(), rule),
            old(cursor).index(),
        ),
{
    let ghost classes = classes_of(cursor.codes(), rule);
    let ghost pos = cursor.index();
    let ghost anchor = run_anchor(classes, pos);
    proof {
        cursor.lemma_well_formed();
    }
    let start = cursor.save();
    let mut state: u8 = current;
    if state == PR || state == PO {
        cursor.advance();
        if cursor.is_eof() {
            return RunMatch::EndOfInput;
        }
        state = get_linebreak_property_utf32_with_rule(cursor.current(), rule);
    }
    if state == OP || state == HY || state == OP_EA {
        cursor.advance();
        if cursor.is_eof() {
            return RunMatch::EndOfInput;
        }
        state = get_linebreak_property_utf32_with_rule(cursor.current(), rule);
    }
    assert(cursor.index() == anchor && state == classes[anchor]);
    if state != NU {
        cursor.restore(start);
        return RunMatch::NotApplicable;
    }
    let mut saved = cursor.save();
    cursor.advance();
    if cursor.is_eof() {
        return RunMatch::EndOfInput;
    }
    state = get_linebreak_property_utf32_with_rule(cursor.current(), rule);
    while state == NU || state == SY || state == IS
        invariant
            cursor.well_formed(),
            cursor.codes() == old(cursor).codes(),
            cursor.offsets() == old(cursor).offsets(),
            saved.well_formed(),
            saved.codes() == old(cursor).codes(),
            saved.offsets() == old(cursor).offsets(),
            saved.index() == cursor.index() - 1,
            classes == classes_of(old(cursor).codes(), rule),
            pos == old(cursor).index(),
            anchor == run_anchor(classes, pos),
            0 <= pos <= anchor < cursor.index() < classes.len(),
            classes[anchor] == NU,
            state == classes[cursor.index()],
            cursor.index() + number_run(classes, cursor.index()) == anchor + 1 + number_run(
                classes,
                anchor + 1,
            ),
        decreases classes.len() - cursor.index(),
    {
        saved = cursor.save();
        cursor.advance();
        if cursor.is_eof() {
            return RunMatch::EndOfInput;
        }
        state = get_linebreak_property_utf32_with_rule(cursor.current(), rule);
    }
    if state == CL || state == CP {
        saved = cursor.save();
        cursor.advance();
        if cursor.is_eof() {
            return RunMatch::EndOfInput;
        }
        state = get_linebreak_property_utf32_with_rule(cursor.current(), rule);
    }
    assert(cursor.index() == run_tail(classes, anchor));
    if state == PR || state == PO {
        return RunMatch::Glued;
    }
    cursor.restore(saved);
    RunMatch::Glued
}

/// What one step of the iteration owes: from the end of the text nothing
/// is found and the cursor stays; from a position `from` inside it the
/// cursor goes to the next break, `to`, whose offset is found.
pub open spec fn step_found(
    classes: Seq<u8>,
    offsets: Seq<int>,
    from: int,
    to: int,
    found: Option<usize>,
) -> bool {
    if from >= classes.len() {
        found is None && to == from
    } else {
        to == scan(classes, from) && found is Some && found->0 == offsets[to]
    }
}

/// The offsets of the breaks that are still to come from a cursor.
pub open spec fn pending<C: CodepointCursor>(cursor: &C, rule: LineBreakRule) -> Seq<int> {
    break_offsets(classes_of(cursor.codes(), rule), cursor.offsets(), cursor.index())
}

/// Moves the cursor to the next break and returns its offset, or returns
/// `None` where the cursor stands at the end of the text. What is found is
/// the first of the pending offsets, and the rest of them stay pending.
pub fn next_offset<C: CodepointCursor>(
    cursor: &mut C,
    rule: LineBreakRule,
) -> (found: Option<usize>)
    requires
        old(cursor).well_formed(),
    ensures
        final(cursor).well_formed(),
        final(cursor).codes() == old(cursor).codes(),
        final(cursor).offsets() == old(cursor).offsets(),
        pending(old(cursor), rule).len() == 0 ==> found is None && pending(final(cursor), rule)
            == pending(old(cursor), rule),
        pending(old(cursor), rule).len() > 0 ==> found is Some && found->0 == pending(
            old(cursor),
            rule,
        )[0] && pending(final(cursor), rule) == pending(old(cursor), rule).drop_first(),
{
    proof {
        cursor.lemma_well_formed();
        lemma_breaks_unfold(classes_of(cursor.codes(), rule), cursor.offsets(), cursor.index());
    }
    let found = next_break(cursor, rule);
    proof {
        let before = pending(old(cursor), rule);
        let after = pending(cursor, rule);
        if before.len() > 0 {
            assert(before.drop_first() =~= after);
        }
    }
    found
}

/// Moves the cursor to the next break and returns its offset, or returns
/// `None` where the cursor stands at the end of the text.
pub fn next_break<C: CodepointCursor>(
    cursor: &mut C,
    rule: LineBreakRule,
) -> (found: Option<usize>)
    requires
        old(cursor).well_formed(),
    ensures
        final(cursor).well_formed(),
        final(cursor).codes() == old(cursor).codes(),
        final(cursor).offsets() == old(cursor).offsets(),
        step_found(
            classes_of(old(cursor).codes(), rule),
            old(cursor).offsets(),
            old(cursor).index(),
            final(cursor).index(),
            found,
        ),
{
    let ghost classes = classes_of(cursor.codes(), rule);
    let ghost start = cursor.index();
    proof {
        cursor.lemma_well_formed();
    }
    if cursor.is_eof() {
        return None;
    }
    let mut current: u8 = get_linebreak_property_utf32_with_rule(cursor.current(), rule);
    loop
        invariant
            cursor.well_formed(),
            cursor.codes() == old(cursor).codes(),
            cursor.offsets() == old(cursor).offsets(),
            classes == classes_of(old(cursor).codes(), rule),
            start == old(cursor).index(),
            0 <= start <= cursor.index() < classes.len(),
            current == classes[cursor.index()],
            scan(classes, cursor.index()) == scan(classes, start),
        decreases classes.len() - cursor.index(),
    {
        let ghost pos = cursor.index();
        if current == PR || current == PO || current == OP || current == OP_EA || current == HY
            || current == NU {
            let kind: RunMatch = match_run(cursor, rule, current);
            match kind {
                RunMatch::EndOfInput => {
                    return Some(cursor.offset());
                },
                RunMatch::Glued => {
                    proof {
                        lemma_run_end(classes, pos);
                    }
                    current = get_linebreak_property_utf32_with_rule(cursor.current(), rule);
                    if current == PR || current == PO {
                        continue ;
                    }
                },
                RunMatch::NotApplicable => {},
            }
        }
        let ghost left = cursor.index();
        assert(scan(classes, start) == pair_step(classes, left));
        cursor.advance();
        if cursor.is_eof() {
            return Some(cursor.offset());
        }
        let next: u8 = get_linebreak_property_utf32_with_rule(cursor.current(), rule);
        match resolve(current, next) {
            Outcome::BreakHere => {
                return Some(cursor.offset());
            },
            Outcome::NoBreak => {
                current = next;
            },
            Outcome::Continue(first) => {
                let mut state: u8 = first;
                loop
                    invariant_except_break
                        is_prop(state),
                        scan(classes, start) == follow(classes, state, cursor.index()),
                    invariant
                        cursor.well_formed(),
                        cursor.codes() == old(cursor).codes(),
                        cursor.offsets() == old(cursor).offsets(),
                        classes == classes_of(old(cursor).codes(), rule),
                        start == old(cursor).index(),
                        left < cursor.index() < classes.len(),
                        0 <= start <= left,
                    ensures
                        current == classes[cursor.index()],
                        scan(classes, cursor.index()) == scan(classes, start),
                    decreases classes.len() - cursor.index(),
                {
                    cursor.advance();
                    if cursor.is_eof() {
                        return Some(cursor.offset());
                    }
                    let class: u8 = get_linebreak_property_utf32_with_rule(
                        cursor.current(),
                        rule,
                    );
                    match resolve(state, class) {
                        Outcome::Continue(next_state) => {
                            state = next_state;
                        },
                        Outcome::BreakHere => {
                            return Some(cursor.offset());
                        },
                        Outcome::NoBreak => {
                            current = class;
                            break ;
                        },
                    }
                }
            },
        }
    }
}

} // verus!
