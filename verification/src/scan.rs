//! The break decisions as functions of the class sequence of a text.
//!
//! Positions are indices into the sequence of classes, one class for each
//! code point. A break at position `b` lies before the code point `b`; the
//! break at the length of the text is the one at its end.
use vstd::prelude::*;
use crate::classes::{CL, CP, HY, IS, NU, OP, OP_EA, PO, PR, SY};
use crate::pair::{outcome_of, Outcome};

verus! {

/// The classes at which a numeric run can begin.
pub open spec fn is_trigger(class: u8) -> bool {
    class == PR || class == PO || class == OP || class == OP_EA || class == HY || class == NU
}

/// Numeric prefix or postfix.
pub open spec fn is_prefix_or_postfix(class: u8) -> bool {
    class == PR || class == PO
}

/// Opening punctuation or hyphen.
pub open spec fn is_opening(class: u8) -> bool {
    class == OP || class == HY || class == OP_EA
}

/// The classes that continue a number: digits and the separators inside it.
pub open spec fn is_number_part(class: u8) -> bool {
    class == NU || class == SY || class == IS
}

/// Closing punctuation or parenthesis.
pub open spec fn is_closing(class: u8) -> bool {
    class == CL || class == CP
}

/// How an attempt to match a numeric run ended.
#[derive(Copy, Clone, PartialEq, Eq, Structural, Debug)]
pub enum RunMatch {
    /// No digit where the run needs one: the cursor is back where it was.
    NotApplicable,
    /// The text ended inside the run: the break at its end is all that is left.
    EndOfInput,
    /// The run is glued; the cursor is on its last class.
    Glued,
}

/// Where the digit of a run that is tried at `pos` has to stand: behind an
/// optional prefix or postfix and an optional opening or hyphen.
pub open spec fn run_anchor(classes: Seq<u8>, pos: int) -> int {
    let after_prefix = if is_prefix_or_postfix(classes[pos]) {
        pos + 1
    } else {
        pos
    };
    if after_prefix < classes.len() && is_opening(classes[after_prefix]) {
        after_prefix + 1
    } else {
        after_prefix
    }
}

/// The number of classes from `pos` on that continue a number.
pub open spec fn number_run(classes: Seq<u8>, pos: int) -> nat
    decreases classes.len() - pos,
{
    if 0 <= pos < classes.len() && is_number_part(classes[pos]) {
        1 + number_run(classes, pos + 1)
    } else {
        0
    }
}

/// The position behind a run with its digit at `anchor`: behind the digits
/// and separators and an optional closing.
pub open spec fn run_tail(classes: Seq<u8>, anchor: int) -> int {
    let after_number = anchor + 1 + number_run(classes, anchor + 1);
    if after_number < classes.len() && is_closing(classes[after_number]) {
        after_number + 1
    } else {
        after_number
    }
}

/// How the attempt to match the pattern
/// `(PR|PO)? (OP|HY)? NU (NU|SY|IS)* (CL|CP)? (PR|PO)?` at `pos` ends.
pub open spec fn run_kind(classes: Seq<u8>, pos: int) -> RunMatch {
    let anchor = run_anchor(classes, pos);
    if anchor >= classes.len() {
        RunMatch::EndOfInput
    } else if classes[anchor] != NU {
        RunMatch::NotApplicable
    } else if run_tail(classes, anchor) >= classes.len() {
        RunMatch::EndOfInput
    } else {
        RunMatch::Glued
    }
}

/// Where the cursor stands after the attempt at `pos`: on the last class
/// of the glued run, which is the closing prefix or postfix if there is
/// one; at the end of the text if the text ended; at `pos` otherwise.
pub open spec fn run_end(classes: Seq<u8>, pos: int) -> int {
    let tail = run_tail(classes, run_anchor(classes, pos));
    match run_kind(classes, pos) {
        RunMatch::NotApplicable => pos,
        RunMatch::EndOfInput => classes.len() as int,
        RunMatch::Glued => if is_prefix_or_postfix(classes[tail]) {
            tail
        } else {
            tail - 1
        },
    }
}

/// The next break when the scan stands at `pos`: first the numeric run, if
/// one begins here, then the pairs.
pub open spec fn scan(classes: Seq<u8>, pos: int) -> int
    decreases classes.len() - pos, 2int,
    via scan_decreases
{
    if pos < 0 || pos >= classes.len() {
        classes.len() as int
    } else if is_trigger(classes[pos]) {
        let end = run_end(classes, pos);
        match run_kind(classes, pos) {
            RunMatch::NotApplicable => pair_step(classes, pos),
            RunMatch::EndOfInput => classes.len() as int,
            RunMatch::Glued => if is_prefix_or_postfix(classes[end]) {
                scan(classes, end)
            } else {
                pair_step(classes, end)
            },
        }
    } else {
        pair_step(classes, pos)
    }
}

#[via_fn]
proof fn scan_decreases(classes: Seq<u8>, pos: int) {
    if 0 <= pos < classes.len() && run_kind(classes, pos) == RunMatch::Glued {
        lemma_run_end(classes, pos);
    }
}

/// The next break when the class at `pos` is the left operand of the pair
/// that comes next.
pub open spec fn pair_step(classes: Seq<u8>, pos: int) -> int
    decreases classes.len() - pos, 1int,
{
    if pos < 0 || pos + 1 >= classes.len() {
        classes.len() as int
    } else {
        match outcome_of(classes[pos], classes[pos + 1]) {
            Outcome::Continue(state) => follow(classes, state, pos + 1),
            Outcome::BreakHere => pos + 1,
            Outcome::NoBreak => scan(classes, pos + 1),
        }
    }
}

/// The next break when the table is in `state` and the class at `pos` is
/// the last one that it has taken in.
pub open spec fn follow(classes: Seq<u8>, state: u8, pos: int) -> int
    decreases classes.len() - pos, 0int,
{
    if pos < 0 || pos + 1 >= classes.len() {
        classes.len() as int
    } else {
        match outcome_of(state, classes[pos + 1]) {
            Outcome::Continue(next_state) => follow(classes, next_state, pos + 1),
            Outcome::BreakHere => pos + 1,
            Outcome::NoBreak => scan(classes, pos + 1),
        }
    }
}

/// A glued run ends inside the text, at or behind the position where it
/// was tried, and behind it where it ends on a prefix or postfix.
pub proof fn lemma_run_end(classes: Seq<u8>, pos: int)
    requires
        0 <= pos < classes.len(),
        run_kind(classes, pos) == RunMatch::Glued,
    ensures
        pos <= run_anchor(classes, pos) <= run_end(classes, pos) < classes.len(),
        is_prefix_or_postfix(classes[run_end(classes, pos)]) ==> pos < run_end(classes, pos),
{
    let anchor = run_anchor(classes, pos);
    let after_number = anchor + 1 + number_run(classes, anchor + 1);
    lemma_number_run(classes, anchor + 1);
    if after_number - 1 > anchor {
        assert(is_number_part(classes[after_number - 1]));
    }
}

/// The classes that a number run counts continue a number, and the class
/// behind them, if there is one, does not.
pub proof fn lemma_number_run(classes: Seq<u8>, pos: int)
    requires
        0 <= pos,
    ensures
        pos + number_run(classes, pos) <= classes.len() || number_run(classes, pos) == 0,
        forall|i: int|
            pos <= i < pos + number_run(classes, pos) ==> is_number_part(#[trigger] classes[i]),
        pos + number_run(classes, pos) < classes.len() ==> !is_number_part(
            classes[pos + number_run(classes, pos)],
        ),
    decreases classes.len() - pos,
{
    if pos < classes.len() && is_number_part(classes[pos]) {
        lemma_number_run(classes, pos + 1);
    }
}

/// The next break lies behind the position that the scan starts from, and
/// not behind the end of the text.
pub proof fn lemma_scan_bounds(classes: Seq<u8>, pos: int)
    requires
        0 <= pos < classes.len(),
    ensures
        pos < scan(classes, pos) <= classes.len(),
    decreases classes.len() - pos, 2int,
{
    if is_trigger(classes[pos]) && run_kind(classes, pos) == RunMatch::Glued {
        let end = run_end(classes, pos);
        lemma_run_end(classes, pos);
        if is_prefix_or_postfix(classes[end]) {
            lemma_scan_bounds(classes, end);
        } else {
            lemma_pair_step_bounds(classes, end);
        }
    } else {
        lemma_pair_step_bounds(classes, pos);
    }
}

/// The same of a pair step.
pub proof fn lemma_pair_step_bounds(classes: Seq<u8>, pos: int)
    requires
        0 <= pos < classes.len(),
    ensures
        pos < pair_step(classes, pos) <= classes.len(),
    decreases classes.len() - pos, 1int,
{
    if pos + 1 < classes.len() {
        match outcome_of(classes[pos], classes[pos + 1]) {
            Outcome::Continue(state) => lemma_follow_bounds(classes, state, pos + 1),
            Outcome::BreakHere => {},
            Outcome::NoBreak => lemma_scan_bounds(classes, pos + 1),
        }
    }
}

/// The same of a run of states.
pub proof fn lemma_follow_bounds(classes: Seq<u8>, state: u8, pos: int)
    requires
        0 <= pos < classes.len(),
    ensures
        pos < follow(classes, state, pos) <= classes.len(),
    decreases classes.len() - pos, 0int,
{
    if pos + 1 < classes.len() {
        match outcome_of(state, classes[pos + 1]) {
            Outcome::Continue(next_state) => lemma_follow_bounds(classes, next_state, pos + 1),
            Outcome::BreakHere => {},
            Outcome::NoBreak => lemma_scan_bounds(classes, pos + 1),
        }
    }
}

/// All breaks from `pos` on, in the order in which they are found: each
/// scan starts at the break before it.
pub open spec fn breaks_from(classes: Seq<u8>, pos: int) -> Seq<int>
    decreases classes.len() - pos,
    via breaks_from_decreases
{
    if pos < 0 || pos >= classes.len() {
        Seq::empty()
    } else {
        seq![scan(classes, pos)] + breaks_from(classes, scan(classes, pos))
    }
}

#[via_fn]
proof fn breaks_from_decreases(classes: Seq<u8>, pos: int) {
    if 0 <= pos < classes.len() {
        lemma_scan_bounds(classes, pos);
    }
}

/// All breaks of a text.
pub open spec fn all_breaks(classes: Seq<u8>) -> Seq<int> {
    breaks_from(classes, 0)
}

} // verus!
