//! Reading the pair table: the raw outcome code and its three meanings.
use vstd::prelude::*;
use crate::classes::is_prop;
use crate::rule_table::get_break_state;
use crate::rules::{rule_outcome, KEEP};

verus! {

/// What the pair table says of a left operand and the class after it.
#[derive(Copy, Clone, PartialEq, Eq, Structural, Debug)]
pub enum Outcome {
    /// No break here; the scan goes on from the right class.
    NoBreak,
    /// No decision yet: go on with this state as the left operand.
    Continue(u8),
    /// A break before the right class.
    BreakHere,
}

/// The meaning of a raw outcome code.
pub open spec fn outcome_of_code(code: i8) -> Outcome {
    if code >= 0 {
        Outcome::Continue(code as u8)
    } else if code == KEEP {
        Outcome::NoBreak
    } else {
        Outcome::BreakHere
    }
}

/// The outcome for the left operand `current` and the right operand `next`.
pub open spec fn outcome_of(current: u8, next: u8) -> Outcome {
    outcome_of_code(rule_outcome(current, next))
}

/// A state that the rules name is a left operand of the table.
pub proof fn lemma_outcome_is_prop(current: u8, next: u8)
    requires
        is_prop(current),
        is_prop(next),
    ensures
        rule_outcome(current, next) >= 0 ==> is_prop(rule_outcome(current, next) as u8),
        rule_outcome(current, next) >= -2,
{
}

/// Whether the table leaves anything but "no break" between `current` and
/// `next`. This is the whole answer only where the outcome is no state.
pub fn is_break(current: u8, next: u8) -> (allowed: bool)
    requires
        is_prop(current),
        is_prop(next),
    ensures
        allowed == (rule_outcome(current, next) != KEEP),
{
    let rule: i8 = get_break_state(current, next);
    rule != KEEP
}

/// The outcome for `current` and `next` as a tagged value.
pub fn resolve(current: u8, next: u8) -> (outcome: Outcome)
    requires
        is_prop(current),
        is_prop(next),
    ensures
        outcome == outcome_of(current, next),
        outcome matches Outcome::Continue(state) ==> is_prop(state),
{
    let code: i8 = get_break_state(current, next);
    proof {
        lemma_outcome_is_prop(current, next);
    }
    if code >= 0 {
        Outcome::Continue(code as u8)
    } else if code == KEEP {
        Outcome::NoBreak
    } else {
        Outcome::BreakHere
    }
}

} // verus!
