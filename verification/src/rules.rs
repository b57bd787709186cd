//! The pair rules of UAX #14 as one function of a left operand and a class.
//!
//! The left operand is a class, or a state that remembers what a class alone
//! cannot: the spaces after an opening bracket, the parity of a run of
//! regional indicators. The numeric rule LB25 is absent on purpose: numeric
//! runs are matched by the run matcher before a pair is looked up.
use vstd::prelude::*;
use crate::classes::{
    AI, AL, B2, B2_SP, BA, BB, BK, CB, CJ, CL, CL_SP, CM, CP, CR, EB, EM, EX, GL, H2, H3, HL,
    HL_HY, HY, ID, IN, IS, JL, JT, JV, LF, NL, NS, NU, OP, OP_EA, OP_SP, PO, PR, QU, QU_SP, RI,
    RI_RI, SA, SG, SP, SY, WJ, XX, ZW, ZWJ, ZW_SP,
};

verus! {

/// Outcome code: no break, and the scan goes on from the right operand.
pub const KEEP: i8 = -1;

/// Outcome code: a break before the right operand.
pub const BREAK: i8 = -2;

/// The class that a left operand stands for in the rules that do not ask
/// for a state: a run of spaces counts as a space, a Hebrew letter with its
/// hyphen as the hyphen, paired regional indicators as one.
pub open spec fn left_class(a: u8) -> u8 {
    if a == OP_SP || a == QU_SP || a == CL_SP || a == B2_SP || a == ZW_SP {
        SP
    } else if a == HL_HY {
        HY
    } else if a == RI_RI {
        RI
    } else {
        a
    }
}

/// LB1 and LB10: ambiguous, surrogate, unknown and complex-context
/// characters, and a combining mark or joiner without a base, behave as
/// alphabetic; a conditional Japanese starter behaves as a nonstarter.
pub open spec fn resolved(c: u8) -> u8 {
    if c == AI || c == SG || c == XX || c == SA || c == CM || c == ZWJ {
        AL
    } else if c == CJ {
        NS
    } else {
        c
    }
}

/// LB7, LB14 to LB17 and LB8: what a space after `a` leads to. The
/// contexts whose rule reaches across spaces enter or keep their state.
pub open spec fn after_space(a: u8) -> i8 {
    if a == OP || a == OP_EA || a == OP_SP {
        OP_SP as i8
    } else if a == QU || a == QU_SP {
        QU_SP as i8
    } else if a == CL || a == CP || a == CL_SP {
        CL_SP as i8
    } else if a == B2 || a == B2_SP {
        B2_SP as i8
    } else if a == ZW || a == ZW_SP {
        ZW_SP as i8
    } else {
        KEEP
    }
}

pub open spec fn is_alphabetic(c: u8) -> bool {
    c == AL || c == HL
}

pub open spec fn is_hangul(c: u8) -> bool {
    c == JL || c == JV || c == JT || c == H2 || c == H3
}

pub open spec fn is_pictographic(c: u8) -> bool {
    c == ID || c == EB || c == EM
}

/// LB11 to LB31 without LB25, for a left operand `a` that stands for the
/// class `l` and a right class `r`, both resolved.
pub open spec fn pair_outcome(a: u8, l: u8, r: u8) -> i8 {
    if r == WJ || l == WJ {
        KEEP  // LB11
    } else if l == GL {
        KEEP  // LB12
    } else if r == GL && l != SP && l != BA && l != HY {
        KEEP  // LB12a
    } else if r == CL || r == CP || r == EX || r == IS || r == SY {
        KEEP  // LB13
    } else if a == OP || a == OP_EA || a == OP_SP {
        KEEP  // LB14
    } else if (a == QU || a == QU_SP) && (r == OP || r == OP_EA) {
        KEEP  // LB15
    } else if (a == CL || a == CP || a == CL_SP) && r == NS {
        KEEP  // LB16
    } else if (a == B2 || a == B2_SP) && r == B2 {
        KEEP  // LB17
    } else if l == SP {
        BREAK  // LB18
    } else if r == QU || l == QU {
        KEEP  // LB19
    } else if r == CB || l == CB {
        BREAK  // LB20
    } else if a == HL_HY {
        KEEP  // LB21a
    } else if r == BA || r == HY {
        if l == HL {
            HL_HY as i8  // LB21a begins
        } else {
            KEEP  // LB21
        }
    } else if r == NS || l == BB {
        KEEP  // LB21
    } else if l == SY && r == HL {
        KEEP  // LB21b
    } else if r == IN {
        KEEP  // LB22
    } else if (is_alphabetic(l) && r == NU) || (l == NU && is_alphabetic(r)) {
        KEEP  // LB23
    } else if (l == PR && is_pictographic(r)) || (is_pictographic(l) && r == PO) {
        KEEP  // LB23a
    } else if ((l == PR || l == PO) && is_alphabetic(r)) || (is_alphabetic(l) && (r == PR || r
        == PO)) {
        KEEP  // LB24
    } else if l == JL && (r == JL || r == JV || r == H2 || r == H3) {
        KEEP  // LB26
    } else if (l == JV || l == H2) && (r == JV || r == JT) {
        KEEP  // LB26
    } else if (l == JT || l == H3) && r == JT {
        KEEP  // LB26
    } else if (is_hangul(l) && r == PO) || (l == PR && is_hangul(r)) {
        KEEP  // LB27
    } else if is_alphabetic(l) && is_alphabetic(r) {
        KEEP  // LB28
    } else if l == IS && is_alphabetic(r) {
        KEEP  // LB29
    } else if (is_alphabetic(l) || l == NU) && r == OP {
        KEEP  // LB30
    } else if l == CP && (is_alphabetic(r) || r == NU) {
        KEEP  // LB30
    } else if l == RI && r == RI {
        if a == RI_RI {
            BREAK  // LB30a: the pair before is complete
        } else {
            RI_RI as i8  // LB30a
        }
    } else if l == EB && r == EM {
        KEEP  // LB30b
    } else {
        BREAK  // LB31
    }
}

/// The class that a right operand stands for. In a scan the right operand
/// is always a class; the table is square all the same, and there a state
/// on the right counts as the class that its run begins with.
pub open spec fn right_class(b: u8) -> u8 {
    if b == OP_SP {
        OP
    } else if b == QU_SP {
        QU
    } else if b == CL_SP {
        CL
    } else if b == B2_SP {
        B2
    } else if b == ZW_SP {
        ZW
    } else if b == HL_HY {
        HL
    } else if b == RI_RI {
        RI
    } else {
        b
    }
}

/// The outcome code of the left operand `a`, a class or a state, before the
/// class `b`: `KEEP`, `BREAK`, or the number of the state to go on with.
pub open spec fn class_outcome(a: u8, b: u8) -> i8 {
    if a == BK {
        BREAK  // LB4
    } else if a == CR {
        if b == LF {
            KEEP
        } else {
            BREAK
        }  // LB5
    } else if a == LF || a == NL {
        BREAK  // LB5
    } else if b == BK || b == CR || b == LF || b == NL {
        KEEP  // LB6
    } else if b == SP {
        after_space(a)  // LB7
    } else if b == ZW {
        KEEP  // LB7
    } else if a == ZW || a == ZW_SP {
        BREAK  // LB8
    } else if a == ZWJ {
        if b == CM {
            ZWJ as i8  // LB9
        } else {
            KEEP  // LB8a
        }
    } else if (b == CM || b == ZWJ) && left_class(a) != SP {
        if b == CM {
            a as i8  // LB9: the mark joins its base
        } else {
            KEEP  // LB9, and LB8a after the joiner
        }
    } else {
        pair_outcome(a, resolved(left_class(a)), resolved(b))
    }
}

/// The entry of the pair table for the left operand `a` and the right
/// operand `b`, each a class or a state: `KEEP`, `BREAK`, or the number of
/// the state to go on with.
pub open spec fn rule_outcome(a: u8, b: u8) -> i8 {
    class_outcome(a, right_class(b))
}

} // verus!
