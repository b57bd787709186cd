//! The pair table: for each left operand, a class or a state, one row with
//! the outcome code before each right operand, a class or a state.
//!
//! A row holds `KEEP` (-1), `BREAK` (-2), or the number of the state to go on
//! with. Every entry is proved equal to what the pair rules give.
use vstd::prelude::*;
use crate::classes::{
    is_prop, AI, AL, B2, B2_SP, BA, BB, BK, CB, CJ, CL, CL_SP, CM, CP, CR, EB, EM, EX, GL, H2,
    H3, HL, HL_HY, HY, ID, IN, IS, JL, JT, JV, LF, NL, NS, NU, OP, OP_EA, OP_SP, PO, PR, QU,
    QU_SP, RI, RI_RI, SA, SG, SP, SY, WJ, XX, ZW, ZWJ, ZW_SP,
};
use crate::rules::rule_outcome;

verus! {

/// The outcomes for the left operand `BK`.
pub const ROW_BK: [i8; 51] = [
    -2, -2, -2, -2, -2, -2, -2, -2, -2, -2, -2, -2, -2, -2, -2, -2, -2,
    -2, -2, -2, -2, -2, -2, -2, -2, -2, -2, -2, -2, -2, -2, -2, -2, -2,
    -2, -2, -2, -2, -2, -2, -2, -2, -2, -2, -2, -2, -2, -2, -2, -2, -2,
];

fn row_bk(column: usize) -> (code: i8)
    requires
        column < 51,
    ensures
        code == rule_outcome(BK, (column + 1) as u8),
{
    ROW_BK[column]
}

/// The outcomes for the left operand `CR`.
pub const ROW_CR: [i8; 51] = [
    -2, -2, -1, -2, -2, -2, -2, -2, -2, -2, -2, -2, -2, -2, -2, -2, -2,
    -2, -2, -2, -2, -2, -2, -2, -2, -2, -2, -2, -2, -2, -2, -2, -2, -2,
    -2, -2, -2, -2, -2, -2, -2, -2, -2, -2, -2, -2, -2, -2, -2, -2, -2,
];

fn row_cr(column: usize) -> (code: i8)
    requires
        column < 51,
    ensures
        code == rule_outcome(CR, (column + 1) as u8),
{
    ROW_CR[column]
}

/// The outcomes for the left operand `LF`.
pub const ROW_LF: [i8; 51] = [
    -2, -2, -2, -2, -2, -2, -2, -2, -2, -2, -2, -2, -2, -2, -2, -2, -2,
    -2, -2, -2, -2, -2, -2, -2, -2, -2, -2, -2, -2, -2, -2, -2, -2, -2,
    -2, -2, -2, -2, -2, -2, -2, -2, -2, -2, -2, -2, -2, -2, -2, -2, -2,
];

fn row_lf(column: usize) -> (code: i8)
    requires
        column < 51,
    ensures
        code == rule_outcome(LF, (column + 1) as u8),
{
    ROW_LF[column]
}

/// The outcomes for the left operand `CM`.
pub const ROW_CM: [i8; 51] = [
    -1, -1, -1, 4, -1, -1, -1, -1, -1, -1, -1, -2, -1, -2, -1, -2, -1,
    -1, -1, -1, -1, -1, -1, -1, -1, -1, -1, -1, -1, -1, -1, -2, -2, -2,
    -2, -1, -2, -2, -2, -2, -2, -1, -1, -2, -1, -1, -1, -2, -1, -1, -2,
];

fn row_cm(column: usize) -> (code: i8)
    requires
        column < 51,
    ensures
        code == rule_outcome(CM, (column + 1) as u8),
{
    ROW_CM[column]
}

/// The outcomes for the left operand `NL`.
pub const ROW_NL: [i8; 51] = [
    -2, -2, -2, -2, -2, -2, -2, -2, -2, -2, -2, -2, -2, -2, -2, -2, -2,
    -2, -2, -2, -2, -2, -2, -2, -2, -2, -2, -2, -2, -2, -2, -2, -2, -2,
    -2, -2, -2, -2, -2, -2, -2, -2, -2, -2, -2, -2, -2, -2, -2, -2, -2,
];

fn row_nl(column: usize) -> (code: i8)
    requires
        column < 51,
    ensures
        code == rule_outcome(NL, (column + 1) as u8),
{
    ROW_NL[column]
}

/// The outcomes for the left operand `SG`.
pub const ROW_SG: [i8; 51] = [
    -1, -1, -1, 6, -1, -1, -1, -1, -1, -1, -1, -2, -1, -2, -1, -2, -1,
    -1, -1, -1, -1, -1, -1, -1, -1, -1, -1, -1, -1, -1, -1, -2, -2, -2,
    -2, -1, -2, -2, -2, -2, -2, -1, -1, -2, -1, -1, -1, -2, -1, -1, -2,
];

fn row_sg(column: usize) -> (code: i8)
    requires
        column < 51,
    ensures
        code == rule_outcome(SG, (column + 1) as u8),
{
    ROW_SG[column]
}

/// The outcomes for the left operand `WJ`.
pub const ROW_WJ: [i8; 51] = [
    -1, -1, -1, 7, -1, -1, -1, -1, -1, -1, -1, -1, -1, -1, -1, -1, -1,
    -1, -1, -1, -1, -1, -1, -1, -1, -1, -1, -1, -1, -1, -1, -1, -1, -1,
    -1, -1, -1, -1, -1, -1, -1, -1, -1, -1, -1, -1, -1, -1, -1, -1, -1,
];

fn row_wj(column: usize) -> (code: i8)
    requires
        column < 51,
    ensures
        code == rule_outcome(WJ, (column + 1) as u8),
{
    ROW_WJ[column]
}

/// The outcomes for the left operand `ZW`.
pub const ROW_ZW: [i8; 51] = [
    -1, -1, -1, -2, -1, -2, -2, -1, -2, 49, -2, -2, -2, -2, -2, -2, -2,
    -2, -2, -2, -2, -2, -2, -2, -2, -2, -2, -2, -2, -2, -2, -2, -2, -2,
    -2, -2, -2, -2, -2, -2, -2, -2, -2, -2, -2, -2, -2, -2, -1, -2, -2,
];

fn row_zw(column: usize) -> (code: i8)
    requires
        column < 51,
    ensures
        code == rule_outcome(ZW, (column + 1) as u8),
{
    ROW_ZW[column]
}

/// The outcomes for the left operand `GL`.
pub const ROW_GL: [i8; 51] = [
    -1, -1, -1, 9, -1, -1, -1, -1, -1, -1, -1, -1, -1, -1, -1, -1, -1,
    -1, -1, -1, -1, -1, -1, -1, -1, -1, -1, -1, -1, -1, -1, -1, -1, -1,
    -1, -1, -1, -1, -1, -1, -1, -1, -1, -1, -1, -1, -1, -1, -1, -1, -1,
];

fn row_gl(column: usize) -> (code: i8)
    requires
        column < 51,
    ensures
        code == rule_outcome(GL, (column + 1) as u8),
{
    ROW_GL[column]
}

/// The outcomes for the left operand `SP`.
pub const ROW_SP: [i8; 51] = [
    -1, -1, -1, -2, -1, -2, -1, -1, -2, -1, -2, -2, -2, -2, -2, -2, -1,
    -1, -1, -2, -2, -2, -2, -1, -2, -2, -2, -1, -2, -2, -2, -2, -2, -2,
    -2, -2, -2, -2, -2, -2, -2, -2, -2, -2, -2, -2, -1, -2, -1, -2, -2,
];

fn row_sp(column: usize) -> (code: i8)
    requires
        column < 51,
    ensures
        code == rule_outcome(SP, (column + 1) as u8),
{
    ROW_SP[column]
}

/// The outcomes for the left operand `ZWJ`.
pub const ROW_ZWJ: [i8; 51] = [
    -1, -1, -1, 11, -1, -1, -1, -1, -1, -1, -1, -1, -1, -1, -1, -1, -1,
    -1, -1, -1, -1, -1, -1, -1, -1, -1, -1, -1, -1, -1, -1, -1, -1, -1,
    -1, -1, -1, -1, -1, -1, -1, -1, -1, -1, -1, -1, -1, -1, -1, -1, -1,
];

fn row_zwj(column: usize) -> (code: i8)
    requires
        column < 51,
    ensures
        code == rule_outcome(ZWJ, (column + 1) as u8),
{
    ROW_ZWJ[column]
}

/// The outcomes for the left operand `B2`.
pub const ROW_B2: [i8; 51] = [
    -1, -1, -1, 12, -1, -2, -1, -1, -1, 48, -1, -1, -1, -2, -1, -2, -1,
    -1, -1, -1, -1, -2, -1, -1, -2, -2, -2, -1, -2, -2, -1, -2, -2, -2,
    -2, -2, -2, -2, -2, -2, -2, -2, -2, -2, -2, -1, -1, -1, -1, -2, -2,
];

fn row_b2(column: usize) -> (code: i8)
    requires
        column < 51,
    ensures
        code == rule_outcome(B2, (column + 1) as u8),
{
    ROW_B2[column]
}

/// The outcomes for the left operand `BA`.
pub const ROW_BA: [i8; 51] = [
    -1, -1, -1, 13, -1, -2, -1, -1, -2, -1, -1, -2, -1, -2, -1, -2, -1,
    -1, -1, -1, -1, -2, -1, -1, -2, -2, -2, -1, -2, -2, -1, -2, -2, -2,
    -2, -2, -2, -2, -2, -2, -2, -2, -2, -2, -2, -1, -1, -2, -1, -2, -2,
];

fn row_ba(column: usize) -> (code: i8)
    requires
        column < 51,
    ensures
        code == rule_outcome(BA, (column + 1) as u8),
{
    ROW_BA[column]
}

/// The outcomes for the left operand `BB`.
pub const ROW_BB: [i8; 51] = [
    -1, -1, -1, 14, -1, -1, -1, -1, -1, -1, -1, -1, -1, -1, -1, -2, -1,
    -1, -1, -1, -1, -1, -1, -1, -1, -1, -1, -1, -1, -1, -1, -1, -1, -1,
    -1, -1, -1, -1, -1, -1, -1, -1, -1, -1, -1, -1, -1, -1, -1, -1, -1,
];

fn row_bb(column: usize) -> (code: i8)
    requires
        column < 51,
    ensures
        code == rule_outcome(BB, (column + 1) as u8),
{
    ROW_BB[column]
}

/// The outcomes for the left operand `HY`.
pub const ROW_HY: [i8; 51] = [
    -1, -1, -1, 15, -1, -2, -1, -1, -2, -1, -1, -2, -1, -2, -1, -2, -1,
    -1, -1, -1, -1, -2, -1, -1, -2, -2, -2, -1, -2, -2, -1, -2, -2, -2,
    -2, -2, -2, -2, -2, -2, -2, -2, -2, -2, -2, -1, -1, -2, -1, -2, -2,
];

fn row_hy(column: usize) -> (code: i8)
    requires
        column < 51,
    ensures
        code == rule_outcome(HY, (column + 1) as u8),
{
    ROW_HY[column]
}

/// The outcomes for the left operand `CB`.
pub const ROW_CB: [i8; 51] = [
    -1, -1, -1, 16, -1, -2, -1, -1, -1, -1, -1, -2, -2, -2, -2, -2, -1,
    -1, -1, -2, -2, -2, -1, -1, -2, -2, -2, -1, -2, -2, -2, -2, -2, -2,
    -2, -2, -2, -2, -2, -2, -2, -2, -2, -2, -2, -1, -1, -2, -1, -2, -2,
];

fn row_cb(column: usize) -> (code: i8)
    requires
        column < 51,
    ensures
        code == rule_outcome(CB, (column + 1) as u8),
{
    ROW_CB[column]
}

/// The outcomes for the left operand `CL`.
pub const ROW_CL: [i8; 51] = [
    -1, -1, -1, 17, -1, -2, -1, -1, -1, 47, -1, -2, -1, -2, -1, -2, -1,
    -1, -1, -1, -1, -2, -1, -1, -2, -2, -2, -1, -2, -2, -1, -2, -2, -2,
    -2, -2, -2, -2, -2, -2, -2, -2, -2, -2, -2, -1, -1, -2, -1, -2, -2,
];

fn row_cl(column: usize) -> (code: i8)
    requires
        column < 51,
    ensures
        code == rule_outcome(CL, (column + 1) as u8),
{
    ROW_CL[column]
}

/// The outcomes for the left operand `CP`.
pub const ROW_CP: [i8; 51] = [
    -1, -1, -1, 18, -1, -1, -1, -1, -1, 47, -1, -2, -1, -2, -1, -2, -1,
    -1, -1, -1, -1, -2, -1, -1, -1, -2, -2, -1, -1, -1, -1, -2, -2, -2,
    -2, -1, -2, -2, -2, -2, -2, -1, -1, -2, -2, -1, -1, -2, -1, -1, -2,
];

fn row_cp(column: usize) -> (code: i8)
    requires
        column < 51,
    ensures
        code == rule_outcome(CP, (column + 1) as u8),
{
    ROW_CP[column]
}

/// The outcomes for the left operand `EX`.
pub const ROW_EX: [i8; 51] = [
    -1, -1, -1, 19, -1, -2, -1, -1, -1, -1, -1, -2, -1, -2, -1, -2, -1,
    -1, -1, -1, -1, -2, -1, -1, -2, -2, -2, -1, -2, -2, -1, -2, -2, -2,
    -2, -2, -2, -2, -2, -2, -2, -2, -2, -2, -2, -1, -1, -2, -1, -2, -2,
];

fn row_ex(column: usize) -> (code: i8)
    requires
        column < 51,
    ensures
        code == rule_outcome(EX, (column + 1) as u8),
{
    ROW_EX[column]
}

/// The outcomes for the left operand `IN`.
pub const ROW_IN: [i8; 51] = [
    -1, -1, -1, 20, -1, -2, -1, -1, -1, -1, -1, -2, -1, -2, -1, -2, -1,
    -1, -1, -1, -1, -2, -1, -1, -2, -2, -2, -1, -2, -2, -1, -2, -2, -2,
    -2, -2, -2, -2, -2, -2, -2, -2, -2, -2, -2, -1, -1, -2, -1, -2, -2,
];

fn row_in(column: usize) -> (code: i8)
    requires
        column < 51,
    ensures
        code == rule_outcome(IN, (column + 1) as u8),
{
    ROW_IN[column]
}

/// The outcomes for the left operand `NS`.
pub const ROW_NS: [i8; 51] = [
    -1, -1, -1, 21, -1, -2, -1, -1, -1, -1, -1, -2, -1, -2, -1, -2, -1,
    -1, -1, -1, -1, -2, -1, -1, -2, -2, -2, -1, -2, -2, -1, -2, -2, -2,
    -2, -2, -2, -2, -2, -2, -2, -2, -2, -2, -2, -1, -1, -2, -1, -2, -2,
];

fn row_ns(column: usize) -> (code: i8)
    requires
        column < 51,
    ensures
        code == rule_outcome(NS, (column + 1) as u8),
{
    ROW_NS[column]
}

/// The outcomes for the left operand `OP`.
pub const ROW_OP: [i8; 51] = [
    -1, -1, -1, 22, -1, -1, -1, -1, -1, 45, -1, -1, -1, -1, -1, -1, -1,
    -1, -1, -1, -1, -1, -1, -1, -1, -1, -1, -1, -1, -1, -1, -1, -1, -1,
    -1, -1, -1, -1, -1, -1, -1, -1, -1, -1, -1, -1, -1, -1, -1, -1, -1,
];

fn row_op(column: usize) -> (code: i8)
    requires
        column < 51,
    ensures
        code == rule_outcome(OP, (column + 1) as u8),
{
    ROW_OP[column]
}

/// The outcomes for the left operand `QU`.
pub const ROW_QU: [i8; 51] = [
    -1, -1, -1, 23, -1, -1, -1, -1, -1, 46, -1, -1, -1, -1, -1, -1, -1,
    -1, -1, -1, -1, -1, -1, -1, -1, -1, -1, -1, -1, -1, -1, -1, -1, -1,
    -1, -1, -1, -1, -1, -1, -1, -1, -1, -1, -1, -1, -1, -1, -1, -1, -1,
];

fn row_qu(column: usize) -> (code: i8)
    requires
        column < 51,
    ensures
        code == rule_outcome(QU, (column + 1) as u8),
{
    ROW_QU[column]
}

/// The outcomes for the left operand `IS`.
pub const ROW_IS: [i8; 51] = [
    -1, -1, -1, 24, -1, -1, -1, -1, -1, -1, -1, -2, -1, -2, -1, -2, -1,
    -1, -1, -1, -1, -2, -1, -1, -2, -2, -2, -1, -1, -1, -1, -2, -2, -2,
    -2, -1, -2, -2, -2, -2, -2, -1, -1, -2, -2, -1, -1, -2, -1, -1, -2,
];

fn row_is(column: usize) -> (code: i8)
    requires
        column < 51,
    ensures
        code == rule_outcome(IS, (column + 1) as u8),
{
    ROW_IS[column]
}

/// The outcomes for the left operand `NU`.
pub const ROW_NU: [i8; 51] = [
    -1, -1, -1, 25, -1, -1, -1, -1, -1, -1, -1, -2, -1, -2, -1, -2, -1,
    -1, -1, -1, -1, -1, -1, -1, -2, -2, -2, -1, -1, -1, -1, -2, -2, -2,
    -2, -1, -2, -2, -2, -2, -2, -1, -1, -2, -1, -1, -1, -2, -1, -1, -2,
];

fn row_nu(column: usize) -> (code: i8)
    requires
        column < 51,
    ensures
        code == rule_outcome(NU, (column + 1) as u8),
{
    ROW_NU[column]
}

/// The outcomes for the left operand `PO`.
pub const ROW_PO: [i8; 51] = [
    -1, -1, -1, 26, -1, -1, -1, -1, -1, -1, -1, -2, -1, -2, -1, -2, -1,
    -1, -1, -1, -1, -2, -1, -1, -2, -2, -2, -1, -1, -1, -1, -2, -2, -2,
    -2, -1, -2, -2, -2, -2, -2, -1, -1, -2, -2, -1, -1, -2, -1, -1, -2,
];

fn row_po(column: usize) -> (code: i8)
    requires
        column < 51,
    ensures
        code == rule_outcome(PO, (column + 1) as u8),
{
    ROW_PO[column]
}

/// The outcomes for the left operand `PR`.
pub const ROW_PR: [i8; 51] = [
    -1, -1, -1, 27, -1, -1, -1, -1, -1, -1, -1, -2, -1, -2, -1, -2, -1,
    -1, -1, -1, -1, -2, -1, -1, -2, -2, -2, -1, -1, -1, -1, -1, -1, -1,
    -1, -1, -1, -1, -1, -1, -2, -1, -1, -2, -2, -1, -1, -2, -1, -1, -2,
];

fn row_pr(column: usize) -> (code: i8)
    requires
        column < 51,
    ensures
        code == rule_outcome(PR, (column + 1) as u8),
{
    ROW_PR[column]
}

/// The outcomes for the left operand `SY`.
pub const ROW_SY: [i8; 51] = [
    -1, -1, -1, 28, -1, -2, -1, -1, -1, -1, -1, -2, -1, -2, -1, -2, -1,
    -1, -1, -1, -1, -2, -1, -1, -2, -2, -2, -1, -2, -2, -1, -2, -2, -2,
    -2, -1, -2, -2, -2, -2, -2, -2, -2, -2, -2, -1, -1, -2, -1, -1, -2,
];

fn row_sy(column: usize) -> (code: i8)
    requires
        column < 51,
    ensures
        code == rule_outcome(SY, (column + 1) as u8),
{
    ROW_SY[column]
}

/// The outcomes for the left operand `AI`.
pub const ROW_AI: [i8; 51] = [
    -1, -1, -1, 29, -1, -1, -1, -1, -1, -1, -1, -2, -1, -2, -1, -2, -1,
    -1, -1, -1, -1, -1, -1, -1, -1, -1, -1, -1, -1, -1, -1, -2, -2, -2,
    -2, -1, -2, -2, -2, -2, -2, -1, -1, -2, -1, -1, -1, -2, -1, -1, -2,
];

fn row_ai(column: usize) -> (code: i8)
    requires
        column < 51,
    ensures
        code == rule_outcome(AI, (column + 1) as u8),
{
    ROW_AI[column]
}

/// The outcomes for the left operand `AL`.
pub const ROW_AL: [i8; 51] = [
    -1, -1, -1, 30, -1, -1, -1, -1, -1, -1, -1, -2, -1, -2, -1, -2, -1,
    -1, -1, -1, -1, -1, -1, -1, -1, -1, -1, -1, -1, -1, -1, -2, -2, -2,
    -2, -1, -2, -2, -2, -2, -2, -1, -1, -2, -1, -1, -1, -2, -1, -1, -2,
];

fn row_al(column: usize) -> (code: i8)
    requires
        column < 51,
    ensures
        code == rule_outcome(AL, (column + 1) as u8),
{
    ROW_AL[column]
}

/// The outcomes for the left operand `CJ`.
pub const ROW_CJ: [i8; 51] = [
    -1, -1, -1, 31, -1, -2, -1, -1, -1, -1, -1, -2, -1, -2, -1, -2, -1,
    -1, -1, -1, -1, -2, -1, -1, -2, -2, -2, -1, -2, -2, -1, -2, -2, -2,
    -2, -2, -2, -2, -2, -2, -2, -2, -2, -2, -2, -1, -1, -2, -1, -2, -2,
];

fn row_cj(column: usize) -> (code: i8)
    requires
        column < 51,
    ensures
        code == rule_outcome(CJ, (column + 1) as u8),
{
    ROW_CJ[column]
}

/// The outcomes for the left operand `EB`.
pub const ROW_EB: [i8; 51] = [
    -1, -1, -1, 32, -1, -2, -1, -1, -1, -1, -1, -2, -1, -2, -1, -2, -1,
    -1, -1, -1, -1, -2, -1, -1, -2, -1, -2, -1, -2, -2, -1, -2, -1, -2,
    -2, -2, -2, -2, -2, -2, -2, -2, -2, -2, -2, -1, -1, -2, -1, -2, -2,
];

fn row_eb(column: usize) -> (code: i8)
    requires
        column < 51,
    ensures
        code == rule_outcome(EB, (column + 1) as u8),
{
    ROW_EB[column]
}

/// The outcomes for the left operand `EM`.
pub const ROW_EM: [i8; 51] = [
    -1, -1, -1, 33, -1, -2, -1, -1, -1, -1, -1, -2, -1, -2, -1, -2, -1,
    -1, -1, -1, -1, -2, -1, -1, -2, -1, -2, -1, -2, -2, -1, -2, -2, -2,
    -2, -2, -2, -2, -2, -2, -2, -2, -2, -2, -2, -1, -1, -2, -1, -2, -2,
];

fn row_em(column: usize) -> (code: i8)
    requires
        column < 51,
    ensures
        code == rule_outcome(EM, (column + 1) as u8),
{
    ROW_EM[column]
}

/// The outcomes for the left operand `H2`.
pub const ROW_H2: [i8; 51] = [
    -1, -1, -1, 34, -1, -2, -1, -1, -1, -1, -1, -2, -1, -2, -1, -2, -1,
    -1, -1, -1, -1, -2, -1, -1, -2, -1, -2, -1, -2, -2, -1, -2, -2, -2,
    -2, -2, -2, -2, -1, -1, -2, -2, -2, -2, -2, -1, -1, -2, -1, -2, -2,
];

fn row_h2(column: usize) -> (code: i8)
    requires
        column < 51,
    ensures
        code == rule_outcome(H2, (column + 1) as u8),
{
    ROW_H2[column]
}

/// The outcomes for the left operand `H3`.
pub const ROW_H3: [i8; 51] = [
    -1, -1, -1, 35, -1, -2, -1, -1, -1, -1, -1, -2, -1, -2, -1, -2, -1,
    -1, -1, -1, -1, -2, -1, -1, -2, -1, -2, -1, -2, -2, -1, -2, -2, -2,
    -2, -2, -2, -2, -2, -1, -2, -2, -2, -2, -2, -1, -1, -2, -1, -2, -2,
];

fn row_h3(column: usize) -> (code: i8)
    requires
        column < 51,
    ensures
        code == rule_outcome(H3, (column + 1) as u8),
{
    ROW_H3[column]
}

/// The outcomes for the left operand `HL`.
pub const ROW_HL: [i8; 51] = [
    -1, -1, -1, 36, -1, -1, -1, -1, -1, -1, -1, -2, 50, -2, 50, -2, -1,
    -1, -1, -1, -1, -1, -1, -1, -1, -1, -1, -1, -1, -1, -1, -2, -2, -2,
    -2, -1, -2, -2, -2, -2, -2, -1, -1, -2, -1, -1, -1, -2, -1, -1, -2,
];

fn row_hl(column: usize) -> (code: i8)
    requires
        column < 51,
    ensures
        code == rule_outcome(HL, (column + 1) as u8),
{
    ROW_HL[column]
}

/// The outcomes for the left operand `ID`.
pub const ROW_ID: [i8; 51] = [
    -1, -1, -1, 37, -1, -2, -1, -1, -1, -1, -1, -2, -1, -2, -1, -2, -1,
    -1, -1, -1, -1, -2, -1, -1, -2, -1, -2, -1, -2, -2, -1, -2, -2, -2,
    -2, -2, -2, -2, -2, -2, -2, -2, -2, -2, -2, -1, -1, -2, -1, -2, -2,
];

fn row_id(column: usize) -> (code: i8)
    requires
        column < 51,
    ensures
        code == rule_outcome(ID, (column + 1) as u8),
{
    ROW_ID[column]
}

/// The outcomes for the left operand `JL`.
pub const ROW_JL: [i8; 51] = [
    -1, -1, -1, 38, -1, -2, -1, -1, -1, -1, -1, -2, -1, -2, -1, -2, -1,
    -1, -1, -1, -1, -2, -1, -1, -2, -1, -2, -1, -2, -2, -1, -2, -2, -1,
    -1, -2, -2, -1, -1, -2, -2, -2, -2, -2, -2, -1, -1, -2, -1, -2, -2,
];

fn row_jl(column: usize) -> (code: i8)
    requires
        column < 51,
    ensures
        code == rule_outcome(JL, (column + 1) as u8),
{
    ROW_JL[column]
}

/// The outcomes for the left operand `JV`.
pub const ROW_JV: [i8; 51] = [
    -1, -1, -1, 39, -1, -2, -1, -1, -1, -1, -1, -2, -1, -2, -1, -2, -1,
    -1, -1, -1, -1, -2, -1, -1, -2, -1, -2, -1, -2, -2, -1, -2, -2, -2,
    -2, -2, -2, -2, -1, -1, -2, -2, -2, -2, -2, -1, -1, -2, -1, -2, -2,
];

fn row_jv(column: usize) -> (code: i8)
    requires
        column < 51,
    ensures
        code == rule_outcome(JV, (column + 1) as u8),
{
    ROW_JV[column]
}

/// The outcomes for the left operand `JT`.
pub const ROW_JT: [i8; 51] = [
    -1, -1, -1, 40, -1, -2, -1, -1, -1, -1, -1, -2, -1, -2, -1, -2, -1,
    -1, -1, -1, -1, -2, -1, -1, -2, -1, -2, -1, -2, -2, -1, -2, -2, -2,
    -2, -2, -2, -2, -2, -1, -2, -2, -2, -2, -2, -1, -1, -2, -1, -2, -2,
];

fn row_jt(column: usize) -> (code: i8)
    requires
        column < 51,
    ensures
        code == rule_outcome(JT, (column + 1) as u8),
{
    ROW_JT[column]
}

/// The outcomes for the left operand `RI`.
pub const ROW_RI: [i8; 51] = [
    -1, -1, -1, 41, -1, -2, -1, -1, -1, -1, -1, -2, -1, -2, -1, -2, -1,
    -1, -1, -1, -1, -2, -1, -1, -2, -2, -2, -1, -2, -2, -1, -2, -2, -2,
    -2, -2, -2, -2, -2, -2, 51, -2, -2, -2, -2, -1, -1, -2, -1, -2, 51,
];

fn row_ri(column: usize) -> (code: i8)
    requires
        column < 51,
    ensures
        code == rule_outcome(RI, (column + 1) as u8),
{
    ROW_RI[column]
}

/// The outcomes for the left operand `SA`.
pub const ROW_SA: [i8; 51] = [
    -1, -1, -1, 42, -1, -1, -1, -1, -1, -1, -1, -2, -1, -2, -1, -2, -1,
    -1, -1, -1, -1, -1, -1, -1, -1, -1, -1, -1, -1, -1, -1, -2, -2, -2,
    -2, -1, -2, -2, -2, -2, -2, -1, -1, -2, -1, -1, -1, -2, -1, -1, -2,
];

fn row_sa(column: usize) -> (code: i8)
    requires
        column < 51,
    ensures
        code == rule_outcome(SA, (column + 1) as u8),
{
    ROW_SA[column]
}

/// The outcomes for the left operand `XX`.
pub const ROW_XX: [i8; 51] = [
    -1, -1, -1, 43, -1, -1, -1, -1, -1, -1, -1, -2, -1, -2, -1, -2, -1,
    -1, -1, -1, -1, -1, -1, -1, -1, -1, -1, -1, -1, -1, -1, -2, -2, -2,
    -2, -1, -2, -2, -2, -2, -2, -1, -1, -2, -1, -1, -1, -2, -1, -1, -2,
];

fn row_xx(column: usize) -> (code: i8)
    requires
        column < 51,
    ensures
        code == rule_outcome(XX, (column + 1) as u8),
{
    ROW_XX[column]
}

/// The outcomes for the left operand `OP_EA`.
pub const ROW_OP_EA: [i8; 51] = [
    -1, -1, -1, 44, -1, -1, -1, -1, -1, 45, -1, -1, -1, -1, -1, -1, -1,
    -1, -1, -1, -1, -1, -1, -1, -1, -1, -1, -1, -1, -1, -1, -1, -1, -1,
    -1, -1, -1, -1, -1, -1, -1, -1, -1, -1, -1, -1, -1, -1, -1, -1, -1,
];

fn row_op_ea(column: usize) -> (code: i8)
    requires
        column < 51,
    ensures
        code == rule_outcome(OP_EA, (column + 1) as u8),
{
    ROW_OP_EA[column]
}

/// The outcomes for the left operand `OP_SP`.
pub const ROW_OP_SP: [i8; 51] = [
    -1, -1, -1, -1, -1, -1, -1, -1, -1, 45, -1, -1, -1, -1, -1, -1, -1,
    -1, -1, -1, -1, -1, -1, -1, -1, -1, -1, -1, -1, -1, -1, -1, -1, -1,
    -1, -1, -1, -1, -1, -1, -1, -1, -1, -1, -1, -1, -1, -1, -1, -1, -1,
];

fn row_op_sp(column: usize) -> (code: i8)
    requires
        column < 51,
    ensures
        code == rule_outcome(OP_SP, (column + 1) as u8),
{
    ROW_OP_SP[column]
}

/// The outcomes for the left operand `QU_SP`.
pub const ROW_QU_SP: [i8; 51] = [
    -1, -1, -1, -2, -1, -2, -1, -1, -2, 46, -2, -2, -2, -2, -2, -2, -1,
    -1, -1, -2, -2, -1, -2, -1, -2, -2, -2, -1, -2, -2, -2, -2, -2, -2,
    -2, -2, -2, -2, -2, -2, -2, -2, -2, -1, -1, -2, -1, -2, -1, -2, -2,
];

fn row_qu_sp(column: usize) -> (code: i8)
    requires
        column < 51,
    ensures
        code == rule_outcome(QU_SP, (column + 1) as u8),
{
    ROW_QU_SP[column]
}

/// The outcomes for the left operand `CL_SP`.
pub const ROW_CL_SP: [i8; 51] = [
    -1, -1, -1, -2, -1, -2, -1, -1, -2, 47, -2, -2, -2, -2, -2, -2, -1,
    -1, -1, -2, -1, -2, -2, -1, -2, -2, -2, -1, -2, -2, -1, -2, -2, -2,
    -2, -2, -2, -2, -2, -2, -2, -2, -2, -2, -2, -2, -1, -2, -1, -2, -2,
];

fn row_cl_sp(column: usize) -> (code: i8)
    requires
        column < 51,
    ensures
        code == rule_outcome(CL_SP, (column + 1) as u8),
{
    ROW_CL_SP[column]
}

/// The outcomes for the left operand `B2_SP`.
pub const ROW_B2_SP: [i8; 51] = [
    -1, -1, -1, -2, -1, -2, -1, -1, -2, 48, -2, -1, -2, -2, -2, -2, -1,
    -1, -1, -2, -2, -2, -2, -1, -2, -2, -2, -1, -2, -2, -2, -2, -2, -2,
    -2, -2, -2, -2, -2, -2, -2, -2, -2, -2, -2, -2, -1, -1, -1, -2, -2,
];

fn row_b2_sp(column: usize) -> (code: i8)
    requires
        column < 51,
    ensures
        code == rule_outcome(B2_SP, (column + 1) as u8),
{
    ROW_B2_SP[column]
}

/// The outcomes for the left operand `ZW_SP`.
pub const ROW_ZW_SP: [i8; 51] = [
    -1, -1, -1, -2, -1, -2, -2, -1, -2, 49, -2, -2, -2, -2, -2, -2, -2,
    -2, -2, -2, -2, -2, -2, -2, -2, -2, -2, -2, -2, -2, -2, -2, -2, -2,
    -2, -2, -2, -2, -2, -2, -2, -2, -2, -2, -2, -2, -2, -2, -1, -2, -2,
];

fn row_zw_sp(column: usize) -> (code: i8)
    requires
        column < 51,
    ensures
        code == rule_outcome(ZW_SP, (column + 1) as u8),
{
    ROW_ZW_SP[column]
}

/// The outcomes for the left operand `HL_HY`.
pub const ROW_HL_HY: [i8; 51] = [
    -1, -1, -1, 50, -1, -1, -1, -1, -1, -1, -1, -1, -1, -1, -1, -2, -1,
    -1, -1, -1, -1, -1, -1, -1, -1, -1, -1, -1, -1, -1, -1, -1, -1, -1,
    -1, -1, -1, -1, -1, -1, -1, -1, -1, -1, -1, -1, -1, -1, -1, -1, -1,
];

fn row_hl_hy(column: usize) -> (code: i8)
    requires
        column < 51,
    ensures
        code == rule_outcome(HL_HY, (column + 1) as u8),
{
    ROW_HL_HY[column]
}

/// The outcomes for the left operand `RI_RI`.
pub const ROW_RI_RI: [i8; 51] = [
    -1, -1, -1, 51, -1, -2, -1, -1, -1, -1, -1, -2, -1, -2, -1, -2, -1,
    -1, -1, -1, -1, -2, -1, -1, -2, -2, -2, -1, -2, -2, -1, -2, -2, -2,
    -2, -2, -2, -2, -2, -2, -2, -2, -2, -2, -2, -1, -1, -2, -1, -2, -2,
];

fn row_ri_ri(column: usize) -> (code: i8)
    requires
        column < 51,
    ensures
        code == rule_outcome(RI_RI, (column + 1) as u8),
{
    ROW_RI_RI[column]
}

/// The raw outcome code for the left operand `current`, a class or a
/// state, and the right operand `next`: the entry of the pair table.
pub fn get_break_state(current: u8, next: u8) -> (code: i8)
    requires
        is_prop(current),
        is_prop(next),
    ensures
        code == rule_outcome(current, next),
{
    let column: usize = (next - 1) as usize;
    match current {
        BK => row_bk(column),
        CR => row_cr(column),
        LF => row_lf(column),
        CM => row_cm(column),
        NL => row_nl(column),
        SG => row_sg(column),
        WJ => row_wj(column),
        ZW => row_zw(column),
        GL => row_gl(column),
        SP => row_sp(column),
        ZWJ => row_zwj(column),
        B2 => row_b2(column),
        BA => row_ba(column),
        BB => row_bb(column),
        HY => row_hy(column),
        CB => row_cb(column),
        CL => row_cl(column),
        CP => row_cp(column),
        EX => row_ex(column),
        IN => row_in(column),
        NS => row_ns(column),
        OP => row_op(column),
        QU => row_qu(column),
        IS => row_is(column),
        NU => row_nu(column),
        PO => row_po(column),
        PR => row_pr(column),
        SY => row_sy(column),
        AI => row_ai(column),
        AL => row_al(column),
        CJ => row_cj(column),
        EB => row_eb(column),
        EM => row_em(column),
        H2 => row_h2(column),
        H3 => row_h3(column),
        HL => row_hl(column),
        ID => row_id(column),
        JL => row_jl(column),
        JV => row_jv(column),
        JT => row_jt(column),
        RI => row_ri(column),
        SA => row_sa(column),
        XX => row_xx(column),
        OP_EA => row_op_ea(column),
        OP_SP => row_op_sp(column),
        QU_SP => row_qu_sp(column),
        CL_SP => row_cl_sp(column),
        B2_SP => row_b2_sp(column),
        ZW_SP => row_zw_sp(column),
        HL_HY => row_hl_hy(column),
        _ => row_ri_ri(column),
    }
}

} // verus!
