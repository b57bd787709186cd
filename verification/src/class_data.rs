//! The line-break class of every code point below U+20000.
//!
//! The code points are cut into ranges of one class each, and the ranges
//! into blocks. For each block the ranges are written down twice: as the
//! definition of the class, and as the code that looks it up. The Hangul
//! syllables stand as one range; their two classes are told apart by
//! arithmetic where the table is read.
use vstd::prelude::*;
use crate::classes::{
    is_class, AI, AL, B2, BA, BB, BK, CB, CJ, CL, CM, CP, CR, EB, EM, EX, GL, H3, HL, HY, ID,
    IN, IS, JL, JT, JV, LF, NL, NS, NU, OP, OP_EA, PO, PR, QU, RI, SA, SG, SP, SY, WJ, XX, ZW,
    ZWJ,
};

verus! {

/// The first code point that the table does not cover.
pub const TABLE_LIMIT: u32 = 0x20000;

/// The classes from U+0000 to U+00AC.
pub open spec fn class_00(code: u32) -> u8 {
    match code {
        _ if code <= 0x0008 => CM,
        _ if code <= 0x0009 => BA,
        _ if code <= 0x000A => LF,
        _ if code <= 0x000C => BK,
        _ if code <= 0x000D => CR,
        _ if code <= 0x001F => CM,
        _ if code <= 0x0020 => SP,
        _ if code <= 0x0021 => EX,
        _ if code <= 0x0022 => QU,
        _ if code <= 0x0023 => AL,
        _ if code <= 0x0024 => PR,
        _ if code <= 0x0025 => PO,
        _ if code <= 0x0026 => AL,
        _ if code <= 0x0027 => QU,
        _ if code <= 0x0028 => OP,
        _ if code <= 0x0029 => CP,
        _ if code <= 0x002A => AL,
        _ if code <= 0x002B => PR,
        _ if code <= 0x002C => IS,
        _ if code <= 0x002D => HY,
        _ if code <= 0x002E => IS,
        _ if code <= 0x002F => SY,
        _ if code <= 0x0039 => NU,
        _ if code <= 0x003B => IS,
        _ if code <= 0x003E => AL,
        _ if code <= 0x003F => EX,
        _ if code <= 0x005A => AL,
        _ if code <= 0x005B => OP,
        _ if code <= 0x005C => PR,
        _ if code <= 0x005D => CP,
        _ if code <= 0x007A => AL,
        _ if code <= 0x007B => OP,
        _ if code <= 0x007C => BA,
        _ if code <= 0x007D => CL,
        _ if code <= 0x007E => AL,
        _ if code <= 0x0084 => CM,
        _ if code <= 0x0085 => NL,
        _ if code <= 0x009F => CM,
        _ if code <= 0x00A0 => GL,
        _ if code <= 0x00A1 => OP,
        _ if code <= 0x00A2 => PO,
        _ if code <= 0x00A5 => PR,
        _ if code <= 0x00A6 => AL,
        _ if code <= 0x00A8 => AI,
        _ if code <= 0x00A9 => AL,
        _ if code <= 0x00AA => AI,
        _ if code <= 0x00AB => QU,
        _ => AL,
    }
}

fn block_00(code: u32) -> (class: u8)
    requires
        0x0000 <= code <= 0x00AC,
    ensures
        class == class_00(code),
        is_class(class),
{
    match code {
        0x0000..=0x0008 => CM,
        0x0009 => BA,
        0x000A => LF,
        0x000B..=0x000C => BK,
        0x000D => CR,
        0x000E..=0x001F => CM,
        0x0020 => SP,
        0x0021 => EX,
        0x0022 => QU,
        0x0023 => AL,
        0x0024 => PR,
        0x0025 => PO,
        0x0026 => AL,
        0x0027 => QU,
        0x0028 => OP,
        0x0029 => CP,
        0x002A => AL,
        0x002B => PR,
        0x002C => IS,
        0x002D => HY,
        0x002E => IS,
        0x002F => SY,
        0x0030..=0x0039 => NU,
        0x003A..=0x003B => IS,
        0x003C..=0x003E => AL,
        0x003F => EX,
        0x0040..=0x005A => AL,
        0x005B => OP,
        0x005C => PR,
        0x005D => CP,
        0x005E..=0x007A => AL,
        0x007B => OP,
        0x007C => BA,
        0x007D => CL,
        0x007E => AL,
        0x007F..=0x0084 => CM,
        0x0085 => NL,
        0x0086..=0x009F => CM,
        0x00A0 => GL,
        0x00A1 => OP,
        0x00A2 => PO,
        0x00A3..=0x00A5 => PR,
        0x00A6 => AL,
        0x00A7..=0x00A8 => AI,
        0x00A9 => AL,
        0x00AA => AI,
        0x00AB => QU,
        _ => AL,
    }
}

/// The classes from U+00AD to U+0482.
pub open spec fn class_01(code: u32) -> u8 {
    match code {
        _ if code <= 0x00AD => BA,
        _ if code <= 0x00AF => AL,
        _ if code <= 0x00B0 => PO,
        _ if code <= 0x00B1 => PR,
        _ if code <= 0x00B3 => AI,
        _ if code <= 0x00B4 => BB,
        _ if code <= 0x00B5 => AL,
        _ if code <= 0x00BA => AI,
        _ if code <= 0x00BB => QU,
        _ if code <= 0x00BE => AI,
        _ if code <= 0x00BF => OP,
        _ if code <= 0x00D6 => AL,
        _ if code <= 0x00D7 => AI,
        _ if code <= 0x00F6 => AL,
        _ if code <= 0x00F7 => AI,
        _ if code <= 0x02C6 => AL,
        _ if code <= 0x02C7 => AI,
        _ if code <= 0x02C8 => BB,
        _ if code <= 0x02CB => AI,
        _ if code <= 0x02CC => BB,
        _ if code <= 0x02CD => AI,
        _ if code <= 0x02CF => AL,
        _ if code <= 0x02D0 => AI,
        _ if code <= 0x02D7 => AL,
        _ if code <= 0x02DB => AI,
        _ if code <= 0x02DC => AL,
        _ if code <= 0x02DD => AI,
        _ if code <= 0x02DE => AL,
        _ if code <= 0x02DF => BB,
        _ if code <= 0x02FF => AL,
        _ if code <= 0x034E => CM,
        _ if code <= 0x034F => GL,
        _ if code <= 0x035B => CM,
        _ if code <= 0x0362 => GL,
        _ if code <= 0x036F => CM,
        _ if code <= 0x0377 => AL,
        _ if code <= 0x0379 => XX,
        _ if code <= 0x037D => AL,
        _ if code <= 0x037E => IS,
        _ if code <= 0x037F => AL,
        _ if code <= 0x0383 => XX,
        _ if code <= 0x038A => AL,
        _ if code <= 0x038B => XX,
        _ if code <= 0x038C => AL,
        _ if code <= 0x038D => XX,
        _ if code <= 0x03A1 => AL,
        _ if code <= 0x03A2 => XX,
        _ => AL,
    }
}

fn block_01(code: u32) -> (class: u8)
    requires
        0x00AD <= code <= 0x0482,
    ensures
        class == class_01(code),
        is_class(class),
{
    match code {
        0x00AD => BA,
        0x00AE..=0x00AF => AL,
        0x00B0 => PO,
        0x00B1 => PR,
        0x00B2..=0x00B3 => AI,
        0x00B4 => BB,
        0x00B5 => AL,
        0x00B6..=0x00BA => AI,
        0x00BB => QU,
        0x00BC..=0x00BE => AI,
        0x00BF => OP,
        0x00C0..=0x00D6 => AL,
        0x00D7 => AI,
        0x00D8..=0x00F6 => AL,
        0x00F7 => AI,
        0x00F8..=0x02C6 => AL,
        0x02C7 => AI,
        0x02C8 => BB,
        0x02C9..=0x02CB => AI,
        0x02CC => BB,
        0x02CD => AI,
        0x02CE..=0x02CF => AL,
        0x02D0 => AI,
        0x02D1..=0x02D7 => AL,
        0x02D8..=0x02DB => AI,
        0x02DC => AL,
        0x02DD => AI,
        0x02DE => AL,
        0x02DF => BB,
        0x02E0..=0x02FF => AL,
        0x0300..=0x034E => CM,
        0x034F => GL,
        0x0350..=0x035B => CM,
        0x035C..=0x0362 => GL,
        0x0363..=0x036F => CM,
        0x0370..=0x0377 => AL,
        0x0378..=0x0379 => XX,
        0x037A..=0x037D => AL,
        0x037E => IS,
        0x037F => AL,
        0x0380..=0x0383 => XX,
        0x0384..=0x038A => AL,
        0x038B => XX,
        0x038C => AL,
        0x038D => XX,
        0x038E..=0x03A1 => AL,
        0x03A2 => XX,
        _ => AL,
    }
}

/// The classes from U+0483 to U+06E4.
pub open spec fn class_02(code: u32) -> u8 {
    match code {
        _ if code <= 0x0489 => CM,
        _ if code <= 0x052F => AL,
        _ if code <= 0x0530 => XX,
        _ if code <= 0x0556 => AL,
        _ if code <= 0x0558 => XX,
        _ if code <= 0x0588 => AL,
        _ if code <= 0x0589 => IS,
        _ if code <= 0x058A => BA,
        _ if code <= 0x058C => XX,
        _ if code <= 0x058E => AL,
        _ if code <= 0x058F => PR,
        _ if code <= 0x0590 => XX,
        _ if code <= 0x05BD => CM,
        _ if code <= 0x05BE => BA,
        _ if code <= 0x05BF => CM,
        _ if code <= 0x05C0 => AL,
        _ if code <= 0x05C2 => CM,
        _ if code <= 0x05C3 => AL,
        _ if code <= 0x05C5 => CM,
        _ if code <= 0x05C6 => EX,
        _ if code <= 0x05C7 => CM,
        _ if code <= 0x05CF => XX,
        _ if code <= 0x05EA => HL,
        _ if code <= 0x05EE => XX,
        _ if code <= 0x05F2 => HL,
        _ if code <= 0x05F4 => AL,
        _ if code <= 0x05FF => XX,
        _ if code <= 0x0608 => AL,
        _ if code <= 0x060B => PO,
        _ if code <= 0x060D => IS,
        _ if code <= 0x060F => AL,
        _ if code <= 0x061A => CM,
        _ if code <= 0x061B => EX,
        _ if code <= 0x061C => CM,
        _ if code <= 0x061F => EX,
        _ if code <= 0x064A => AL,
        _ if code <= 0x065F => CM,
        _ if code <= 0x0669 => NU,
        _ if code <= 0x066A => PO,
        _ if code <= 0x066C => NU,
        _ if code <= 0x066F => AL,
        _ if code <= 0x0670 => CM,
        _ if code <= 0x06D3 => AL,
        _ if code <= 0x06D4 => EX,
        _ if code <= 0x06D5 => AL,
        _ if code <= 0x06DC => CM,
        _ if code <= 0x06DE => AL,
        _ => CM,
    }
}

fn block_02(code: u32) -> (class: u8)
    requires
        0x0483 <= code <= 0x06E4,
    ensures
        class == class_02(code),
        is_class(class),
{
    match code {
        0x0483..=0x0489 => CM,
        0x048A..=0x052F => AL,
        0x0530 => XX,
        0x0531..=0x0556 => AL,
        0x0557..=0x0558 => XX,
        0x0559..=0x0588 => AL,
        0x0589 => IS,
        0x058A => BA,
        0x058B..=0x058C => XX,
        0x058D..=0x058E => AL,
        0x058F => PR,
        0x0590 => XX,
        0x0591..=0x05BD => CM,
        0x05BE => BA,
        0x05BF => CM,
        0x05C0 => AL,
        0x05C1..=0x05C2 => CM,
        0x05C3 => AL,
        0x05C4..=0x05C5 => CM,
        0x05C6 => EX,
        0x05C7 => CM,
        0x05C8..=0x05CF => XX,
        0x05D0..=0x05EA => HL,
        0x05EB..=0x05EE => XX,
        0x05EF..=0x05F2 => HL,
        0x05F3..=0x05F4 => AL,
        0x05F5..=0x05FF => XX,
        0x0600..=0x0608 => AL,
        0x0609..=0x060B => PO,
        0x060C..=0x060D => IS,
        0x060E..=0x060F => AL,
        0x0610..=0x061A => CM,
        0x061B => EX,
        0x061C => CM,
        0x061D..=0x061F => EX,
        0x0620..=0x064A => AL,
        0x064B..=0x065F => CM,
        0x0660..=0x0669 => NU,
        0x066A => PO,
        0x066B..=0x066C => NU,
        0x066D..=0x066F => AL,
        0x0670 => CM,
        0x0671..=0x06D3 => AL,
        0x06D4 => EX,
        0x06D5 => AL,
        0x06D6..=0x06DC => CM,
        0x06DD..=0x06DE => AL,
        _ => CM,
    }
}

/// The classes from U+06E5 to U+0891.
pub open spec fn class_03(code: u32) -> u8 {
    match code {
        _ if code <= 0x06E6 => AL,
        _ if code <= 0x06E8 => CM,
        _ if code <= 0x06E9 => AL,
        _ if code <= 0x06ED => CM,
        _ if code <= 0x06EF => AL,
        _ if code <= 0x06F9 => NU,
        _ if code <= 0x070D => AL,
        _ if code <= 0x070E => XX,
        _ if code <= 0x0710 => AL,
        _ if code <= 0x0711 => CM,
        _ if code <= 0x072F => AL,
        _ if code <= 0x074A => CM,
        _ if code <= 0x074C => XX,
        _ if code <= 0x07A5 => AL,
        _ if code <= 0x07B0 => CM,
        _ if code <= 0x07B1 => AL,
        _ if code <= 0x07BF => XX,
        _ if code <= 0x07C9 => NU,
        _ if code <= 0x07EA => AL,
        _ if code <= 0x07F3 => CM,
        _ if code <= 0x07F7 => AL,
        _ if code <= 0x07F8 => IS,
        _ if code <= 0x07F9 => EX,
        _ if code <= 0x07FA => AL,
        _ if code <= 0x07FC => XX,
        _ if code <= 0x07FD => CM,
        _ if code <= 0x07FF => PR,
        _ if code <= 0x0815 => AL,
        _ if code <= 0x0819 => CM,
        _ if code <= 0x081A => AL,
        _ if code <= 0x0823 => CM,
        _ if code <= 0x0824 => AL,
        _ if code <= 0x0827 => CM,
        _ if code <= 0x0828 => AL,
        _ if code <= 0x082D => CM,
        _ if code <= 0x082F => XX,
        _ if code <= 0x083E => AL,
        _ if code <= 0x083F => XX,
        _ if code <= 0x0858 => AL,
        _ if code <= 0x085B => CM,
        _ if code <= 0x085D => XX,
        _ if code <= 0x085E => AL,
        _ if code <= 0x085F => XX,
        _ if code <= 0x086A => AL,
        _ if code <= 0x086F => XX,
        _ if code <= 0x088E => AL,
        _ if code <= 0x088F => XX,
        _ => AL,
    }
}

fn block_03(code: u32) -> (class: u8)
    requires
        0x06E5 <= code <= 0x0891,
    ensures
        class == class_03(code),
        is_class(class),
{
    match code {
        0x06E5..=0x06E6 => AL,
        0x06E7..=0x06E8 => CM,
        0x06E9 => AL,
        0x06EA..=0x06ED => CM,
        0x06EE..=0x06EF => AL,
        0x06F0..=0x06F9 => NU,
        0x06FA..=0x070D => AL,
        0x070E => XX,
        0x070F..=0x0710 => AL,
        0x0711 => CM,
        0x0712..=0x072F => AL,
        0x0730..=0x074A => CM,
        0x074B..=0x074C => XX,
        0x074D..=0x07A5 => AL,
        0x07A6..=0x07B0 => CM,
        0x07B1 => AL,
        0x07B2..=0x07BF => XX,
        0x07C0..=0x07C9 => NU,
        0x07CA..=0x07EA => AL,
        0x07EB..=0x07F3 => CM,
        0x07F4..=0x07F7 => AL,
        0x07F8 => IS,
        0x07F9 => EX,
        0x07FA => AL,
        0x07FB..=0x07FC => XX,
        0x07FD => CM,
        0x07FE..=0x07FF => PR,
        0x0800..=0x0815 => AL,
        0x0816..=0x0819 => CM,
        0x081A => AL,
        0x081B..=0x0823 => CM,
        0x0824 => AL,
        0x0825..=0x0827 => CM,
        0x0828 => AL,
        0x0829..=0x082D => CM,
        0x082E..=0x082F => XX,
        0x0830..=0x083E => AL,
        0x083F => XX,
        0x0840..=0x0858 => AL,
        0x0859..=0x085B => CM,
        0x085C..=0x085D => XX,
        0x085E => AL,
        0x085F => XX,
        0x0860..=0x086A => AL,
        0x086B..=0x086F => XX,
        0x0870..=0x088E => AL,
        0x088F => XX,
        _ => AL,
    }
}

/// The classes from U+0892 to U+09EF.
pub open spec fn class_04(code: u32) -> u8 {
    match code {
        _ if code <= 0x0897 => XX,
        _ if code <= 0x089F => CM,
        _ if code <= 0x08C9 => AL,
        _ if code <= 0x08E1 => CM,
        _ if code <= 0x08E2 => AL,
        _ if code <= 0x0903 => CM,
        _ if code <= 0x0939 => AL,
        _ if code <= 0x093C => CM,
        _ if code <= 0x093D => AL,
        _ if code <= 0x094F => CM,
        _ if code <= 0x0950 => AL,
        _ if code <= 0x0957 => CM,
        _ if code <= 0x0961 => AL,
        _ if code <= 0x0963 => CM,
        _ if code <= 0x0965 => BA,
        _ if code <= 0x096F => NU,
        _ if code <= 0x0980 => AL,
        _ if code <= 0x0983 => CM,
        _ if code <= 0x0984 => XX,
        _ if code <= 0x098C => AL,
        _ if code <= 0x098E => XX,
        _ if code <= 0x0990 => AL,
        _ if code <= 0x0992 => XX,
        _ if code <= 0x09A8 => AL,
        _ if code <= 0x09A9 => XX,
        _ if code <= 0x09B0 => AL,
        _ if code <= 0x09B1 => XX,
        _ if code <= 0x09B2 => AL,
        _ if code <= 0x09B5 => XX,
        _ if code <= 0x09B9 => AL,
        _ if code <= 0x09BB => XX,
        _ if code <= 0x09BC => CM,
        _ if code <= 0x09BD => AL,
        _ if code <= 0x09C4 => CM,
        _ if code <= 0x09C6 => XX,
        _ if code <= 0x09C8 => CM,
        _ if code <= 0x09CA => XX,
        _ if code <= 0x09CD => CM,
        _ if code <= 0x09CE => AL,
        _ if code <= 0x09D6 => XX,
        _ if code <= 0x09D7 => CM,
        _ if code <= 0x09DB => XX,
        _ if code <= 0x09DD => AL,
        _ if code <= 0x09DE => XX,
        _ if code <= 0x09E1 => AL,
        _ if code <= 0x09E3 => CM,
        _ if code <= 0x09E5 => XX,
        _ => NU,
    }
}

fn block_04(code: u32) -> (class: u8)
    requires
        0x0892 <= code <= 0x09EF,
    ensures
        class == class_04(code),
        is_class(class),
{
    match code {
        0x0892..=0x0897 => XX,
        0x0898..=0x089F => CM,
        0x08A0..=0x08C9 => AL,
        0x08CA..=0x08E1 => CM,
        0x08E2 => AL,
        0x08E3..=0x0903 => CM,
        0x0904..=0x0939 => AL,
        0x093A..=0x093C => CM,
        0x093D => AL,
        0x093E..=0x094F => CM,
        0x0950 => AL,
        0x0951..=0x0957 => CM,
        0x0958..=0x0961 => AL,
        0x0962..=0x0963 => CM,
        0x0964..=0x0965 => BA,
        0x0966..=0x096F => NU,
        0x0970..=0x0980 => AL,
        0x0981..=0x0983 => CM,
        0x0984 => XX,
        0x0985..=0x098C => AL,
        0x098D..=0x098E => XX,
        0x098F..=0x0990 => AL,
        0x0991..=0x0992 => XX,
        0x0993..=0x09A8 => AL,
        0x09A9 => XX,
        0x09AA..=0x09B0 => AL,
        0x09B1 => XX,
        0x09B2 => AL,
        0x09B3..=0x09B5 => XX,
        0x09B6..=0x09B9 => AL,
        0x09BA..=0x09BB => XX,
        0x09BC => CM,
        0x09BD => AL,
        0x09BE..=0x09C4 => CM,
        0x09C5..=0x09C6 => XX,
        0x09C7..=0x09C8 => CM,
        0x09C9..=0x09CA => XX,
        0x09CB..=0x09CD => CM,
        0x09CE => AL,
        0x09CF..=0x09D6 => XX,
        0x09D7 => CM,
        0x09D8..=0x09DB => XX,
        0x09DC..=0x09DD => AL,
        0x09DE => XX,
        0x09DF..=0x09E1 => AL,
        0x09E2..=0x09E3 => CM,
        0x09E4..=0x09E5 => XX,
        _ => NU,
    }
}

/// The classes from U+09F0 to U+0A8D.
pub open spec fn class_05(code: u32) -> u8 {
    match code {
        _ if code <= 0x09F1 => AL,
        _ if code <= 0x09F3 => PO,
        _ if code <= 0x09F8 => AL,
        _ if code <= 0x09F9 => PO,
        _ if code <= 0x09FA => AL,
        _ if code <= 0x09FB => PR,
        _ if code <= 0x09FD => AL,
        _ if code <= 0x09FE => CM,
        _ if code <= 0x0A00 => XX,
        _ if code <= 0x0A03 => CM,
        _ if code <= 0x0A04 => XX,
        _ if code <= 0x0A0A => AL,
        _ if code <= 0x0A0E => XX,
        _ if code <= 0x0A10 => AL,
        _ if code <= 0x0A12 => XX,
        _ if code <= 0x0A28 => AL,
        _ if code <= 0x0A29 => XX,
        _ if code <= 0x0A30 => AL,
        _ if code <= 0x0A31 => XX,
        _ if code <= 0x0A33 => AL,
        _ if code <= 0x0A34 => XX,
        _ if code <= 0x0A36 => AL,
        _ if code <= 0x0A37 => XX,
        _ if code <= 0x0A39 => AL,
        _ if code <= 0x0A3B => XX,
        _ if code <= 0x0A3C => CM,
        _ if code <= 0x0A3D => XX,
        _ if code <= 0x0A42 => CM,
        _ if code <= 0x0A46 => XX,
        _ if code <= 0x0A48 => CM,
        _ if code <= 0x0A4A => XX,
        _ if code <= 0x0A4D => CM,
        _ if code <= 0x0A50 => XX,
        _ if code <= 0x0A51 => CM,
        _ if code <= 0x0A58 => XX,
        _ if code <= 0x0A5C => AL,
        _ if code <= 0x0A5D => XX,
        _ if code <= 0x0A5E => AL,
        _ if code <= 0x0A65 => XX,
        _ if code <= 0x0A6F => NU,
        _ if code <= 0x0A71 => CM,
        _ if code <= 0x0A74 => AL,
        _ if code <= 0x0A75 => CM,
        _ if code <= 0x0A76 => AL,
        _ if code <= 0x0A80 => XX,
        _ if code <= 0x0A83 => CM,
        _ if code <= 0x0A84 => XX,
        _ => AL,
    }
}

fn block_05(code: u32) -> (class: u8)
    requires
        0x09F0 <= code <= 0x0A8D,
    ensures
        class == class_05(code),
        is_class(class),
{
    match code {
        0x09F0..=0x09F1 => AL,
        0x09F2..=0x09F3 => PO,
        0x09F4..=0x09F8 => AL,
        0x09F9 => PO,
        0x09FA => AL,
        0x09FB => PR,
        0x09FC..=0x09FD => AL,
        0x09FE => CM,
        0x09FF..=0x0A00 => XX,
        0x0A01..=0x0A03 => CM,
        0x0A04 => XX,
        0x0A05..=0x0A0A => AL,
        0x0A0B..=0x0A0E => XX,
        0x0A0F..=0x0A10 => AL,
        0x0A11..=0x0A12 => XX,
        0x0A13..=0x0A28 => AL,
        0x0A29 => XX,
        0x0A2A..=0x0A30 => AL,
        0x0A31 => XX,
        0x0A32..=0x0A33 => AL,
        0x0A34 => XX,
        0x0A35..=0x0A36 => AL,
        0x0A37 => XX,
        0x0A38..=0x0A39 => AL,
        0x0A3A..=0x0A3B => XX,
        0x0A3C => CM,
        0x0A3D => XX,
        0x0A3E..=0x0A42 => CM,
        0x0A43..=0x0A46 => XX,
        0x0A47..=0x0A48 => CM,
        0x0A49..=0x0A4A => XX,
        0x0A4B..=0x0A4D => CM,
        0x0A4E..=0x0A50 => XX,
        0x0A51 => CM,
        0x0A52..=0x0A58 => XX,
        0x0A59..=0x0A5C => AL,
        0x0A5D => XX,
        0x0A5E => AL,
        0x0A5F..=0x0A65 => XX,
        0x0A66..=0x0A6F => NU,
        0x0A70..=0x0A71 => CM,
        0x0A72..=0x0A74 => AL,
        0x0A75 => CM,
        0x0A76 => AL,
        0x0A77..=0x0A80 => XX,
        0x0A81..=0x0A83 => CM,
        0x0A84 => XX,
        _ => AL,
    }
}

/// The classes from U+0A8E to U+0B44.
pub open spec fn class_06(code: u32) -> u8 {
    match code {
        _ if code <= 0x0A8E => XX,
        _ if code <= 0x0A91 => AL,
        _ if code <= 0x0A92 => XX,
        _ if code <= 0x0AA8 => AL,
        _ if code <= 0x0AA9 => XX,
        _ if code <= 0x0AB0 => AL,
        _ if code <= 0x0AB1 => XX,
        _ if code <= 0x0AB3 => AL,
        _ if code <= 0x0AB4 => XX,
        _ if code <= 0x0AB9 => AL,
        _ if code <= 0x0ABB => XX,
        _ if code <= 0x0ABC => CM,
        _ if code <= 0x0ABD => AL,
        _ if code <= 0x0AC5 => CM,
        _ if code <= 0x0AC6 => XX,
        _ if code <= 0x0AC9 => CM,
        _ if code <= 0x0ACA => XX,
        _ if code <= 0x0ACD => CM,
        _ if code <= 0x0ACF => XX,
        _ if code <= 0x0AD0 => AL,
        _ if code <= 0x0ADF => XX,
        _ if code <= 0x0AE1 => AL,
        _ if code <= 0x0AE3 => CM,
        _ if code <= 0x0AE5 => XX,
        _ if code <= 0x0AEF => NU,
        _ if code <= 0x0AF0 => AL,
        _ if code <= 0x0AF1 => PR,
        _ if code <= 0x0AF8 => XX,
        _ if code <= 0x0AF9 => AL,
        _ if code <= 0x0AFF => CM,
        _ if code <= 0x0B00 => XX,
        _ if code <= 0x0B03 => CM,
        _ if code <= 0x0B04 => XX,
        _ if code <= 0x0B0C => AL,
        _ if code <= 0x0B0E => XX,
        _ if code <= 0x0B10 => AL,
        _ if code <= 0x0B12 => XX,
        _ if code <= 0x0B28 => AL,
        _ if code <= 0x0B29 => XX,
        _ if code <= 0x0B30 => AL,
        _ if code <= 0x0B31 => XX,
        _ if code <= 0x0B33 => AL,
        _ if code <= 0x0B34 => XX,
        _ if code <= 0x0B39 => AL,
        _ if code <= 0x0B3B => XX,
        _ if code <= 0x0B3C => CM,
        _ if code <= 0x0B3D => AL,
        _ => CM,
    }
}

fn block_06(code: u32) -> (class: u8)
    requires
        0x0A8E <= code <= 0x0B44,
    ensures
        class == class_06(code),
        is_class(class),
{
    match code {
        0x0A8E => XX,
        0x0A8F..=0x0A91 => AL,
        0x0A92 => XX,
        0x0A93..=0x0AA8 => AL,
        0x0AA9 => XX,
        0x0AAA..=0x0AB0 => AL,
        0x0AB1 => XX,
        0x0AB2..=0x0AB3 => AL,
        0x0AB4 => XX,
        0x0AB5..=0x0AB9 => AL,
        0x0ABA..=0x0ABB => XX,
        0x0ABC => CM,
        0x0ABD => AL,
        0x0ABE..=0x0AC5 => CM,
        0x0AC6 => XX,
        0x0AC7..=0x0AC9 => CM,
        0x0ACA => XX,
        0x0ACB..=0x0ACD => CM,
        0x0ACE..=0x0ACF => XX,
        0x0AD0 => AL,
        0x0AD1..=0x0ADF => XX,
        0x0AE0..=0x0AE1 => AL,
        0x0AE2..=0x0AE3 => CM,
        0x0AE4..=0x0AE5 => XX,
        0x0AE6..=0x0AEF => NU,
        0x0AF0 => AL,
        0x0AF1 => PR,
        0x0AF2..=0x0AF8 => XX,
        0x0AF9 => AL,
        0x0AFA..=0x0AFF => CM,
        0x0B00 => XX,
        0x0B01..=0x0B03 => CM,
        0x0B04 => XX,
        0x0B05..=0x0B0C => AL,
        0x0B0D..=0x0B0E => XX,
        0x0B0F..=0x0B10 => AL,
        0x0B11..=0x0B12 => XX,
        0x0B13..=0x0B28 => AL,
        0x0B29 => XX,
        0x0B2A..=0x0B30 => AL,
        0x0B31 => XX,
        0x0B32..=0x0B33 => AL,
        0x0B34 => XX,
        0x0B35..=0x0B39 => AL,
        0x0B3A..=0x0B3B => XX,
        0x0B3C => CM,
        0x0B3D => AL,
        _ => CM,
    }
}

/// The classes from U+0B45 to U+0BF8.
pub open spec fn class_07(code: u32) -> u8 {
    match code {
        _ if code <= 0x0B46 => XX,
        _ if code <= 0x0B48 => CM,
        _ if code <= 0x0B4A => XX,
        _ if code <= 0x0B4D => CM,
        _ if code <= 0x0B54 => XX,
        _ if code <= 0x0B57 => CM,
        _ if code <= 0x0B5B => XX,
        _ if code <= 0x0B5D => AL,
        _ if code <= 0x0B5E => XX,
        _ if code <= 0x0B61 => AL,
        _ if code <= 0x0B63 => CM,
        _ if code <= 0x0B65 => XX,
        _ if code <= 0x0B6F => NU,
        _ if code <= 0x0B77 => AL,
        _ if code <= 0x0B81 => XX,
        _ if code <= 0x0B82 => CM,
        _ if code <= 0x0B83 => AL,
        _ if code <= 0x0B84 => XX,
        _ if code <= 0x0B8A => AL,
        _ if code <= 0x0B8D => XX,
        _ if code <= 0x0B90 => AL,
        _ if code <= 0x0B91 => XX,
        _ if code <= 0x0B95 => AL,
        _ if code <= 0x0B98 => XX,
        _ if code <= 0x0B9A => AL,
        _ if code <= 0x0B9B => XX,
        _ if code <= 0x0B9C => AL,
        _ if code <= 0x0B9D => XX,
        _ if code <= 0x0B9F => AL,
        _ if code <= 0x0BA2 => XX,
        _ if code <= 0x0BA4 => AL,
        _ if code <= 0x0BA7 => XX,
        _ if code <= 0x0BAA => AL,
        _ if code <= 0x0BAD => XX,
        _ if code <= 0x0BB9 => AL,
        _ if code <= 0x0BBD => XX,
        _ if code <= 0x0BC2 => CM,
        _ if code <= 0x0BC5 => XX,
        _ if code <= 0x0BC8 => CM,
        _ if code <= 0x0BC9 => XX,
        _ if code <= 0x0BCD => CM,
        _ if code <= 0x0BCF => XX,
        _ if code <= 0x0BD0 => AL,
        _ if code <= 0x0BD6 => XX,
        _ if code <= 0x0BD7 => CM,
        _ if code <= 0x0BE5 => XX,
        _ if code <= 0x0BEF => NU,
        _ => AL,
    }
}

fn block_07(code: u32) -> (class: u8)
    requires
        0x0B45 <= code <= 0x0BF8,
    ensures
        class == class_07(code),
        is_class(class),
{
    match code {
        0x0B45..=0x0B46 => XX,
        0x0B47..=0x0B48 => CM,
        0x0B49..=0x0B4A => XX,
        0x0B4B..=0x0B4D => CM,
        0x0B4E..=0x0B54 => XX,
        0x0B55..=0x0B57 => CM,
        0x0B58..=0x0B5B => XX,
        0x0B5C..=0x0B5D => AL,
        0x0B5E => XX,
        0x0B5F..=0x0B61 => AL,
        0x0B62..=0x0B63 => CM,
        0x0B64..=0x0B65 => XX,
        0x0B66..=0x0B6F => NU,
        0x0B70..=0x0B77 => AL,
        0x0B78..=0x0B81 => XX,
        0x0B82 => CM,
        0x0B83 => AL,
        0x0B84 => XX,
        0x0B85..=0x0B8A => AL,
        0x0B8B..=0x0B8D => XX,
        0x0B8E..=0x0B90 => AL,
        0x0B91 => XX,
        0x0B92..=0x0B95 => AL,
        0x0B96..=0x0B98 => XX,
        0x0B99..=0x0B9A => AL,
        0x0B9B => XX,
        0x0B9C => AL,
        0x0B9D => XX,
        0x0B9E..=0x0B9F => AL,
        0x0BA0..=0x0BA2 => XX,
        0x0BA3..=0x0BA4 => AL,
        0x0BA5..=0x0BA7 => XX,
        0x0BA8..=0x0BAA => AL,
        0x0BAB..=0x0BAD => XX,
        0x0BAE..=0x0BB9 => AL,
        0x0BBA..=0x0BBD => XX,
        0x0BBE..=0x0BC2 => CM,
        0x0BC3..=0x0BC5 => XX,
        0x0BC6..=0x0BC8 => CM,
        0x0BC9 => XX,
        0x0BCA..=0x0BCD => CM,
        0x0BCE..=0x0BCF => XX,
        0x0BD0 => AL,
        0x0BD1..=0x0BD6 => XX,
        0x0BD7 => CM,
        0x0BD8..=0x0BE5 => XX,
        0x0BE6..=0x0BEF => NU,
        _ => AL,
    }
}

/// The classes from U+0BF9 to U+0CC4.
pub open spec fn class_08(code: u32) -> u8 {
    match code {
        _ if code <= 0x0BF9 => PR,
        _ if code <= 0x0BFA => AL,
        _ if code <= 0x0BFF => XX,
        _ if code <= 0x0C04 => CM,
        _ if code <= 0x0C0C => AL,
        _ if code <= 0x0C0D => XX,
        _ if code <= 0x0C10 => AL,
        _ if code <= 0x0C11 => XX,
        _ if code <= 0x0C28 => AL,
        _ if code <= 0x0C29 => XX,
        _ if code <= 0x0C39 => AL,
        _ if code <= 0x0C3B => XX,
        _ if code <= 0x0C3C => CM,
        _ if code <= 0x0C3D => AL,
        _ if code <= 0x0C44 => CM,
        _ if code <= 0x0C45 => XX,
        _ if code <= 0x0C48 => CM,
        _ if code <= 0x0C49 => XX,
        _ if code <= 0x0C4D => CM,
        _ if code <= 0x0C54 => XX,
        _ if code <= 0x0C56 => CM,
        _ if code <= 0x0C57 => XX,
        _ if code <= 0x0C5A => AL,
        _ if code <= 0x0C5C => XX,
        _ if code <= 0x0C5D => AL,
        _ if code <= 0x0C5F => XX,
        _ if code <= 0x0C61 => AL,
        _ if code <= 0x0C63 => CM,
        _ if code <= 0x0C65 => XX,
        _ if code <= 0x0C6F => NU,
        _ if code <= 0x0C76 => XX,
        _ if code <= 0x0C77 => BB,
        _ if code <= 0x0C80 => AL,
        _ if code <= 0x0C83 => CM,
        _ if code <= 0x0C84 => BB,
        _ if code <= 0x0C8C => AL,
        _ if code <= 0x0C8D => XX,
        _ if code <= 0x0C90 => AL,
        _ if code <= 0x0C91 => XX,
        _ if code <= 0x0CA8 => AL,
        _ if code <= 0x0CA9 => XX,
        _ if code <= 0x0CB3 => AL,
        _ if code <= 0x0CB4 => XX,
        _ if code <= 0x0CB9 => AL,
        _ if code <= 0x0CBB => XX,
        _ if code <= 0x0CBC => CM,
        _ if code <= 0x0CBD => AL,
        _ => CM,
    }
}

fn block_08(code: u32) -> (class: u8)
    requires
        0x0BF9 <= code <= 0x0CC4,
    ensures
        class == class_08(code),
        is_class(class),
{
    match code {
        0x0BF9 => PR,
        0x0BFA => AL,
        0x0BFB..=0x0BFF => XX,
        0x0C00..=0x0C04 => CM,
        0x0C05..=0x0C0C => AL,
        0x0C0D => XX,
        0x0C0E..=0x0C10 => AL,
        0x0C11 => XX,
        0x0C12..=0x0C28 => AL,
        0x0C29 => XX,
        0x0C2A..=0x0C39 => AL,
        0x0C3A..=0x0C3B => XX,
        0x0C3C => CM,
        0x0C3D => AL,
        0x0C3E..=0x0C44 => CM,
        0x0C45 => XX,
        0x0C46..=0x0C48 => CM,
        0x0C49 => XX,
        0x0C4A..=0x0C4D => CM,
        0x0C4E..=0x0C54 => XX,
        0x0C55..=0x0C56 => CM,
        0x0C57 => XX,
        0x0C58..=0x0C5A => AL,
        0x0C5B..=0x0C5C => XX,
        0x0C5D => AL,
        0x0C5E..=0x0C5F => XX,
        0x0C60..=0x0C61 => AL,
        0x0C62..=0x0C63 => CM,
        0x0C64..=0x0C65 => XX,
        0x0C66..=0x0C6F => NU,
        0x0C70..=0x0C76 => XX,
        0x0C77 => BB,
        0x0C78..=0x0C80 => AL,
        0x0C81..=0x0C83 => CM,
        0x0C84 => BB,
        0x0C85..=0x0C8C => AL,
        0x0C8D => XX,
        0x0C8E..=0x0C90 => AL,
        0x0C91 => XX,
        0x0C92..=0x0CA8 => AL,
        0x0CA9 => XX,
        0x0CAA..=0x0CB3 => AL,
        0x0CB4 => XX,
        0x0CB5..=0x0CB9 => AL,
        0x0CBA..=0x0CBB => XX,
        0x0CBC => CM,
        0x0CBD => AL,
        _ => CM,
    }
}

/// The classes from U+0CC5 to U+0DBB.
pub open spec fn class_09(code: u32) -> u8 {
    match code {
        _ if code <= 0x0CC5 => XX,
        _ if code <= 0x0CC8 => CM,
        _ if code <= 0x0CC9 => XX,
        _ if code <= 0x0CCD => CM,
        _ if code <= 0x0CD4 => XX,
        _ if code <= 0x0CD6 => CM,
        _ if code <= 0x0CDC => XX,
        _ if code <= 0x0CDE => AL,
        _ if code <= 0x0CDF => XX,
        _ if code <= 0x0CE1 => AL,
        _ if code <= 0x0CE3 => CM,
        _ if code <= 0x0CE5 => XX,
        _ if code <= 0x0CEF => NU,
        _ if code <= 0x0CF0 => XX,
        _ if code <= 0x0CF2 => AL,
        _ if code <= 0x0CFF => XX,
        _ if code <= 0x0D03 => CM,
        _ if code <= 0x0D0C => AL,
        _ if code <= 0x0D0D => XX,
        _ if code <= 0x0D10 => AL,
        _ if code <= 0x0D11 => XX,
        _ if code <= 0x0D3A => AL,
        _ if code <= 0x0D3C => CM,
        _ if code <= 0x0D3D => AL,
        _ if code <= 0x0D44 => CM,
        _ if code <= 0x0D45 => XX,
        _ if code <= 0x0D48 => CM,
        _ if code <= 0x0D49 => XX,
        _ if code <= 0x0D4D => CM,
        _ if code <= 0x0D4F => AL,
        _ if code <= 0x0D53 => XX,
        _ if code <= 0x0D56 => AL,
        _ if code <= 0x0D57 => CM,
        _ if code <= 0x0D61 => AL,
        _ if code <= 0x0D63 => CM,
        _ if code <= 0x0D65 => XX,
        _ if code <= 0x0D6F => NU,
        _ if code <= 0x0D78 => AL,
        _ if code <= 0x0D79 => PO,
        _ if code <= 0x0D7F => AL,
        _ if code <= 0x0D80 => XX,
        _ if code <= 0x0D83 => CM,
        _ if code <= 0x0D84 => XX,
        _ if code <= 0x0D96 => AL,
        _ if code <= 0x0D99 => XX,
        _ if code <= 0x0DB1 => AL,
        _ if code <= 0x0DB2 => XX,
        _ => AL,
    }
}

fn block_09(code: u32) -> (class: u8)
    requires
        0x0CC5 <= code <= 0x0DBB,
    ensures
        class == class_09(code),
        is_class(class),
{
    match code {
        0x0CC5 => XX,
        0x0CC6..=0x0CC8 => CM,
        0x0CC9 => XX,
        0x0CCA..=0x0CCD => CM,
        0x0CCE..=0x0CD4 => XX,
        0x0CD5..=0x0CD6 => CM,
        0x0CD7..=0x0CDC => XX,
        0x0CDD..=0x0CDE => AL,
        0x0CDF => XX,
        0x0CE0..=0x0CE1 => AL,
        0x0CE2..=0x0CE3 => CM,
        0x0CE4..=0x0CE5 => XX,
        0x0CE6..=0x0CEF => NU,
        0x0CF0 => XX,
        0x0CF1..=0x0CF2 => AL,
        0x0CF3..=0x0CFF => XX,
        0x0D00..=0x0D03 => CM,
        0x0D04..=0x0D0C => AL,
        0x0D0D => XX,
        0x0D0E..=0x0D10 => AL,
        0x0D11 => XX,
        0x0D12..=0x0D3A => AL,
        0x0D3B..=0x0D3C => CM,
        0x0D3D => AL,
        0x0D3E..=0x0D44 => CM,
        0x0D45 => XX,
        0x0D46..=0x0D48 => CM,
        0x0D49 => XX,
        0x0D4A..=0x0D4D => CM,
        0x0D4E..=0x0D4F => AL,
        0x0D50..=0x0D53 => XX,
        0x0D54..=0x0D56 => AL,
        0x0D57 => CM,
        0x0D58..=0x0D61 => AL,
        0x0D62..=0x0D63 => CM,
        0x0D64..=0x0D65 => XX,
        0x0D66..=0x0D6F => NU,
        0x0D70..=0x0D78 => AL,
        0x0D79 => PO,
        0x0D7A..=0x0D7F => AL,
        0x0D80 => XX,
        0x0D81..=0x0D83 => CM,
        0x0D84 => XX,
        0x0D85..=0x0D96 => AL,
        0x0D97..=0x0D99 => XX,
        0x0D9A..=0x0DB1 => AL,
        0x0DB2 => XX,
        _ => AL,
    }
}

/// The classes from U+0DBC to U+0EFF.
pub open spec fn class_10(code: u32) -> u8 {
    match code {
        _ if code <= 0x0DBC => XX,
        _ if code <= 0x0DBD => AL,
        _ if code <= 0x0DBF => XX,
        _ if code <= 0x0DC6 => AL,
        _ if code <= 0x0DC9 => XX,
        _ if code <= 0x0DCA => CM,
        _ if code <= 0x0DCE => XX,
        _ if code <= 0x0DD4 => CM,
        _ if code <= 0x0DD5 => XX,
        _ if code <= 0x0DD6 => CM,
        _ if code <= 0x0DD7 => XX,
        _ if code <= 0x0DDF => CM,
        _ if code <= 0x0DE5 => XX,
        _ if code <= 0x0DEF => NU,
        _ if code <= 0x0DF1 => XX,
        _ if code <= 0x0DF3 => CM,
        _ if code <= 0x0DF4 => AL,
        _ if code <= 0x0E00 => XX,
        _ if code <= 0x0E3A => SA,
        _ if code <= 0x0E3E => XX,
        _ if code <= 0x0E3F => PR,
        _ if code <= 0x0E4E => SA,
        _ if code <= 0x0E4F => AL,
        _ if code <= 0x0E59 => NU,
        _ if code <= 0x0E5B => BA,
        _ if code <= 0x0E80 => XX,
        _ if code <= 0x0E82 => SA,
        _ if code <= 0x0E83 => XX,
        _ if code <= 0x0E84 => SA,
        _ if code <= 0x0E85 => XX,
        _ if code <= 0x0E8A => SA,
        _ if code <= 0x0E8B => XX,
        _ if code <= 0x0EA3 => SA,
        _ if code <= 0x0EA4 => XX,
        _ if code <= 0x0EA5 => SA,
        _ if code <= 0x0EA6 => XX,
        _ if code <= 0x0EBD => SA,
        _ if code <= 0x0EBF => XX,
        _ if code <= 0x0EC4 => SA,
        _ if code <= 0x0EC5 => XX,
        _ if code <= 0x0EC6 => SA,
        _ if code <= 0x0EC7 => XX,
        _ if code <= 0x0ECD => SA,
        _ if code <= 0x0ECF => XX,
        _ if code <= 0x0ED9 => NU,
        _ if code <= 0x0EDB => XX,
        _ if code <= 0x0EDF => SA,
        _ => XX,
    }
}

fn block_10(code: u32) -> (class: u8)
    requires
        0x0DBC <= code <= 0x0EFF,
    ensures
        class == class_10(code),
        is_class(class),
{
    match code {
        0x0DBC => XX,
        0x0DBD => AL,
        0x0DBE..=0x0DBF => XX,
        0x0DC0..=0x0DC6 => AL,
        0x0DC7..=0x0DC9 => XX,
        0x0DCA => CM,
        0x0DCB..=0x0DCE => XX,
        0x0DCF..=0x0DD4 => CM,
        0x0DD5 => XX,
        0x0DD6 => CM,
        0x0DD7 => XX,
        0x0DD8..=0x0DDF => CM,
        0x0DE0..=0x0DE5 => XX,
        0x0DE6..=0x0DEF => NU,
        0x0DF0..=0x0DF1 => XX,
        0x0DF2..=0x0DF3 => CM,
        0x0DF4 => AL,
        0x0DF5..=0x0E00 => XX,
        0x0E01..=0x0E3A => SA,
        0x0E3B..=0x0E3E => XX,
        0x0E3F => PR,
        0x0E40..=0x0E4E => SA,
        0x0E4F => AL,
        0x0E50..=0x0E59 => NU,
        0x0E5A..=0x0E5B => BA,
        0x0E5C..=0x0E80 => XX,
        0x0E81..=0x0E82 => SA,
        0x0E83 => XX,
        0x0E84 => SA,
        0x0E85 => XX,
        0x0E86..=0x0E8A => SA,
        0x0E8B => XX,
        0x0E8C..=0x0EA3 => SA,
        0x0EA4 => XX,
        0x0EA5 => SA,
        0x0EA6 => XX,
        0x0EA7..=0x0EBD => SA,
        0x0EBE..=0x0EBF => XX,
        0x0EC0..=0x0EC4 => SA,
        0x0EC5 => XX,
        0x0EC6 => SA,
        0x0EC7 => XX,
        0x0EC8..=0x0ECD => SA,
        0x0ECE..=0x0ECF => XX,
        0x0ED0..=0x0ED9 => NU,
        0x0EDA..=0x0EDB => XX,
        0x0EDC..=0x0EDF => SA,
        _ => XX,
    }
}

/// The classes from U+0F00 to U+0FCF.
pub open spec fn class_11(code: u32) -> u8 {
    match code {
        _ if code <= 0x0F00 => AL,
        _ if code <= 0x0F04 => BB,
        _ if code <= 0x0F05 => AL,
        _ if code <= 0x0F07 => BB,
        _ if code <= 0x0F08 => GL,
        _ if code <= 0x0F0A => BB,
        _ if code <= 0x0F0B => BA,
        _ if code <= 0x0F0C => GL,
        _ if code <= 0x0F11 => EX,
        _ if code <= 0x0F12 => GL,
        _ if code <= 0x0F13 => AL,
        _ if code <= 0x0F14 => EX,
        _ if code <= 0x0F17 => AL,
        _ if code <= 0x0F19 => CM,
        _ if code <= 0x0F1F => AL,
        _ if code <= 0x0F29 => NU,
        _ if code <= 0x0F33 => AL,
        _ if code <= 0x0F34 => BA,
        _ if code <= 0x0F35 => CM,
        _ if code <= 0x0F36 => AL,
        _ if code <= 0x0F37 => CM,
        _ if code <= 0x0F38 => AL,
        _ if code <= 0x0F39 => CM,
        _ if code <= 0x0F3A => OP,
        _ if code <= 0x0F3B => CL,
        _ if code <= 0x0F3C => OP,
        _ if code <= 0x0F3D => CL,
        _ if code <= 0x0F3F => CM,
        _ if code <= 0x0F47 => AL,
        _ if code <= 0x0F48 => XX,
        _ if code <= 0x0F6C => AL,
        _ if code <= 0x0F70 => XX,
        _ if code <= 0x0F7E => CM,
        _ if code <= 0x0F7F => BA,
        _ if code <= 0x0F84 => CM,
        _ if code <= 0x0F85 => BA,
        _ if code <= 0x0F87 => CM,
        _ if code <= 0x0F8C => AL,
        _ if code <= 0x0F97 => CM,
        _ if code <= 0x0F98 => XX,
        _ if code <= 0x0FBC => CM,
        _ if code <= 0x0FBD => XX,
        _ if code <= 0x0FBF => BA,
        _ if code <= 0x0FC5 => AL,
        _ if code <= 0x0FC6 => CM,
        _ if code <= 0x0FCC => AL,
        _ if code <= 0x0FCD => XX,
        _ => AL,
    }
}

fn block_11(code: u32) -> (class: u8)
    requires
        0x0F00 <= code <= 0x0FCF,
    ensures
        class == class_11(code),
        is_class(class),
{
    match code {
        0x0F00 => AL,
        0x0F01..=0x0F04 => BB,
        0x0F05 => AL,
        0x0F06..=0x0F07 => BB,
        0x0F08 => GL,
        0x0F09..=0x0F0A => BB,
        0x0F0B => BA,
        0x0F0C => GL,
        0x0F0D..=0x0F11 => EX,
        0x0F12 => GL,
        0x0F13 => AL,
        0x0F14 => EX,
        0x0F15..=0x0F17 => AL,
        0x0F18..=0x0F19 => CM,
        0x0F1A..=0x0F1F => AL,
        0x0F20..=0x0F29 => NU,
        0x0F2A..=0x0F33 => AL,
        0x0F34 => BA,
        0x0F35 => CM,
        0x0F36 => AL,
        0x0F37 => CM,
        0x0F38 => AL,
        0x0F39 => CM,
        0x0F3A => OP,
        0x0F3B => CL,
        0x0F3C => OP,
        0x0F3D => CL,
        0x0F3E..=0x0F3F => CM,
        0x0F40..=0x0F47 => AL,
        0x0F48 => XX,
        0x0F49..=0x0F6C => AL,
        0x0F6D..=0x0F70 => XX,
        0x0F71..=0x0F7E => CM,
        0x0F7F => BA,
        0x0F80..=0x0F84 => CM,
        0x0F85 => BA,
        0x0F86..=0x0F87 => CM,
        0x0F88..=0x0F8C => AL,
        0x0F8D..=0x0F97 => CM,
        0x0F98 => XX,
        0x0F99..=0x0FBC => CM,
        0x0FBD => XX,
        0x0FBE..=0x0FBF => BA,
        0x0FC0..=0x0FC5 => AL,
        0x0FC6 => CM,
        0x0FC7..=0x0FCC => AL,
        0x0FCD => XX,
        _ => AL,
    }
}

/// The classes from U+0FD0 to U+12D6.
pub open spec fn class_12(code: u32) -> u8 {
    match code {
        _ if code <= 0x0FD1 => BB,
        _ if code <= 0x0FD2 => BA,
        _ if code <= 0x0FD3 => BB,
        _ if code <= 0x0FD8 => AL,
        _ if code <= 0x0FDA => GL,
        _ if code <= 0x0FFF => XX,
        _ if code <= 0x103F => SA,
        _ if code <= 0x1049 => NU,
        _ if code <= 0x104B => BA,
        _ if code <= 0x104F => AL,
        _ if code <= 0x108F => SA,
        _ if code <= 0x1099 => NU,
        _ if code <= 0x109D => SA,
        _ if code <= 0x10C5 => AL,
        _ if code <= 0x10C6 => XX,
        _ if code <= 0x10C7 => AL,
        _ if code <= 0x10CC => XX,
        _ if code <= 0x10CD => AL,
        _ if code <= 0x10CF => XX,
        _ if code <= 0x10FF => AL,
        _ if code <= 0x115F => JL,
        _ if code <= 0x11A7 => JV,
        _ if code <= 0x11FF => JT,
        _ if code <= 0x1248 => AL,
        _ if code <= 0x1249 => XX,
        _ if code <= 0x124D => AL,
        _ if code <= 0x124F => XX,
        _ if code <= 0x1256 => AL,
        _ if code <= 0x1257 => XX,
        _ if code <= 0x1258 => AL,
        _ if code <= 0x1259 => XX,
        _ if code <= 0x125D => AL,
        _ if code <= 0x125F => XX,
        _ if code <= 0x1288 => AL,
        _ if code <= 0x1289 => XX,
        _ if code <= 0x128D => AL,
        _ if code <= 0x128F => XX,
        _ if code <= 0x12B0 => AL,
        _ if code <= 0x12B1 => XX,
        _ if code <= 0x12B5 => AL,
        _ if code <= 0x12B7 => XX,
        _ if code <= 0x12BE => AL,
        _ if code <= 0x12BF => XX,
        _ if code <= 0x12C0 => AL,
        _ if code <= 0x12C1 => XX,
        _ if code <= 0x12C5 => AL,
        _ if code <= 0x12C7 => XX,
        _ => AL,
    }
}

fn block_12(code: u32) -> (class: u8)
    requires
        0x0FD0 <= code <= 0x12D6,
    ensures
        class == class_12(code),
        is_class(class),
{
    match code {
        0x0FD0..=0x0FD1 => BB,
        0x0FD2 => BA,
        0x0FD3 => BB,
        0x0FD4..=0x0FD8 => AL,
        0x0FD9..=0x0FDA => GL,
        0x0FDB..=0x0FFF => XX,
        0x1000..=0x103F => SA,
        0x1040..=0x1049 => NU,
        0x104A..=0x104B => BA,
        0x104C..=0x104F => AL,
        0x1050..=0x108F => SA,
        0x1090..=0x1099 => NU,
        0x109A..=0x109D => SA,
        0x109E..=0x10C5 => AL,
        0x10C6 => XX,
        0x10C7 => AL,
        0x10C8..=0x10CC => XX,
        0x10CD => AL,
        0x10CE..=0x10CF => XX,
        0x10D0..=0x10FF => AL,
        0x1100..=0x115F => JL,
        0x1160..=0x11A7 => JV,
        0x11A8..=0x11FF => JT,
        0x1200..=0x1248 => AL,
        0x1249 => XX,
        0x124A..=0x124D => AL,
        0x124E..=0x124F => XX,
        0x1250..=0x1256 => AL,
        0x1257 => XX,
        0x1258 => AL,
        0x1259 => XX,
        0x125A..=0x125D => AL,
        0x125E..=0x125F => XX,
        0x1260..=0x1288 => AL,
        0x1289 => XX,
        0x128A..=0x128D => AL,
        0x128E..=0x128F => XX,
        0x1290..=0x12B0 => AL,
        0x12B1 => XX,
        0x12B2..=0x12B5 => AL,
        0x12B6..=0x12B7 => XX,
        0x12B8..=0x12BE => AL,
        0x12BF => XX,
        0x12C0 => AL,
        0x12C1 => XX,
        0x12C2..=0x12C5 => AL,
        0x12C6..=0x12C7 => XX,
        _ => AL,
    }
}

/// The classes from U+12D7 to U+17D6.
pub open spec fn class_13(code: u32) -> u8 {
    match code {
        _ if code <= 0x12D7 => XX,
        _ if code <= 0x1310 => AL,
        _ if code <= 0x1311 => XX,
        _ if code <= 0x1315 => AL,
        _ if code <= 0x1317 => XX,
        _ if code <= 0x135A => AL,
        _ if code <= 0x135C => XX,
        _ if code <= 0x135F => CM,
        _ if code <= 0x1360 => AL,
        _ if code <= 0x1361 => BA,
        _ if code <= 0x137C => AL,
        _ if code <= 0x137F => XX,
        _ if code <= 0x1399 => AL,
        _ if code <= 0x139F => XX,
        _ if code <= 0x13F5 => AL,
        _ if code <= 0x13F7 => XX,
        _ if code <= 0x13FD => AL,
        _ if code <= 0x13FF => XX,
        _ if code <= 0x1400 => BA,
        _ if code <= 0x167F => AL,
        _ if code <= 0x1680 => BA,
        _ if code <= 0x169A => AL,
        _ if code <= 0x169B => OP,
        _ if code <= 0x169C => CL,
        _ if code <= 0x169F => XX,
        _ if code <= 0x16EA => AL,
        _ if code <= 0x16ED => BA,
        _ if code <= 0x16F8 => AL,
        _ if code <= 0x16FF => XX,
        _ if code <= 0x1711 => AL,
        _ if code <= 0x1715 => CM,
        _ if code <= 0x171E => XX,
        _ if code <= 0x1731 => AL,
        _ if code <= 0x1734 => CM,
        _ if code <= 0x1736 => BA,
        _ if code <= 0x173F => XX,
        _ if code <= 0x1751 => AL,
        _ if code <= 0x1753 => CM,
        _ if code <= 0x175F => XX,
        _ if code <= 0x176C => AL,
        _ if code <= 0x176D => XX,
        _ if code <= 0x1770 => AL,
        _ if code <= 0x1771 => XX,
        _ if code <= 0x1773 => CM,
        _ if code <= 0x177F => XX,
        _ if code <= 0x17D3 => SA,
        _ if code <= 0x17D5 => BA,
        _ => NS,
    }
}

fn block_13(code: u32) -> (class: u8)
    requires
        0x12D7 <= code <= 0x17D6,
    ensures
        class == class_13(code),
        is_class(class),
{
    match code {
        0x12D7 => XX,
        0x12D8..=0x1310 => AL,
        0x1311 => XX,
        0x1312..=0x1315 => AL,
        0x1316..=0x1317 => XX,
        0x1318..=0x135A => AL,
        0x135B..=0x135C => XX,
        0x135D..=0x135F => CM,
        0x1360 => AL,
        0x1361 => BA,
        0x1362..=0x137C => AL,
        0x137D..=0x137F => XX,
        0x1380..=0x1399 => AL,
        0x139A..=0x139F => XX,
        0x13A0..=0x13F5 => AL,
        0x13F6..=0x13F7 => XX,
        0x13F8..=0x13FD => AL,
        0x13FE..=0x13FF => XX,
        0x1400 => BA,
        0x1401..=0x167F => AL,
        0x1680 => BA,
        0x1681..=0x169A => AL,
        0x169B => OP,
        0x169C => CL,
        0x169D..=0x169F => XX,
        0x16A0..=0x16EA => AL,
        0x16EB..=0x16ED => BA,
        0x16EE..=0x16F8 => AL,
        0x16F9..=0x16FF => XX,
        0x1700..=0x1711 => AL,
        0x1712..=0x1715 => CM,
        0x1716..=0x171E => XX,
        0x171F..=0x1731 => AL,
        0x1732..=0x1734 => CM,
        0x1735..=0x1736 => BA,
        0x1737..=0x173F => XX,
        0x1740..=0x1751 => AL,
        0x1752..=0x1753 => CM,
        0x1754..=0x175F => XX,
        0x1760..=0x176C => AL,
        0x176D => XX,
        0x176E..=0x1770 => AL,
        0x1771 => XX,
        0x1772..=0x1773 => CM,
        0x1774..=0x177F => XX,
        0x1780..=0x17D3 => SA,
        0x17D4..=0x17D5 => BA,
        _ => NS,
    }
}

/// The classes from U+17D7 to U+19AB.
pub open spec fn class_14(code: u32) -> u8 {
    match code {
        _ if code <= 0x17D7 => SA,
        _ if code <= 0x17D8 => BA,
        _ if code <= 0x17D9 => AL,
        _ if code <= 0x17DA => BA,
        _ if code <= 0x17DB => PR,
        _ if code <= 0x17DD => SA,
        _ if code <= 0x17DF => XX,
        _ if code <= 0x17E9 => NU,
        _ if code <= 0x17EF => XX,
        _ if code <= 0x17F9 => AL,
        _ if code <= 0x17FF => XX,
        _ if code <= 0x1801 => AL,
        _ if code <= 0x1803 => EX,
        _ if code <= 0x1805 => BA,
        _ if code <= 0x1806 => BB,
        _ if code <= 0x1807 => AL,
        _ if code <= 0x1809 => EX,
        _ if code <= 0x180A => AL,
        _ if code <= 0x180D => CM,
        _ if code <= 0x180E => GL,
        _ if code <= 0x180F => CM,
        _ if code <= 0x1819 => NU,
        _ if code <= 0x181F => XX,
        _ if code <= 0x1878 => AL,
        _ if code <= 0x187F => XX,
        _ if code <= 0x1884 => AL,
        _ if code <= 0x1886 => CM,
        _ if code <= 0x18A8 => AL,
        _ if code <= 0x18A9 => CM,
        _ if code <= 0x18AA => AL,
        _ if code <= 0x18AF => XX,
        _ if code <= 0x18F5 => AL,
        _ if code <= 0x18FF => XX,
        _ if code <= 0x191E => AL,
        _ if code <= 0x191F => XX,
        _ if code <= 0x192B => CM,
        _ if code <= 0x192F => XX,
        _ if code <= 0x193B => CM,
        _ if code <= 0x193F => XX,
        _ if code <= 0x1940 => AL,
        _ if code <= 0x1943 => XX,
        _ if code <= 0x1945 => EX,
        _ if code <= 0x194F => NU,
        _ if code <= 0x196D => SA,
        _ if code <= 0x196F => XX,
        _ if code <= 0x1974 => SA,
        _ if code <= 0x197F => XX,
        _ => SA,
    }
}

fn block_14(code: u32) -> (class: u8)
    requires
        0x17D7 <= code <= 0x19AB,
    ensures
        class == class_14(code),
        is_class(class),
{
    match code {
        0x17D7 => SA,
        0x17D8 => BA,
        0x17D9 => AL,
        0x17DA => BA,
        0x17DB => PR,
        0x17DC..=0x17DD => SA,
        0x17DE..=0x17DF => XX,
        0x17E0..=0x17E9 => NU,
        0x17EA..=0x17EF => XX,
        0x17F0..=0x17F9 => AL,
        0x17FA..=0x17FF => XX,
        0x1800..=0x1801 => AL,
        0x1802..=0x1803 => EX,
        0x1804..=0x1805 => BA,
        0x1806 => BB,
        0x1807 => AL,
        0x1808..=0x1809 => EX,
        0x180A => AL,
        0x180B..=0x180D => CM,
        0x180E => GL,
        0x180F => CM,
        0x1810..=0x1819 => NU,
        0x181A..=0x181F => XX,
        0x1820..=0x1878 => AL,
        0x1879..=0x187F => XX,
        0x1880..=0x1884 => AL,
        0x1885..=0x1886 => CM,
        0x1887..=0x18A8 => AL,
        0x18A9 => CM,
        0x18AA => AL,
        0x18AB..=0x18AF => XX,
        0x18B0..=0x18F5 => AL,
        0x18F6..=0x18FF => XX,
        0x1900..=0x191E => AL,
        0x191F => XX,
        0x1920..=0x192B => CM,
        0x192C..=0x192F => XX,
        0x1930..=0x193B => CM,
        0x193C..=0x193F => XX,
        0x1940 => AL,
        0x1941..=0x1943 => XX,
        0x1944..=0x1945 => EX,
        0x1946..=0x194F => NU,
        0x1950..=0x196D => SA,
        0x196E..=0x196F => XX,
        0x1970..=0x1974 => SA,
        0x1975..=0x197F => XX,
        _ => SA,
    }
}

/// The classes from U+19AC to U+1C23.
pub open spec fn class_15(code: u32) -> u8 {
    match code {
        _ if code <= 0x19AF => XX,
        _ if code <= 0x19C9 => SA,
        _ if code <= 0x19CF => XX,
        _ if code <= 0x19D9 => NU,
        _ if code <= 0x19DA => AL,
        _ if code <= 0x19DD => XX,
        _ if code <= 0x1A16 => AL,
        _ if code <= 0x1A1B => CM,
        _ if code <= 0x1A1D => XX,
        _ if code <= 0x1A1F => AL,
        _ if code <= 0x1A5E => SA,
        _ if code <= 0x1A5F => XX,
        _ if code <= 0x1A7C => SA,
        _ if code <= 0x1A7E => XX,
        _ if code <= 0x1A7F => SA,
        _ if code <= 0x1A89 => NU,
        _ if code <= 0x1A8F => XX,
        _ if code <= 0x1A99 => NU,
        _ if code <= 0x1A9F => XX,
        _ if code <= 0x1AA6 => AL,
        _ if code <= 0x1AA7 => SA,
        _ if code <= 0x1AAD => AL,
        _ if code <= 0x1AAF => XX,
        _ if code <= 0x1ACE => CM,
        _ if code <= 0x1AFF => XX,
        _ if code <= 0x1B04 => CM,
        _ if code <= 0x1B33 => AL,
        _ if code <= 0x1B44 => CM,
        _ if code <= 0x1B4C => AL,
        _ if code <= 0x1B4F => XX,
        _ if code <= 0x1B59 => NU,
        _ if code <= 0x1B5B => BA,
        _ if code <= 0x1B5C => AL,
        _ if code <= 0x1B60 => BA,
        _ if code <= 0x1B6A => AL,
        _ if code <= 0x1B73 => CM,
        _ if code <= 0x1B7C => AL,
        _ if code <= 0x1B7E => BA,
        _ if code <= 0x1B7F => XX,
        _ if code <= 0x1B82 => CM,
        _ if code <= 0x1BA0 => AL,
        _ if code <= 0x1BAD => CM,
        _ if code <= 0x1BAF => AL,
        _ if code <= 0x1BB9 => NU,
        _ if code <= 0x1BE5 => AL,
        _ if code <= 0x1BF3 => CM,
        _ if code <= 0x1BFB => XX,
        _ => AL,
    }
}

fn block_15(code: u32) -> (class: u8)
    requires
        0x19AC <= code <= 0x1C23,
    ensures
        class == class_15(code),
        is_class(class),
{
    match code {
        0x19AC..=0x19AF => XX,
        0x19B0..=0x19C9 => SA,
        0x19CA..=0x19CF => XX,
        0x19D0..=0x19D9 => NU,
        0x19DA => AL,
        0x19DB..=0x19DD => XX,
        0x19DE..=0x1A16 => AL,
        0x1A17..=0x1A1B => CM,
        0x1A1C..=0x1A1D => XX,
        0x1A1E..=0x1A1F => AL,
        0x1A20..=0x1A5E => SA,
        0x1A5F => XX,
        0x1A60..=0x1A7C => SA,
        0x1A7D..=0x1A7E => XX,
        0x1A7F => SA,
        0x1A80..=0x1A89 => NU,
        0x1A8A..=0x1A8F => XX,
        0x1A90..=0x1A99 => NU,
        0x1A9A..=0x1A9F => XX,
        0x1AA0..=0x1AA6 => AL,
        0x1AA7 => SA,
        0x1AA8..=0x1AAD => AL,
        0x1AAE..=0x1AAF => XX,
        0x1AB0..=0x1ACE => CM,
        0x1ACF..=0x1AFF => XX,
        0x1B00..=0x1B04 => CM,
        0x1B05..=0x1B33 => AL,
        0x1B34..=0x1B44 => CM,
        0x1B45..=0x1B4C => AL,
        0x1B4D..=0x1B4F => XX,
        0x1B50..=0x1B59 => NU,
        0x1B5A..=0x1B5B => BA,
        0x1B5C => AL,
        0x1B5D..=0x1B60 => BA,
        0x1B61..=0x1B6A => AL,
        0x1B6B..=0x1B73 => CM,
        0x1B74..=0x1B7C => AL,
        0x1B7D..=0x1B7E => BA,
        0x1B7F => XX,
        0x1B80..=0x1B82 => CM,
        0x1B83..=0x1BA0 => AL,
        0x1BA1..=0x1BAD => CM,
        0x1BAE..=0x1BAF => AL,
        0x1BB0..=0x1BB9 => NU,
        0x1BBA..=0x1BE5 => AL,
        0x1BE6..=0x1BF3 => CM,
        0x1BF4..=0x1BFB => XX,
        _ => AL,
    }
}

/// The classes from U+1C24 to U+1FB5.
pub open spec fn class_16(code: u32) -> u8 {
    match code {
        _ if code <= 0x1C37 => CM,
        _ if code <= 0x1C3A => XX,
        _ if code <= 0x1C3F => BA,
        _ if code <= 0x1C49 => NU,
        _ if code <= 0x1C4C => XX,
        _ if code <= 0x1C4F => AL,
        _ if code <= 0x1C59 => NU,
        _ if code <= 0x1C7D => AL,
        _ if code <= 0x1C7F => BA,
        _ if code <= 0x1C88 => AL,
        _ if code <= 0x1C8F => XX,
        _ if code <= 0x1CBA => AL,
        _ if code <= 0x1CBC => XX,
        _ if code <= 0x1CC7 => AL,
        _ if code <= 0x1CCF => XX,
        _ if code <= 0x1CD2 => CM,
        _ if code <= 0x1CD3 => AL,
        _ if code <= 0x1CE8 => CM,
        _ if code <= 0x1CEC => AL,
        _ if code <= 0x1CED => CM,
        _ if code <= 0x1CF3 => AL,
        _ if code <= 0x1CF4 => CM,
        _ if code <= 0x1CF6 => AL,
        _ if code <= 0x1CF9 => CM,
        _ if code <= 0x1CFA => AL,
        _ if code <= 0x1CFF => XX,
        _ if code <= 0x1DBF => AL,
        _ if code <= 0x1DFF => CM,
        _ if code <= 0x1F15 => AL,
        _ if code <= 0x1F17 => XX,
        _ if code <= 0x1F1D => AL,
        _ if code <= 0x1F1F => XX,
        _ if code <= 0x1F45 => AL,
        _ if code <= 0x1F47 => XX,
        _ if code <= 0x1F4D => AL,
        _ if code <= 0x1F4F => XX,
        _ if code <= 0x1F57 => AL,
        _ if code <= 0x1F58 => XX,
        _ if code <= 0x1F59 => AL,
        _ if code <= 0x1F5A => XX,
        _ if code <= 0x1F5B => AL,
        _ if code <= 0x1F5C => XX,
        _ if code <= 0x1F5D => AL,
        _ if code <= 0x1F5E => XX,
        _ if code <= 0x1F7D => AL,
        _ if code <= 0x1F7F => XX,
        _ if code <= 0x1FB4 => AL,
        _ => XX,
    }
}

fn block_16(code: u32) -> (class: u8)
    requires
        0x1C24 <= code <= 0x1FB5,
    ensures
        class == class_16(code),
        is_class(class),
{
    match code {
        0x1C24..=0x1C37 => CM,
        0x1C38..=0x1C3A => XX,
        0x1C3B..=0x1C3F => BA,
        0x1C40..=0x1C49 => NU,
        0x1C4A..=0x1C4C => XX,
        0x1C4D..=0x1C4F => AL,
        0x1C50..=0x1C59 => NU,
        0x1C5A..=0x1C7D => AL,
        0x1C7E..=0x1C7F => BA,
        0x1C80..=0x1C88 => AL,
        0x1C89..=0x1C8F => XX,
        0x1C90..=0x1CBA => AL,
        0x1CBB..=0x1CBC => XX,
        0x1CBD..=0x1CC7 => AL,
        0x1CC8..=0x1CCF => XX,
        0x1CD0..=0x1CD2 => CM,
        0x1CD3 => AL,
        0x1CD4..=0x1CE8 => CM,
        0x1CE9..=0x1CEC => AL,
        0x1CED => CM,
        0x1CEE..=0x1CF3 => AL,
        0x1CF4 => CM,
        0x1CF5..=0x1CF6 => AL,
        0x1CF7..=0x1CF9 => CM,
        0x1CFA => AL,
        0x1CFB..=0x1CFF => XX,
        0x1D00..=0x1DBF => AL,
        0x1DC0..=0x1DFF => CM,
        0x1E00..=0x1F15 => AL,
        0x1F16..=0x1F17 => XX,
        0x1F18..=0x1F1D => AL,
        0x1F1E..=0x1F1F => XX,
        0x1F20..=0x1F45 => AL,
        0x1F46..=0x1F47 => XX,
        0x1F48..=0x1F4D => AL,
        0x1F4E..=0x1F4F => XX,
        0x1F50..=0x1F57 => AL,
        0x1F58 => XX,
        0x1F59 => AL,
        0x1F5A => XX,
        0x1F5B => AL,
        0x1F5C => XX,
        0x1F5D => AL,
        0x1F5E => XX,
        0x1F5F..=0x1F7D => AL,
        0x1F7E..=0x1F7F => XX,
        0x1F80..=0x1FB4 => AL,
        _ => XX,
    }
}

/// The classes from U+1FB6 to U+2046.
pub open spec fn class_17(code: u32) -> u8 {
    match code {
        _ if code <= 0x1FC4 => AL,
        _ if code <= 0x1FC5 => XX,
        _ if code <= 0x1FD3 => AL,
        _ if code <= 0x1FD5 => XX,
        _ if code <= 0x1FDB => AL,
        _ if code <= 0x1FDC => XX,
        _ if code <= 0x1FEF => AL,
        _ if code <= 0x1FF1 => XX,
        _ if code <= 0x1FF4 => AL,
        _ if code <= 0x1FF5 => XX,
        _ if code <= 0x1FFC => AL,
        _ if code <= 0x1FFD => BB,
        _ if code <= 0x1FFE => AL,
        _ if code <= 0x1FFF => XX,
        _ if code <= 0x2006 => BA,
        _ if code <= 0x2007 => GL,
        _ if code <= 0x200A => BA,
        _ if code <= 0x200B => ZW,
        _ if code <= 0x200C => CM,
        _ if code <= 0x200D => ZWJ,
        _ if code <= 0x200F => CM,
        _ if code <= 0x2010 => BA,
        _ if code <= 0x2011 => GL,
        _ if code <= 0x2013 => BA,
        _ if code <= 0x2014 => B2,
        _ if code <= 0x2016 => AI,
        _ if code <= 0x2017 => AL,
        _ if code <= 0x2019 => QU,
        _ if code <= 0x201A => OP,
        _ if code <= 0x201D => QU,
        _ if code <= 0x201E => OP,
        _ if code <= 0x201F => QU,
        _ if code <= 0x2021 => AI,
        _ if code <= 0x2023 => AL,
        _ if code <= 0x2026 => IN,
        _ if code <= 0x2027 => BA,
        _ if code <= 0x2029 => BK,
        _ if code <= 0x202E => CM,
        _ if code <= 0x202F => GL,
        _ if code <= 0x2037 => PO,
        _ if code <= 0x2038 => AL,
        _ if code <= 0x203A => QU,
        _ if code <= 0x203B => AI,
        _ if code <= 0x203D => NS,
        _ if code <= 0x2043 => AL,
        _ if code <= 0x2044 => IS,
        _ if code <= 0x2045 => OP,
        _ => CL,
    }
}

fn block_17(code: u32) -> (class: u8)
    requires
        0x1FB6 <= code <= 0x2046,
    ensures
        class == class_17(code),
        is_class(class),
{
    match code {
        0x1FB6..=0x1FC4 => AL,
        0x1FC5 => XX,
        0x1FC6..=0x1FD3 => AL,
        0x1FD4..=0x1FD5 => XX,
        0x1FD6..=0x1FDB => AL,
        0x1FDC => XX,
        0x1FDD..=0x1FEF => AL,
        0x1FF0..=0x1FF1 => XX,
        0x1FF2..=0x1FF4 => AL,
        0x1FF5 => XX,
        0x1FF6..=0x1FFC => AL,
        0x1FFD => BB,
        0x1FFE => AL,
        0x1FFF => XX,
        0x2000..=0x2006 => BA,
        0x2007 => GL,
        0x2008..=0x200A => BA,
        0x200B => ZW,
        0x200C => CM,
        0x200D => ZWJ,
        0x200E..=0x200F => CM,
        0x2010 => BA,
        0x2011 => GL,
        0x2012..=0x2013 => BA,
        0x2014 => B2,
        0x2015..=0x2016 => AI,
        0x2017 => AL,
        0x2018..=0x2019 => QU,
        0x201A => OP,
        0x201B..=0x201D => QU,
        0x201E => OP,
        0x201F => QU,
        0x2020..=0x2021 => AI,
        0x2022..=0x2023 => AL,
        0x2024..=0x2026 => IN,
        0x2027 => BA,
        0x2028..=0x2029 => BK,
        0x202A..=0x202E => CM,
        0x202F => GL,
        0x2030..=0x2037 => PO,
        0x2038 => AL,
        0x2039..=0x203A => QU,
        0x203B => AI,
        0x203C..=0x203D => NS,
        0x203E..=0x2043 => AL,
        0x2044 => IS,
        0x2045 => OP,
        _ => CL,
    }
}

/// The classes from U+2047 to U+2120.
pub open spec fn class_18(code: u32) -> u8 {
    match code {
        _ if code <= 0x2049 => NS,
        _ if code <= 0x2055 => AL,
        _ if code <= 0x2056 => BA,
        _ if code <= 0x2057 => AL,
        _ if code <= 0x205B => BA,
        _ if code <= 0x205C => AL,
        _ if code <= 0x205F => BA,
        _ if code <= 0x2060 => WJ,
        _ if code <= 0x2064 => AL,
        _ if code <= 0x2065 => XX,
        _ if code <= 0x206F => CM,
        _ if code <= 0x2071 => AL,
        _ if code <= 0x2073 => XX,
        _ if code <= 0x2074 => AI,
        _ if code <= 0x207C => AL,
        _ if code <= 0x207D => OP,
        _ if code <= 0x207E => CL,
        _ if code <= 0x207F => AI,
        _ if code <= 0x2080 => AL,
        _ if code <= 0x2084 => AI,
        _ if code <= 0x208C => AL,
        _ if code <= 0x208D => OP,
        _ if code <= 0x208E => CL,
        _ if code <= 0x208F => XX,
        _ if code <= 0x209C => AL,
        _ if code <= 0x209F => XX,
        _ if code <= 0x20A6 => PR,
        _ if code <= 0x20A7 => PO,
        _ if code <= 0x20B5 => PR,
        _ if code <= 0x20B6 => PO,
        _ if code <= 0x20BA => PR,
        _ if code <= 0x20BB => PO,
        _ if code <= 0x20BD => PR,
        _ if code <= 0x20BE => PO,
        _ if code <= 0x20CF => PR,
        _ if code <= 0x20F0 => CM,
        _ if code <= 0x20FF => XX,
        _ if code <= 0x2102 => AL,
        _ if code <= 0x2103 => PO,
        _ if code <= 0x2104 => AL,
        _ if code <= 0x2105 => AI,
        _ if code <= 0x2108 => AL,
        _ if code <= 0x2109 => PO,
        _ if code <= 0x2112 => AL,
        _ if code <= 0x2113 => AI,
        _ if code <= 0x2115 => AL,
        _ if code <= 0x2116 => PR,
        _ => AL,
    }
}

fn block_18(code: u32) -> (class: u8)
    requires
        0x2047 <= code <= 0x2120,
    ensures
        class == class_18(code),
        is_class(class),
{
    match code {
        0x2047..=0x2049 => NS,
        0x204A..=0x2055 => AL,
        0x2056 => BA,
        0x2057 => AL,
        0x2058..=0x205B => BA,
        0x205C => AL,
        0x205D..=0x205F => BA,
        0x2060 => WJ,
        0x2061..=0x2064 => AL,
        0x2065 => XX,
        0x2066..=0x206F => CM,
        0x2070..=0x2071 => AL,
        0x2072..=0x2073 => XX,
        0x2074 => AI,
        0x2075..=0x207C => AL,
        0x207D => OP,
        0x207E => CL,
        0x207F => AI,
        0x2080 => AL,
        0x2081..=0x2084 => AI,
        0x2085..=0x208C => AL,
        0x208D => OP,
        0x208E => CL,
        0x208F => XX,
        0x2090..=0x209C => AL,
        0x209D..=0x209F => XX,
        0x20A0..=0x20A6 => PR,
        0x20A7 => PO,
        0x20A8..=0x20B5 => PR,
        0x20B6 => PO,
        0x20B7..=0x20BA => PR,
        0x20BB => PO,
        0x20BC..=0x20BD => PR,
        0x20BE => PO,
        0x20BF..=0x20CF => PR,
        0x20D0..=0x20F0 => CM,
        0x20F1..=0x20FF => XX,
        0x2100..=0x2102 => AL,
        0x2103 => PO,
        0x2104 => AL,
        0x2105 => AI,
        0x2106..=0x2108 => AL,
        0x2109 => PO,
        0x210A..=0x2112 => AL,
        0x2113 => AI,
        0x2114..=0x2115 => AL,
        0x2116 => PR,
        _ => AL,
    }
}

/// The classes from U+2121 to U+2233.
pub open spec fn class_19(code: u32) -> u8 {
    match code {
        _ if code <= 0x2122 => AI,
        _ if code <= 0x212A => AL,
        _ if code <= 0x212B => AI,
        _ if code <= 0x2153 => AL,
        _ if code <= 0x2155 => AI,
        _ if code <= 0x215A => AL,
        _ if code <= 0x215B => AI,
        _ if code <= 0x215D => AL,
        _ if code <= 0x215E => AI,
        _ if code <= 0x215F => AL,
        _ if code <= 0x216B => AI,
        _ if code <= 0x216F => AL,
        _ if code <= 0x2179 => AI,
        _ if code <= 0x2188 => AL,
        _ if code <= 0x2189 => AI,
        _ if code <= 0x218B => AL,
        _ if code <= 0x218F => XX,
        _ if code <= 0x2199 => AI,
        _ if code <= 0x21D1 => AL,
        _ if code <= 0x21D2 => AI,
        _ if code <= 0x21D3 => AL,
        _ if code <= 0x21D4 => AI,
        _ if code <= 0x21FF => AL,
        _ if code <= 0x2200 => AI,
        _ if code <= 0x2201 => AL,
        _ if code <= 0x2203 => AI,
        _ if code <= 0x2206 => AL,
        _ if code <= 0x2208 => AI,
        _ if code <= 0x220A => AL,
        _ if code <= 0x220B => AI,
        _ if code <= 0x220E => AL,
        _ if code <= 0x220F => AI,
        _ if code <= 0x2210 => AL,
        _ if code <= 0x2211 => AI,
        _ if code <= 0x2213 => PR,
        _ if code <= 0x2214 => AL,
        _ if code <= 0x2215 => AI,
        _ if code <= 0x2219 => AL,
        _ if code <= 0x221A => AI,
        _ if code <= 0x221C => AL,
        _ if code <= 0x2220 => AI,
        _ if code <= 0x2222 => AL,
        _ if code <= 0x2223 => AI,
        _ if code <= 0x2224 => AL,
        _ if code <= 0x2225 => AI,
        _ if code <= 0x2226 => AL,
        _ if code <= 0x222E => AI,
        _ => AL,
    }
}

fn block_19(code: u32) -> (class: u8)
    requires
        0x2121 <= code <= 0x2233,
    ensures
        class == class_19(code),
        is_class(class),
{
    match code {
        0x2121..=0x2122 => AI,
        0x2123..=0x212A => AL,
        0x212B => AI,
        0x212C..=0x2153 => AL,
        0x2154..=0x2155 => AI,
        0x2156..=0x215A => AL,
        0x215B => AI,
        0x215C..=0x215D => AL,
        0x215E => AI,
        0x215F => AL,
        0x2160..=0x216B => AI,
        0x216C..=0x216F => AL,
        0x2170..=0x2179 => AI,
        0x217A..=0x2188 => AL,
        0x2189 => AI,
        0x218A..=0x218B => AL,
        0x218C..=0x218F => XX,
        0x2190..=0x2199 => AI,
        0x219A..=0x21D1 => AL,
        0x21D2 => AI,
        0x21D3 => AL,
        0x21D4 => AI,
        0x21D5..=0x21FF => AL,
        0x2200 => AI,
        0x2201 => AL,
        0x2202..=0x2203 => AI,
        0x2204..=0x2206 => AL,
        0x2207..=0x2208 => AI,
        0x2209..=0x220A => AL,
        0x220B => AI,
        0x220C..=0x220E => AL,
        0x220F => AI,
        0x2210 => AL,
        0x2211 => AI,
        0x2212..=0x2213 => PR,
        0x2214 => AL,
        0x2215 => AI,
        0x2216..=0x2219 => AL,
        0x221A => AI,
        0x221B..=0x221C => AL,
        0x221D..=0x2220 => AI,
        0x2221..=0x2222 => AL,
        0x2223 => AI,
        0x2224 => AL,
        0x2225 => AI,
        0x2226 => AL,
        0x2227..=0x222E => AI,
        _ => AL,
    }
}

/// The classes from U+2234 to U+23F2.
pub open spec fn class_20(code: u32) -> u8 {
    match code {
        _ if code <= 0x2237 => AI,
        _ if code <= 0x223B => AL,
        _ if code <= 0x223D => AI,
        _ if code <= 0x2247 => AL,
        _ if code <= 0x2248 => AI,
        _ if code <= 0x224B => AL,
        _ if code <= 0x224C => AI,
        _ if code <= 0x2251 => AL,
        _ if code <= 0x2252 => AI,
        _ if code <= 0x225F => AL,
        _ if code <= 0x2261 => AI,
        _ if code <= 0x2263 => AL,
        _ if code <= 0x2267 => AI,
        _ if code <= 0x2269 => AL,
        _ if code <= 0x226B => AI,
        _ if code <= 0x226D => AL,
        _ if code <= 0x226F => AI,
        _ if code <= 0x2281 => AL,
        _ if code <= 0x2283 => AI,
        _ if code <= 0x2285 => AL,
        _ if code <= 0x2287 => AI,
        _ if code <= 0x2294 => AL,
        _ if code <= 0x2295 => AI,
        _ if code <= 0x2298 => AL,
        _ if code <= 0x2299 => AI,
        _ if code <= 0x22A4 => AL,
        _ if code <= 0x22A5 => AI,
        _ if code <= 0x22BE => AL,
        _ if code <= 0x22BF => AI,
        _ if code <= 0x22EE => AL,
        _ if code <= 0x22EF => IN,
        _ if code <= 0x2307 => AL,
        _ if code <= 0x2308 => OP,
        _ if code <= 0x2309 => CL,
        _ if code <= 0x230A => OP,
        _ if code <= 0x230B => CL,
        _ if code <= 0x2311 => AL,
        _ if code <= 0x2312 => AI,
        _ if code <= 0x2319 => AL,
        _ if code <= 0x231B => ID,
        _ if code <= 0x2328 => AL,
        _ if code <= 0x2329 => OP_EA,
        _ if code <= 0x232A => CL,
        _ if code <= 0x23E8 => AL,
        _ if code <= 0x23EC => ID,
        _ if code <= 0x23EF => AL,
        _ if code <= 0x23F0 => ID,
        _ => AL,
    }
}

fn block_20(code: u32) -> (class: u8)
    requires
        0x2234 <= code <= 0x23F2,
    ensures
        class == class_20(code),
        is_class(class),
{
    match code {
        0x2234..=0x2237 => AI,
        0x2238..=0x223B => AL,
        0x223C..=0x223D => AI,
        0x223E..=0x2247 => AL,
        0x2248 => AI,
        0x2249..=0x224B => AL,
        0x224C => AI,
        0x224D..=0x2251 => AL,
        0x2252 => AI,
        0x2253..=0x225F => AL,
        0x2260..=0x2261 => AI,
        0x2262..=0x2263 => AL,
        0x2264..=0x2267 => AI,
        0x2268..=0x2269 => AL,
        0x226A..=0x226B => AI,
        0x226C..=0x226D => AL,
        0x226E..=0x226F => AI,
        0x2270..=0x2281 => AL,
        0x2282..=0x2283 => AI,
        0x2284..=0x2285 => AL,
        0x2286..=0x2287 => AI,
        0x2288..=0x2294 => AL,
        0x2295 => AI,
        0x2296..=0x2298 => AL,
        0x2299 => AI,
        0x229A..=0x22A4 => AL,
        0x22A5 => AI,
        0x22A6..=0x22BE => AL,
        0x22BF => AI,
        0x22C0..=0x22EE => AL,
        0x22EF => IN,
        0x22F0..=0x2307 => AL,
        0x2308 => OP,
        0x2309 => CL,
        0x230A => OP,
        0x230B => CL,
        0x230C..=0x2311 => AL,
        0x2312 => AI,
        0x2313..=0x2319 => AL,
        0x231A..=0x231B => ID,
        0x231C..=0x2328 => AL,
        0x2329 => OP_EA,
        0x232A => CL,
        0x232B..=0x23E8 => AL,
        0x23E9..=0x23EC => ID,
        0x23ED..=0x23EF => AL,
        0x23F0 => ID,
        _ => AL,
    }
}

/// The classes from U+23F3 to U+2615.
pub open spec fn class_21(code: u32) -> u8 {
    match code {
        _ if code <= 0x23F3 => ID,
        _ if code <= 0x2426 => AL,
        _ if code <= 0x243F => XX,
        _ if code <= 0x244A => AL,
        _ if code <= 0x245F => XX,
        _ if code <= 0x24FE => AI,
        _ if code <= 0x24FF => AL,
        _ if code <= 0x254B => AI,
        _ if code <= 0x254F => AL,
        _ if code <= 0x2574 => AI,
        _ if code <= 0x257F => AL,
        _ if code <= 0x258F => AI,
        _ if code <= 0x2591 => AL,
        _ if code <= 0x2595 => AI,
        _ if code <= 0x259F => AL,
        _ if code <= 0x25A1 => AI,
        _ if code <= 0x25A2 => AL,
        _ if code <= 0x25A9 => AI,
        _ if code <= 0x25B1 => AL,
        _ if code <= 0x25B3 => AI,
        _ if code <= 0x25B5 => AL,
        _ if code <= 0x25B7 => AI,
        _ if code <= 0x25BB => AL,
        _ if code <= 0x25BD => AI,
        _ if code <= 0x25BF => AL,
        _ if code <= 0x25C1 => AI,
        _ if code <= 0x25C5 => AL,
        _ if code <= 0x25C8 => AI,
        _ if code <= 0x25CA => AL,
        _ if code <= 0x25CB => AI,
        _ if code <= 0x25CD => AL,
        _ if code <= 0x25D1 => AI,
        _ if code <= 0x25E1 => AL,
        _ if code <= 0x25E5 => AI,
        _ if code <= 0x25EE => AL,
        _ if code <= 0x25EF => AI,
        _ if code <= 0x25FC => AL,
        _ if code <= 0x25FE => ID,
        _ if code <= 0x25FF => AL,
        _ if code <= 0x2603 => ID,
        _ if code <= 0x2604 => AL,
        _ if code <= 0x2606 => AI,
        _ if code <= 0x2608 => AL,
        _ if code <= 0x2609 => AI,
        _ if code <= 0x260D => AL,
        _ if code <= 0x260F => AI,
        _ if code <= 0x2613 => AL,
        _ => ID,
    }
}

fn block_21(code: u32) -> (class: u8)
    requires
        0x23F3 <= code <= 0x2615,
    ensures
        class == class_21(code),
        is_class(class),
{
    match code {
        0x23F3 => ID,
        0x23F4..=0x2426 => AL,
        0x2427..=0x243F => XX,
        0x2440..=0x244A => AL,
        0x244B..=0x245F => XX,
        0x2460..=0x24FE => AI,
        0x24FF => AL,
        0x2500..=0x254B => AI,
        0x254C..=0x254F => AL,
        0x2550..=0x2574 => AI,
        0x2575..=0x257F => AL,
        0x2580..=0x258F => AI,
        0x2590..=0x2591 => AL,
        0x2592..=0x2595 => AI,
        0x2596..=0x259F => AL,
        0x25A0..=0x25A1 => AI,
        0x25A2 => AL,
        0x25A3..=0x25A9 => AI,
        0x25AA..=0x25B1 => AL,
        0x25B2..=0x25B3 => AI,
        0x25B4..=0x25B5 => AL,
        0x25B6..=0x25B7 => AI,
        0x25B8..=0x25BB => AL,
        0x25BC..=0x25BD => AI,
        0x25BE..=0x25BF => AL,
        0x25C0..=0x25C1 => AI,
        0x25C2..=0x25C5 => AL,
        0x25C6..=0x25C8 => AI,
        0x25C9..=0x25CA => AL,
        0x25CB => AI,
        0x25CC..=0x25CD => AL,
        0x25CE..=0x25D1 => AI,
        0x25D2..=0x25E1 => AL,
        0x25E2..=0x25E5 => AI,
        0x25E6..=0x25EE => AL,
        0x25EF => AI,
        0x25F0..=0x25FC => AL,
        0x25FD..=0x25FE => ID,
        0x25FF => AL,
        0x2600..=0x2603 => ID,
        0x2604 => AL,
        0x2605..=0x2606 => AI,
        0x2607..=0x2608 => AL,
        0x2609 => AI,
        0x260A..=0x260D => AL,
        0x260E..=0x260F => AI,
        0x2610..=0x2613 => AL,
        _ => ID,
    }
}

/// The classes from U+2616 to U+26E1.
pub open spec fn class_22(code: u32) -> u8 {
    match code {
        _ if code <= 0x2617 => AI,
        _ if code <= 0x2618 => ID,
        _ if code <= 0x2619 => AL,
        _ if code <= 0x261C => ID,
        _ if code <= 0x261D => EB,
        _ if code <= 0x261F => ID,
        _ if code <= 0x2638 => AL,
        _ if code <= 0x263B => ID,
        _ if code <= 0x263F => AL,
        _ if code <= 0x2640 => AI,
        _ if code <= 0x2641 => AL,
        _ if code <= 0x2642 => AI,
        _ if code <= 0x2647 => AL,
        _ if code <= 0x2653 => ID,
        _ if code <= 0x265F => AL,
        _ if code <= 0x2661 => AI,
        _ if code <= 0x2662 => AL,
        _ if code <= 0x2665 => AI,
        _ if code <= 0x2666 => AL,
        _ if code <= 0x2667 => AI,
        _ if code <= 0x2668 => ID,
        _ if code <= 0x266A => AI,
        _ if code <= 0x266B => AL,
        _ if code <= 0x266D => AI,
        _ if code <= 0x266E => AL,
        _ if code <= 0x266F => AI,
        _ if code <= 0x267E => AL,
        _ if code <= 0x267F => ID,
        _ if code <= 0x2692 => AL,
        _ if code <= 0x2693 => ID,
        _ if code <= 0x269D => AL,
        _ if code <= 0x269F => AI,
        _ if code <= 0x26A0 => AL,
        _ if code <= 0x26A1 => ID,
        _ if code <= 0x26A9 => AL,
        _ if code <= 0x26AB => ID,
        _ if code <= 0x26BC => AL,
        _ if code <= 0x26C8 => ID,
        _ if code <= 0x26CC => AI,
        _ if code <= 0x26D1 => ID,
        _ if code <= 0x26D2 => AI,
        _ if code <= 0x26D4 => ID,
        _ if code <= 0x26D7 => AI,
        _ if code <= 0x26D9 => ID,
        _ if code <= 0x26DB => AI,
        _ if code <= 0x26DC => ID,
        _ if code <= 0x26DE => AI,
        _ => ID,
    }
}

fn block_22(code: u32) -> (class: u8)
    requires
        0x2616 <= code <= 0x26E1,
    ensures
        class == class_22(code),
        is_class(class),
{
    match code {
        0x2616..=0x2617 => AI,
        0x2618 => ID,
        0x2619 => AL,
        0x261A..=0x261C => ID,
        0x261D => EB,
        0x261E..=0x261F => ID,
        0x2620..=0x2638 => AL,
        0x2639..=0x263B => ID,
        0x263C..=0x263F => AL,
        0x2640 => AI,
        0x2641 => AL,
        0x2642 => AI,
        0x2643..=0x2647 => AL,
        0x2648..=0x2653 => ID,
        0x2654..=0x265F => AL,
        0x2660..=0x2661 => AI,
        0x2662 => AL,
        0x2663..=0x2665 => AI,
        0x2666 => AL,
        0x2667 => AI,
        0x2668 => ID,
        0x2669..=0x266A => AI,
        0x266B => AL,
        0x266C..=0x266D => AI,
        0x266E => AL,
        0x266F => AI,
        0x2670..=0x267E => AL,
        0x267F => ID,
        0x2680..=0x2692 => AL,
        0x2693 => ID,
        0x2694..=0x269D => AL,
        0x269E..=0x269F => AI,
        0x26A0 => AL,
        0x26A1 => ID,
        0x26A2..=0x26A9 => AL,
        0x26AA..=0x26AB => ID,
        0x26AC..=0x26BC => AL,
        0x26BD..=0x26C8 => ID,
        0x26C9..=0x26CC => AI,
        0x26CD..=0x26D1 => ID,
        0x26D2 => AI,
        0x26D3..=0x26D4 => ID,
        0x26D5..=0x26D7 => AI,
        0x26D8..=0x26D9 => ID,
        0x26DA..=0x26DB => AI,
        0x26DC => ID,
        0x26DD..=0x26DE => AI,
        _ => ID,
    }
}

/// The classes from U+26E2 to U+2794.
pub open spec fn class_23(code: u32) -> u8 {
    match code {
        _ if code <= 0x26E2 => AL,
        _ if code <= 0x26E3 => AI,
        _ if code <= 0x26E7 => AL,
        _ if code <= 0x26E9 => AI,
        _ if code <= 0x26EA => ID,
        _ if code <= 0x26F0 => AI,
        _ if code <= 0x26F5 => ID,
        _ if code <= 0x26F6 => AI,
        _ if code <= 0x26F8 => ID,
        _ if code <= 0x26F9 => EB,
        _ if code <= 0x26FA => ID,
        _ if code <= 0x26FC => AI,
        _ if code <= 0x2705 => ID,
        _ if code <= 0x2707 => AL,
        _ if code <= 0x2709 => ID,
        _ if code <= 0x270D => EB,
        _ if code <= 0x2727 => AL,
        _ if code <= 0x2728 => ID,
        _ if code <= 0x274B => AL,
        _ if code <= 0x274C => ID,
        _ if code <= 0x274D => AL,
        _ if code <= 0x274E => ID,
        _ if code <= 0x2752 => AL,
        _ if code <= 0x2755 => ID,
        _ if code <= 0x2756 => AL,
        _ if code <= 0x2757 => AI,
        _ if code <= 0x275A => AL,
        _ if code <= 0x2760 => QU,
        _ if code <= 0x2761 => AL,
        _ if code <= 0x2763 => EX,
        _ if code <= 0x2764 => ID,
        _ if code <= 0x2767 => AL,
        _ if code <= 0x2768 => OP,
        _ if code <= 0x2769 => CL,
        _ if code <= 0x276A => OP,
        _ if code <= 0x276B => CL,
        _ if code <= 0x276C => OP,
        _ if code <= 0x276D => CL,
        _ if code <= 0x276E => OP,
        _ if code <= 0x276F => CL,
        _ if code <= 0x2770 => OP,
        _ if code <= 0x2771 => CL,
        _ if code <= 0x2772 => OP,
        _ if code <= 0x2773 => CL,
        _ if code <= 0x2774 => OP,
        _ if code <= 0x2775 => CL,
        _ if code <= 0x2793 => AI,
        _ => AL,
    }
}

fn block_23(code: u32) -> (class: u8)
    requires
        0x26E2 <= code <= 0x2794,
    ensures
        class == class_23(code),
        is_class(class),
{
    match code {
        0x26E2 => AL,
        0x26E3 => AI,
        0x26E4..=0x26E7 => AL,
        0x26E8..=0x26E9 => AI,
        0x26EA => ID,
        0x26EB..=0x26F0 => AI,
        0x26F1..=0x26F5 => ID,
        0x26F6 => AI,
        0x26F7..=0x26F8 => ID,
        0x26F9 => EB,
        0x26FA => ID,
        0x26FB..=0x26FC => AI,
        0x26FD..=0x2705 => ID,
        0x2706..=0x2707 => AL,
        0x2708..=0x2709 => ID,
        0x270A..=0x270D => EB,
        0x270E..=0x2727 => AL,
        0x2728 => ID,
        0x2729..=0x274B => AL,
        0x274C => ID,
        0x274D => AL,
        0x274E => ID,
        0x274F..=0x2752 => AL,
        0x2753..=0x2755 => ID,
        0x2756 => AL,
        0x2757 => AI,
        0x2758..=0x275A => AL,
        0x275B..=0x2760 => QU,
        0x2761 => AL,
        0x2762..=0x2763 => EX,
        0x2764 => ID,
        0x2765..=0x2767 => AL,
        0x2768 => OP,
        0x2769 => CL,
        0x276A => OP,
        0x276B => CL,
        0x276C => OP,
        0x276D => CL,
        0x276E => OP,
        0x276F => CL,
        0x2770 => OP,
        0x2771 => CL,
        0x2772 => OP,
        0x2773 => CL,
        0x2774 => OP,
        0x2775 => CL,
        0x2776..=0x2793 => AI,
        _ => AL,
    }
}

/// The classes from U+2795 to U+29FB.
pub open spec fn class_24(code: u32) -> u8 {
    match code {
        _ if code <= 0x2797 => ID,
        _ if code <= 0x27AF => AL,
        _ if code <= 0x27B0 => ID,
        _ if code <= 0x27BE => AL,
        _ if code <= 0x27BF => ID,
        _ if code <= 0x27C4 => AL,
        _ if code <= 0x27C5 => OP,
        _ if code <= 0x27C6 => CL,
        _ if code <= 0x27E5 => AL,
        _ if code <= 0x27E6 => OP,
        _ if code <= 0x27E7 => CL,
        _ if code <= 0x27E8 => OP,
        _ if code <= 0x27E9 => CL,
        _ if code <= 0x27EA => OP,
        _ if code <= 0x27EB => CL,
        _ if code <= 0x27EC => OP,
        _ if code <= 0x27ED => CL,
        _ if code <= 0x27EE => OP,
        _ if code <= 0x27EF => CL,
        _ if code <= 0x2982 => AL,
        _ if code <= 0x2983 => OP,
        _ if code <= 0x2984 => CL,
        _ if code <= 0x2985 => OP,
        _ if code <= 0x2986 => CL,
        _ if code <= 0x2987 => OP,
        _ if code <= 0x2988 => CL,
        _ if code <= 0x2989 => OP,
        _ if code <= 0x298A => CL,
        _ if code <= 0x298B => OP,
        _ if code <= 0x298C => CL,
        _ if code <= 0x298D => OP,
        _ if code <= 0x298E => CL,
        _ if code <= 0x298F => OP,
        _ if code <= 0x2990 => CL,
        _ if code <= 0x2991 => OP,
        _ if code <= 0x2992 => CL,
        _ if code <= 0x2993 => OP,
        _ if code <= 0x2994 => CL,
        _ if code <= 0x2995 => OP,
        _ if code <= 0x2996 => CL,
        _ if code <= 0x2997 => OP,
        _ if code <= 0x2998 => CL,
        _ if code <= 0x29D7 => AL,
        _ if code <= 0x29D8 => OP,
        _ if code <= 0x29D9 => CL,
        _ if code <= 0x29DA => OP,
        _ if code <= 0x29DB => CL,
        _ => AL,
    }
}

fn block_24(code: u32) -> (class: u8)
    requires
        0x2795 <= code <= 0x29FB,
    ensures
        class == class_24(code),
        is_class(class),
{
    match code {
        0x2795..=0x2797 => ID,
        0x2798..=0x27AF => AL,
        0x27B0 => ID,
        0x27B1..=0x27BE => AL,
        0x27BF => ID,
        0x27C0..=0x27C4 => AL,
        0x27C5 => OP,
        0x27C6 => CL,
        0x27C7..=0x27E5 => AL,
        0x27E6 => OP,
        0x27E7 => CL,
        0x27E8 => OP,
        0x27E9 => CL,
        0x27EA => OP,
        0x27EB => CL,
        0x27EC => OP,
        0x27ED => CL,
        0x27EE => OP,
        0x27EF => CL,
        0x27F0..=0x2982 => AL,
        0x2983 => OP,
        0x2984 => CL,
        0x2985 => OP,
        0x2986 => CL,
        0x2987 => OP,
        0x2988 => CL,
        0x2989 => OP,
        0x298A => CL,
        0x298B => OP,
        0x298C => CL,
        0x298D => OP,
        0x298E => CL,
        0x298F => OP,
        0x2990 => CL,
        0x2991 => OP,
        0x2992 => CL,
        0x2993 => OP,
        0x2994 => CL,
        0x2995 => OP,
        0x2996 => CL,
        0x2997 => OP,
        0x2998 => CL,
        0x2999..=0x29D7 => AL,
        0x29D8 => OP,
        0x29D9 => CL,
        0x29DA => OP,
        0x29DB => CL,
        _ => AL,
    }
}

/// The classes from U+29FC to U+2DD6.
pub open spec fn class_25(code: u32) -> u8 {
    match code {
        _ if code <= 0x29FC => OP,
        _ if code <= 0x29FD => CL,
        _ if code <= 0x2B1A => AL,
        _ if code <= 0x2B1C => ID,
        _ if code <= 0x2B4F => AL,
        _ if code <= 0x2B50 => ID,
        _ if code <= 0x2B54 => AL,
        _ if code <= 0x2B59 => AI,
        _ if code <= 0x2B73 => AL,
        _ if code <= 0x2B75 => XX,
        _ if code <= 0x2B95 => AL,
        _ if code <= 0x2B96 => XX,
        _ if code <= 0x2CEE => AL,
        _ if code <= 0x2CF1 => CM,
        _ if code <= 0x2CF3 => AL,
        _ if code <= 0x2CF8 => XX,
        _ if code <= 0x2CF9 => EX,
        _ if code <= 0x2CFC => BA,
        _ if code <= 0x2CFD => AL,
        _ if code <= 0x2CFE => EX,
        _ if code <= 0x2CFF => BA,
        _ if code <= 0x2D25 => AL,
        _ if code <= 0x2D26 => XX,
        _ if code <= 0x2D27 => AL,
        _ if code <= 0x2D2C => XX,
        _ if code <= 0x2D2D => AL,
        _ if code <= 0x2D2F => XX,
        _ if code <= 0x2D67 => AL,
        _ if code <= 0x2D6E => XX,
        _ if code <= 0x2D6F => AL,
        _ if code <= 0x2D70 => BA,
        _ if code <= 0x2D7E => XX,
        _ if code <= 0x2D7F => CM,
        _ if code <= 0x2D96 => AL,
        _ if code <= 0x2D9F => XX,
        _ if code <= 0x2DA6 => AL,
        _ if code <= 0x2DA7 => XX,
        _ if code <= 0x2DAE => AL,
        _ if code <= 0x2DAF => XX,
        _ if code <= 0x2DB6 => AL,
        _ if code <= 0x2DB7 => XX,
        _ if code <= 0x2DBE => AL,
        _ if code <= 0x2DBF => XX,
        _ if code <= 0x2DC6 => AL,
        _ if code <= 0x2DC7 => XX,
        _ if code <= 0x2DCE => AL,
        _ if code <= 0x2DCF => XX,
        _ => AL,
    }
}

fn block_25(code: u32) -> (class: u8)
    requires
        0x29FC <= code <= 0x2DD6,
    ensures
        class == class_25(code),
        is_class(class),
{
    match code {
        0x29FC => OP,
        0x29FD => CL,
        0x29FE..=0x2B1A => AL,
        0x2B1B..=0x2B1C => ID,
        0x2B1D..=0x2B4F => AL,
        0x2B50 => ID,
        0x2B51..=0x2B54 => AL,
        0x2B55..=0x2B59 => AI,
        0x2B5A..=0x2B73 => AL,
        0x2B74..=0x2B75 => XX,
        0x2B76..=0x2B95 => AL,
        0x2B96 => XX,
        0x2B97..=0x2CEE => AL,
        0x2CEF..=0x2CF1 => CM,
        0x2CF2..=0x2CF3 => AL,
        0x2CF4..=0x2CF8 => XX,
        0x2CF9 => EX,
        0x2CFA..=0x2CFC => BA,
        0x2CFD => AL,
        0x2CFE => EX,
        0x2CFF => BA,
        0x2D00..=0x2D25 => AL,
        0x2D26 => XX,
        0x2D27 => AL,
        0x2D28..=0x2D2C => XX,
        0x2D2D => AL,
        0x2D2E..=0x2D2F => XX,
        0x2D30..=0x2D67 => AL,
        0x2D68..=0x2D6E => XX,
        0x2D6F => AL,
        0x2D70 => BA,
        0x2D71..=0x2D7E => XX,
        0x2D7F => CM,
        0x2D80..=0x2D96 => AL,
        0x2D97..=0x2D9F => XX,
        0x2DA0..=0x2DA6 => AL,
        0x2DA7 => XX,
        0x2DA8..=0x2DAE => AL,
        0x2DAF => XX,
        0x2DB0..=0x2DB6 => AL,
        0x2DB7 => XX,
        0x2DB8..=0x2DBE => AL,
        0x2DBF => XX,
        0x2DC0..=0x2DC6 => AL,
        0x2DC7 => XX,
        0x2DC8..=0x2DCE => AL,
        0x2DCF => XX,
        _ => AL,
    }
}

/// The classes from U+2DD7 to U+2E5B.
pub open spec fn class_26(code: u32) -> u8 {
    match code {
        _ if code <= 0x2DD7 => XX,
        _ if code <= 0x2DDE => AL,
        _ if code <= 0x2DDF => XX,
        _ if code <= 0x2DFF => CM,
        _ if code <= 0x2E0D => QU,
        _ if code <= 0x2E15 => BA,
        _ if code <= 0x2E16 => AL,
        _ if code <= 0x2E17 => BA,
        _ if code <= 0x2E18 => OP,
        _ if code <= 0x2E19 => BA,
        _ if code <= 0x2E1B => AL,
        _ if code <= 0x2E1D => QU,
        _ if code <= 0x2E1F => AL,
        _ if code <= 0x2E21 => QU,
        _ if code <= 0x2E22 => OP,
        _ if code <= 0x2E23 => CL,
        _ if code <= 0x2E24 => OP,
        _ if code <= 0x2E25 => CL,
        _ if code <= 0x2E26 => OP,
        _ if code <= 0x2E27 => CL,
        _ if code <= 0x2E28 => OP,
        _ if code <= 0x2E29 => CL,
        _ if code <= 0x2E2D => BA,
        _ if code <= 0x2E2E => EX,
        _ if code <= 0x2E2F => AL,
        _ if code <= 0x2E31 => BA,
        _ if code <= 0x2E32 => AL,
        _ if code <= 0x2E34 => BA,
        _ if code <= 0x2E39 => AL,
        _ if code <= 0x2E3B => B2,
        _ if code <= 0x2E3E => BA,
        _ if code <= 0x2E3F => AL,
        _ if code <= 0x2E41 => BA,
        _ if code <= 0x2E42 => OP,
        _ if code <= 0x2E4A => BA,
        _ if code <= 0x2E4B => AL,
        _ if code <= 0x2E4C => BA,
        _ if code <= 0x2E4D => AL,
        _ if code <= 0x2E4F => BA,
        _ if code <= 0x2E52 => AL,
        _ if code <= 0x2E54 => EX,
        _ if code <= 0x2E55 => OP,
        _ if code <= 0x2E56 => CL,
        _ if code <= 0x2E57 => OP,
        _ if code <= 0x2E58 => CL,
        _ if code <= 0x2E59 => OP,
        _ if code <= 0x2E5A => CL,
        _ => OP,
    }
}

fn block_26(code: u32) -> (class: u8)
    requires
        0x2DD7 <= code <= 0x2E5B,
    ensures
        class == class_26(code),
        is_class(class),
{
    match code {
        0x2DD7 => XX,
        0x2DD8..=0x2DDE => AL,
        0x2DDF => XX,
        0x2DE0..=0x2DFF => CM,
        0x2E00..=0x2E0D => QU,
        0x2E0E..=0x2E15 => BA,
        0x2E16 => AL,
        0x2E17 => BA,
        0x2E18 => OP,
        0x2E19 => BA,
        0x2E1A..=0x2E1B => AL,
        0x2E1C..=0x2E1D => QU,
        0x2E1E..=0x2E1F => AL,
        0x2E20..=0x2E21 => QU,
        0x2E22 => OP,
        0x2E23 => CL,
        0x2E24 => OP,
        0x2E25 => CL,
        0x2E26 => OP,
        0x2E27 => CL,
        0x2E28 => OP,
        0x2E29 => CL,
        0x2E2A..=0x2E2D => BA,
        0x2E2E => EX,
        0x2E2F => AL,
        0x2E30..=0x2E31 => BA,
        0x2E32 => AL,
        0x2E33..=0x2E34 => BA,
        0x2E35..=0x2E39 => AL,
        0x2E3A..=0x2E3B => B2,
        0x2E3C..=0x2E3E => BA,
        0x2E3F => AL,
        0x2E40..=0x2E41 => BA,
        0x2E42 => OP,
        0x2E43..=0x2E4A => BA,
        0x2E4B => AL,
        0x2E4C => BA,
        0x2E4D => AL,
        0x2E4E..=0x2E4F => BA,
        0x2E50..=0x2E52 => AL,
        0x2E53..=0x2E54 => EX,
        0x2E55 => OP,
        0x2E56 => CL,
        0x2E57 => OP,
        0x2E58 => CL,
        0x2E59 => OP,
        0x2E5A => CL,
        _ => OP,
    }
}

/// The classes from U+2E5C to U+3041.
pub open spec fn class_27(code: u32) -> u8 {
    match code {
        _ if code <= 0x2E5C => CL,
        _ if code <= 0x2E5D => BA,
        _ if code <= 0x2E7F => XX,
        _ if code <= 0x2E99 => ID,
        _ if code <= 0x2E9A => XX,
        _ if code <= 0x2EF3 => ID,
        _ if code <= 0x2EFF => XX,
        _ if code <= 0x2FD5 => ID,
        _ if code <= 0x2FEF => XX,
        _ if code <= 0x2FFB => ID,
        _ if code <= 0x2FFF => XX,
        _ if code <= 0x3000 => BA,
        _ if code <= 0x3002 => CL,
        _ if code <= 0x3004 => ID,
        _ if code <= 0x3005 => NS,
        _ if code <= 0x3007 => ID,
        _ if code <= 0x3008 => OP_EA,
        _ if code <= 0x3009 => CL,
        _ if code <= 0x300A => OP_EA,
        _ if code <= 0x300B => CL,
        _ if code <= 0x300C => OP_EA,
        _ if code <= 0x300D => CL,
        _ if code <= 0x300E => OP_EA,
        _ if code <= 0x300F => CL,
        _ if code <= 0x3010 => OP_EA,
        _ if code <= 0x3011 => CL,
        _ if code <= 0x3013 => ID,
        _ if code <= 0x3014 => OP_EA,
        _ if code <= 0x3015 => CL,
        _ if code <= 0x3016 => OP_EA,
        _ if code <= 0x3017 => CL,
        _ if code <= 0x3018 => OP_EA,
        _ if code <= 0x3019 => CL,
        _ if code <= 0x301A => OP_EA,
        _ if code <= 0x301B => CL,
        _ if code <= 0x301C => NS,
        _ if code <= 0x301D => OP_EA,
        _ if code <= 0x301F => CL,
        _ if code <= 0x3029 => ID,
        _ if code <= 0x302F => CM,
        _ if code <= 0x3034 => ID,
        _ if code <= 0x3035 => CM,
        _ if code <= 0x303A => ID,
        _ if code <= 0x303C => NS,
        _ if code <= 0x303E => ID,
        _ if code <= 0x303F => AL,
        _ if code <= 0x3040 => XX,
        _ => CJ,
    }
}

fn block_27(code: u32) -> (class: u8)
    requires
        0x2E5C <= code <= 0x3041,
    ensures
        class == class_27(code),
        is_class(class),
{
    match code {
        0x2E5C => CL,
        0x2E5D => BA,
        0x2E5E..=0x2E7F => XX,
        0x2E80..=0x2E99 => ID,
        0x2E9A => XX,
        0x2E9B..=0x2EF3 => ID,
        0x2EF4..=0x2EFF => XX,
        0x2F00..=0x2FD5 => ID,
        0x2FD6..=0x2FEF => XX,
        0x2FF0..=0x2FFB => ID,
        0x2FFC..=0x2FFF => XX,
        0x3000 => BA,
        0x3001..=0x3002 => CL,
        0x3003..=0x3004 => ID,
        0x3005 => NS,
        0x3006..=0x3007 => ID,
        0x3008 => OP_EA,
        0x3009 => CL,
        0x300A => OP_EA,
        0x300B => CL,
        0x300C => OP_EA,
        0x300D => CL,
        0x300E => OP_EA,
        0x300F => CL,
        0x3010 => OP_EA,
        0x3011 => CL,
        0x3012..=0x3013 => ID,
        0x3014 => OP_EA,
        0x3015 => CL,
        0x3016 => OP_EA,
        0x3017 => CL,
        0x3018 => OP_EA,
        0x3019 => CL,
        0x301A => OP_EA,
        0x301B => CL,
        0x301C => NS,
        0x301D => OP_EA,
        0x301E..=0x301F => CL,
        0x3020..=0x3029 => ID,
        0x302A..=0x302F => CM,
        0x3030..=0x3034 => ID,
        0x3035 => CM,
        0x3036..=0x303A => ID,
        0x303B..=0x303C => NS,
        0x303D..=0x303E => ID,
        0x303F => AL,
        0x3040 => XX,
        _ => CJ,
    }
}

/// The classes from U+3042 to U+30FB.
pub open spec fn class_28(code: u32) -> u8 {
    match code {
        _ if code <= 0x3042 => ID,
        _ if code <= 0x3043 => CJ,
        _ if code <= 0x3044 => ID,
        _ if code <= 0x3045 => CJ,
        _ if code <= 0x3046 => ID,
        _ if code <= 0x3047 => CJ,
        _ if code <= 0x3048 => ID,
        _ if code <= 0x3049 => CJ,
        _ if code <= 0x3062 => ID,
        _ if code <= 0x3063 => CJ,
        _ if code <= 0x3082 => ID,
        _ if code <= 0x3083 => CJ,
        _ if code <= 0x3084 => ID,
        _ if code <= 0x3085 => CJ,
        _ if code <= 0x3086 => ID,
        _ if code <= 0x3087 => CJ,
        _ if code <= 0x308D => ID,
        _ if code <= 0x308E => CJ,
        _ if code <= 0x3094 => ID,
        _ if code <= 0x3096 => CJ,
        _ if code <= 0x3098 => XX,
        _ if code <= 0x309A => CM,
        _ if code <= 0x309E => NS,
        _ if code <= 0x309F => ID,
        _ if code <= 0x30A0 => NS,
        _ if code <= 0x30A1 => CJ,
        _ if code <= 0x30A2 => ID,
        _ if code <= 0x30A3 => CJ,
        _ if code <= 0x30A4 => ID,
        _ if code <= 0x30A5 => CJ,
        _ if code <= 0x30A6 => ID,
        _ if code <= 0x30A7 => CJ,
        _ if code <= 0x30A8 => ID,
        _ if code <= 0x30A9 => CJ,
        _ if code <= 0x30C2 => ID,
        _ if code <= 0x30C3 => CJ,
        _ if code <= 0x30E2 => ID,
        _ if code <= 0x30E3 => CJ,
        _ if code <= 0x30E4 => ID,
        _ if code <= 0x30E5 => CJ,
        _ if code <= 0x30E6 => ID,
        _ if code <= 0x30E7 => CJ,
        _ if code <= 0x30ED => ID,
        _ if code <= 0x30EE => CJ,
        _ if code <= 0x30F4 => ID,
        _ if code <= 0x30F6 => CJ,
        _ if code <= 0x30FA => ID,
        _ => NS,
    }
}

fn block_28(code: u32) -> (class: u8)
    requires
        0x3042 <= code <= 0x30FB,
    ensures
        class == class_28(code),
        is_class(class),
{
    match code {
        0x3042 => ID,
        0x3043 => CJ,
        0x3044 => ID,
        0x3045 => CJ,
        0x3046 => ID,
        0x3047 => CJ,
        0x3048 => ID,
        0x3049 => CJ,
        0x304A..=0x3062 => ID,
        0x3063 => CJ,
        0x3064..=0x3082 => ID,
        0x3083 => CJ,
        0x3084 => ID,
        0x3085 => CJ,
        0x3086 => ID,
        0x3087 => CJ,
        0x3088..=0x308D => ID,
        0x308E => CJ,
        0x308F..=0x3094 => ID,
        0x3095..=0x3096 => CJ,
        0x3097..=0x3098 => XX,
        0x3099..=0x309A => CM,
        0x309B..=0x309E => NS,
        0x309F => ID,
        0x30A0 => NS,
        0x30A1 => CJ,
        0x30A2 => ID,
        0x30A3 => CJ,
        0x30A4 => ID,
        0x30A5 => CJ,
        0x30A6 => ID,
        0x30A7 => CJ,
        0x30A8 => ID,
        0x30A9 => CJ,
        0x30AA..=0x30C2 => ID,
        0x30C3 => CJ,
        0x30C4..=0x30E2 => ID,
        0x30E3 => CJ,
        0x30E4 => ID,
        0x30E5 => CJ,
        0x30E6 => ID,
        0x30E7 => CJ,
        0x30E8..=0x30ED => ID,
        0x30EE => CJ,
        0x30EF..=0x30F4 => ID,
        0x30F5..=0x30F6 => CJ,
        0x30F7..=0x30FA => ID,
        _ => NS,
    }
}

/// The classes from U+30FC to U+A7D2.
pub open spec fn class_29(code: u32) -> u8 {
    match code {
        _ if code <= 0x30FC => CJ,
        _ if code <= 0x30FE => NS,
        _ if code <= 0x30FF => ID,
        _ if code <= 0x3104 => XX,
        _ if code <= 0x312F => ID,
        _ if code <= 0x3130 => XX,
        _ if code <= 0x318E => ID,
        _ if code <= 0x318F => XX,
        _ if code <= 0x31E3 => ID,
        _ if code <= 0x31EF => XX,
        _ if code <= 0x31FF => CJ,
        _ if code <= 0x321E => ID,
        _ if code <= 0x321F => XX,
        _ if code <= 0x3247 => ID,
        _ if code <= 0x324F => AI,
        _ if code <= 0x4DBF => ID,
        _ if code <= 0x4DFF => AL,
        _ if code <= 0xA014 => ID,
        _ if code <= 0xA015 => NS,
        _ if code <= 0xA48C => ID,
        _ if code <= 0xA48F => XX,
        _ if code <= 0xA4C6 => ID,
        _ if code <= 0xA4CF => XX,
        _ if code <= 0xA4FD => AL,
        _ if code <= 0xA4FF => BA,
        _ if code <= 0xA60C => AL,
        _ if code <= 0xA60D => BA,
        _ if code <= 0xA60E => EX,
        _ if code <= 0xA60F => BA,
        _ if code <= 0xA61F => AL,
        _ if code <= 0xA629 => NU,
        _ if code <= 0xA62B => AL,
        _ if code <= 0xA63F => XX,
        _ if code <= 0xA66E => AL,
        _ if code <= 0xA672 => CM,
        _ if code <= 0xA673 => AL,
        _ if code <= 0xA67D => CM,
        _ if code <= 0xA69D => AL,
        _ if code <= 0xA69F => CM,
        _ if code <= 0xA6EF => AL,
        _ if code <= 0xA6F1 => CM,
        _ if code <= 0xA6F2 => AL,
        _ if code <= 0xA6F7 => BA,
        _ if code <= 0xA6FF => XX,
        _ if code <= 0xA7CA => AL,
        _ if code <= 0xA7CF => XX,
        _ if code <= 0xA7D1 => AL,
        _ => XX,
    }
}

fn block_29(code: u32) -> (class: u8)
    requires
        0x30FC <= code <= 0xA7D2,
    ensures
        class == class_29(code),
        is_class(class),
{
    match code {
        0x30FC => CJ,
        0x30FD..=0x30FE => NS,
        0x30FF => ID,
        0x3100..=0x3104 => XX,
        0x3105..=0x312F => ID,
        0x3130 => XX,
        0x3131..=0x318E => ID,
        0x318F => XX,
        0x3190..=0x31E3 => ID,
        0x31E4..=0x31EF => XX,
        0x31F0..=0x31FF => CJ,
        0x3200..=0x321E => ID,
        0x321F => XX,
        0x3220..=0x3247 => ID,
        0x3248..=0x324F => AI,
        0x3250..=0x4DBF => ID,
        0x4DC0..=0x4DFF => AL,
        0x4E00..=0xA014 => ID,
        0xA015 => NS,
        0xA016..=0xA48C => ID,
        0xA48D..=0xA48F => XX,
        0xA490..=0xA4C6 => ID,
        0xA4C7..=0xA4CF => XX,
        0xA4D0..=0xA4FD => AL,
        0xA4FE..=0xA4FF => BA,
        0xA500..=0xA60C => AL,
        0xA60D => BA,
        0xA60E => EX,
        0xA60F => BA,
        0xA610..=0xA61F => AL,
        0xA620..=0xA629 => NU,
        0xA62A..=0xA62B => AL,
        0xA62C..=0xA63F => XX,
        0xA640..=0xA66E => AL,
        0xA66F..=0xA672 => CM,
        0xA673 => AL,
        0xA674..=0xA67D => CM,
        0xA67E..=0xA69D => AL,
        0xA69E..=0xA69F => CM,
        0xA6A0..=0xA6EF => AL,
        0xA6F0..=0xA6F1 => CM,
        0xA6F2 => AL,
        0xA6F3..=0xA6F7 => BA,
        0xA6F8..=0xA6FF => XX,
        0xA700..=0xA7CA => AL,
        0xA7CB..=0xA7CF => XX,
        0xA7D0..=0xA7D1 => AL,
        _ => XX,
    }
}

/// The classes from U+A7D3 to U+A9C0.
pub open spec fn class_30(code: u32) -> u8 {
    match code {
        _ if code <= 0xA7D3 => AL,
        _ if code <= 0xA7D4 => XX,
        _ if code <= 0xA7D9 => AL,
        _ if code <= 0xA7F1 => XX,
        _ if code <= 0xA801 => AL,
        _ if code <= 0xA802 => CM,
        _ if code <= 0xA805 => AL,
        _ if code <= 0xA806 => CM,
        _ if code <= 0xA80A => AL,
        _ if code <= 0xA80B => CM,
        _ if code <= 0xA822 => AL,
        _ if code <= 0xA827 => CM,
        _ if code <= 0xA82B => AL,
        _ if code <= 0xA82C => CM,
        _ if code <= 0xA82F => XX,
        _ if code <= 0xA837 => AL,
        _ if code <= 0xA838 => PO,
        _ if code <= 0xA839 => AL,
        _ if code <= 0xA83F => XX,
        _ if code <= 0xA873 => AL,
        _ if code <= 0xA875 => BB,
        _ if code <= 0xA877 => EX,
        _ if code <= 0xA87F => XX,
        _ if code <= 0xA881 => CM,
        _ if code <= 0xA8B3 => AL,
        _ if code <= 0xA8C5 => CM,
        _ if code <= 0xA8CD => XX,
        _ if code <= 0xA8CF => BA,
        _ if code <= 0xA8D9 => NU,
        _ if code <= 0xA8DF => XX,
        _ if code <= 0xA8F1 => CM,
        _ if code <= 0xA8FB => AL,
        _ if code <= 0xA8FC => BB,
        _ if code <= 0xA8FE => AL,
        _ if code <= 0xA8FF => CM,
        _ if code <= 0xA909 => NU,
        _ if code <= 0xA925 => AL,
        _ if code <= 0xA92D => CM,
        _ if code <= 0xA92F => BA,
        _ if code <= 0xA946 => AL,
        _ if code <= 0xA953 => CM,
        _ if code <= 0xA95E => XX,
        _ if code <= 0xA95F => AL,
        _ if code <= 0xA97C => JL,
        _ if code <= 0xA97F => XX,
        _ if code <= 0xA983 => CM,
        _ if code <= 0xA9B2 => AL,
        _ => CM,
    }
}

fn block_30(code: u32) -> (class: u8)
    requires
        0xA7D3 <= code <= 0xA9C0,
    ensures
        class == class_30(code),
        is_class(class),
{
    match code {
        0xA7D3 => AL,
        0xA7D4 => XX,
        0xA7D5..=0xA7D9 => AL,
        0xA7DA..=0xA7F1 => XX,
        0xA7F2..=0xA801 => AL,
        0xA802 => CM,
        0xA803..=0xA805 => AL,
        0xA806 => CM,
        0xA807..=0xA80A => AL,
        0xA80B => CM,
        0xA80C..=0xA822 => AL,
        0xA823..=0xA827 => CM,
        0xA828..=0xA82B => AL,
        0xA82C => CM,
        0xA82D..=0xA82F => XX,
        0xA830..=0xA837 => AL,
        0xA838 => PO,
        0xA839 => AL,
        0xA83A..=0xA83F => XX,
        0xA840..=0xA873 => AL,
        0xA874..=0xA875 => BB,
        0xA876..=0xA877 => EX,
        0xA878..=0xA87F => XX,
        0xA880..=0xA881 => CM,
        0xA882..=0xA8B3 => AL,
        0xA8B4..=0xA8C5 => CM,
        0xA8C6..=0xA8CD => XX,
        0xA8CE..=0xA8CF => BA,
        0xA8D0..=0xA8D9 => NU,
        0xA8DA..=0xA8DF => XX,
        0xA8E0..=0xA8F1 => CM,
        0xA8F2..=0xA8FB => AL,
        0xA8FC => BB,
        0xA8FD..=0xA8FE => AL,
        0xA8FF => CM,
        0xA900..=0xA909 => NU,
        0xA90A..=0xA925 => AL,
        0xA926..=0xA92D => CM,
        0xA92E..=0xA92F => BA,
        0xA930..=0xA946 => AL,
        0xA947..=0xA953 => CM,
        0xA954..=0xA95E => XX,
        0xA95F => AL,
        0xA960..=0xA97C => JL,
        0xA97D..=0xA97F => XX,
        0xA980..=0xA983 => CM,
        0xA984..=0xA9B2 => AL,
        _ => CM,
    }
}

/// The classes from U+A9C1 to U+ABE2.
pub open spec fn class_31(code: u32) -> u8 {
    match code {
        _ if code <= 0xA9C6 => AL,
        _ if code <= 0xA9C9 => BA,
        _ if code <= 0xA9CD => AL,
        _ if code <= 0xA9CE => XX,
        _ if code <= 0xA9CF => AL,
        _ if code <= 0xA9D9 => NU,
        _ if code <= 0xA9DD => XX,
        _ if code <= 0xA9DF => AL,
        _ if code <= 0xA9EF => SA,
        _ if code <= 0xA9F9 => NU,
        _ if code <= 0xA9FE => SA,
        _ if code <= 0xA9FF => XX,
        _ if code <= 0xAA28 => AL,
        _ if code <= 0xAA36 => CM,
        _ if code <= 0xAA3F => XX,
        _ if code <= 0xAA42 => AL,
        _ if code <= 0xAA43 => CM,
        _ if code <= 0xAA4B => AL,
        _ if code <= 0xAA4D => CM,
        _ if code <= 0xAA4F => XX,
        _ if code <= 0xAA59 => NU,
        _ if code <= 0xAA5B => XX,
        _ if code <= 0xAA5C => AL,
        _ if code <= 0xAA5F => BA,
        _ if code <= 0xAA76 => SA,
        _ if code <= 0xAA79 => AL,
        _ if code <= 0xAAC2 => SA,
        _ if code <= 0xAADA => XX,
        _ if code <= 0xAADD => SA,
        _ if code <= 0xAAEA => AL,
        _ if code <= 0xAAEF => CM,
        _ if code <= 0xAAF1 => BA,
        _ if code <= 0xAAF4 => AL,
        _ if code <= 0xAAF6 => CM,
        _ if code <= 0xAB00 => XX,
        _ if code <= 0xAB06 => AL,
        _ if code <= 0xAB08 => XX,
        _ if code <= 0xAB0E => AL,
        _ if code <= 0xAB10 => XX,
        _ if code <= 0xAB16 => AL,
        _ if code <= 0xAB1F => XX,
        _ if code <= 0xAB26 => AL,
        _ if code <= 0xAB27 => XX,
        _ if code <= 0xAB2E => AL,
        _ if code <= 0xAB2F => XX,
        _ if code <= 0xAB6B => AL,
        _ if code <= 0xAB6F => XX,
        _ => AL,
    }
}

fn block_31(code: u32) -> (class: u8)
    requires
        0xA9C1 <= code <= 0xABE2,
    ensures
        class == class_31(code),
        is_class(class),
{
    match code {
        0xA9C1..=0xA9C6 => AL,
        0xA9C7..=0xA9C9 => BA,
        0xA9CA..=0xA9CD => AL,
        0xA9CE => XX,
        0xA9CF => AL,
        0xA9D0..=0xA9D9 => NU,
        0xA9DA..=0xA9DD => XX,
        0xA9DE..=0xA9DF => AL,
        0xA9E0..=0xA9EF => SA,
        0xA9F0..=0xA9F9 => NU,
        0xA9FA..=0xA9FE => SA,
        0xA9FF => XX,
        0xAA00..=0xAA28 => AL,
        0xAA29..=0xAA36 => CM,
        0xAA37..=0xAA3F => XX,
        0xAA40..=0xAA42 => AL,
        0xAA43 => CM,
        0xAA44..=0xAA4B => AL,
        0xAA4C..=0xAA4D => CM,
        0xAA4E..=0xAA4F => XX,
        0xAA50..=0xAA59 => NU,
        0xAA5A..=0xAA5B => XX,
        0xAA5C => AL,
        0xAA5D..=0xAA5F => BA,
        0xAA60..=0xAA76 => SA,
        0xAA77..=0xAA79 => AL,
        0xAA7A..=0xAAC2 => SA,
        0xAAC3..=0xAADA => XX,
        0xAADB..=0xAADD => SA,
        0xAADE..=0xAAEA => AL,
        0xAAEB..=0xAAEF => CM,
        0xAAF0..=0xAAF1 => BA,
        0xAAF2..=0xAAF4 => AL,
        0xAAF5..=0xAAF6 => CM,
        0xAAF7..=0xAB00 => XX,
        0xAB01..=0xAB06 => AL,
        0xAB07..=0xAB08 => XX,
        0xAB09..=0xAB0E => AL,
        0xAB0F..=0xAB10 => XX,
        0xAB11..=0xAB16 => AL,
        0xAB17..=0xAB1F => XX,
        0xAB20..=0xAB26 => AL,
        0xAB27 => XX,
        0xAB28..=0xAB2E => AL,
        0xAB2F => XX,
        0xAB30..=0xAB6B => AL,
        0xAB6C..=0xAB6F => XX,
        _ => AL,
    }
}

/// The classes from U+ABE3 to U+FDFF.
pub open spec fn class_32(code: u32) -> u8 {
    match code {
        _ if code <= 0xABEA => CM,
        _ if code <= 0xABEB => BA,
        _ if code <= 0xABED => CM,
        _ if code <= 0xABEF => XX,
        _ if code <= 0xABF9 => NU,
        _ if code <= 0xABFF => XX,
        _ if code <= 0xD7A3 => H3,
        _ if code <= 0xD7AF => XX,
        _ if code <= 0xD7C6 => JV,
        _ if code <= 0xD7CA => XX,
        _ if code <= 0xD7FB => JT,
        _ if code <= 0xD7FF => XX,
        _ if code <= 0xDFFF => SG,
        _ if code <= 0xF8FF => XX,
        _ if code <= 0xFAFF => ID,
        _ if code <= 0xFB06 => AL,
        _ if code <= 0xFB12 => XX,
        _ if code <= 0xFB17 => AL,
        _ if code <= 0xFB1C => XX,
        _ if code <= 0xFB1D => HL,
        _ if code <= 0xFB1E => CM,
        _ if code <= 0xFB28 => HL,
        _ if code <= 0xFB29 => AL,
        _ if code <= 0xFB36 => HL,
        _ if code <= 0xFB37 => XX,
        _ if code <= 0xFB3C => HL,
        _ if code <= 0xFB3D => XX,
        _ if code <= 0xFB3E => HL,
        _ if code <= 0xFB3F => XX,
        _ if code <= 0xFB41 => HL,
        _ if code <= 0xFB42 => XX,
        _ if code <= 0xFB44 => HL,
        _ if code <= 0xFB45 => XX,
        _ if code <= 0xFB4F => HL,
        _ if code <= 0xFBC2 => AL,
        _ if code <= 0xFBD2 => XX,
        _ if code <= 0xFD3D => AL,
        _ if code <= 0xFD3E => CL,
        _ if code <= 0xFD3F => OP,
        _ if code <= 0xFD8F => AL,
        _ if code <= 0xFD91 => XX,
        _ if code <= 0xFDC7 => AL,
        _ if code <= 0xFDCE => XX,
        _ if code <= 0xFDCF => AL,
        _ if code <= 0xFDEF => XX,
        _ if code <= 0xFDFB => AL,
        _ if code <= 0xFDFC => PO,
        _ => AL,
    }
}

fn block_32(code: u32) -> (class: u8)
    requires
        0xABE3 <= code <= 0xFDFF,
    ensures
        class == class_32(code),
        is_class(class),
{
    match code {
        0xABE3..=0xABEA => CM,
        0xABEB => BA,
        0xABEC..=0xABED => CM,
        0xABEE..=0xABEF => XX,
        0xABF0..=0xABF9 => NU,
        0xABFA..=0xABFF => XX,
        0xAC00..=0xD7A3 => H3,
        0xD7A4..=0xD7AF => XX,
        0xD7B0..=0xD7C6 => JV,
        0xD7C7..=0xD7CA => XX,
        0xD7CB..=0xD7FB => JT,
        0xD7FC..=0xD7FF => XX,
        0xD800..=0xDFFF => SG,
        0xE000..=0xF8FF => XX,
        0xF900..=0xFAFF => ID,
        0xFB00..=0xFB06 => AL,
        0xFB07..=0xFB12 => XX,
        0xFB13..=0xFB17 => AL,
        0xFB18..=0xFB1C => XX,
        0xFB1D => HL,
        0xFB1E => CM,
        0xFB1F..=0xFB28 => HL,
        0xFB29 => AL,
        0xFB2A..=0xFB36 => HL,
        0xFB37 => XX,
        0xFB38..=0xFB3C => HL,
        0xFB3D => XX,
        0xFB3E => HL,
        0xFB3F => XX,
        0xFB40..=0xFB41 => HL,
        0xFB42 => XX,
        0xFB43..=0xFB44 => HL,
        0xFB45 => XX,
        0xFB46..=0xFB4F => HL,
        0xFB50..=0xFBC2 => AL,
        0xFBC3..=0xFBD2 => XX,
        0xFBD3..=0xFD3D => AL,
        0xFD3E => CL,
        0xFD3F => OP,
        0xFD40..=0xFD8F => AL,
        0xFD90..=0xFD91 => XX,
        0xFD92..=0xFDC7 => AL,
        0xFDC8..=0xFDCE => XX,
        0xFDCF => AL,
        0xFDD0..=0xFDEF => XX,
        0xFDF0..=0xFDFB => AL,
        0xFDFC => PO,
        _ => AL,
    }
}

/// The classes from U+FE00 to U+FE69.
pub open spec fn class_33(code: u32) -> u8 {
    match code {
        _ if code <= 0xFE0F => CM,
        _ if code <= 0xFE10 => IS,
        _ if code <= 0xFE12 => CL,
        _ if code <= 0xFE14 => IS,
        _ if code <= 0xFE16 => EX,
        _ if code <= 0xFE17 => OP_EA,
        _ if code <= 0xFE18 => CL,
        _ if code <= 0xFE19 => IN,
        _ if code <= 0xFE1F => XX,
        _ if code <= 0xFE2F => CM,
        _ if code <= 0xFE34 => ID,
        _ if code <= 0xFE35 => OP_EA,
        _ if code <= 0xFE36 => CL,
        _ if code <= 0xFE37 => OP_EA,
        _ if code <= 0xFE38 => CL,
        _ if code <= 0xFE39 => OP_EA,
        _ if code <= 0xFE3A => CL,
        _ if code <= 0xFE3B => OP_EA,
        _ if code <= 0xFE3C => CL,
        _ if code <= 0xFE3D => OP_EA,
        _ if code <= 0xFE3E => CL,
        _ if code <= 0xFE3F => OP_EA,
        _ if code <= 0xFE40 => CL,
        _ if code <= 0xFE41 => OP_EA,
        _ if code <= 0xFE42 => CL,
        _ if code <= 0xFE43 => OP_EA,
        _ if code <= 0xFE44 => CL,
        _ if code <= 0xFE46 => ID,
        _ if code <= 0xFE47 => OP_EA,
        _ if code <= 0xFE48 => CL,
        _ if code <= 0xFE4F => ID,
        _ if code <= 0xFE50 => CL,
        _ if code <= 0xFE51 => ID,
        _ if code <= 0xFE52 => CL,
        _ if code <= 0xFE53 => XX,
        _ if code <= 0xFE55 => NS,
        _ if code <= 0xFE57 => EX,
        _ if code <= 0xFE58 => ID,
        _ if code <= 0xFE59 => OP_EA,
        _ if code <= 0xFE5A => CL,
        _ if code <= 0xFE5B => OP_EA,
        _ if code <= 0xFE5C => CL,
        _ if code <= 0xFE5D => OP_EA,
        _ if code <= 0xFE5E => CL,
        _ if code <= 0xFE66 => ID,
        _ if code <= 0xFE67 => XX,
        _ if code <= 0xFE68 => ID,
        _ => PR,
    }
}

fn block_33(code: u32) -> (class: u8)
    requires
        0xFE00 <= code <= 0xFE69,
    ensures
        class == class_33(code),
        is_class(class),
{
    match code {
        0xFE00..=0xFE0F => CM,
        0xFE10 => IS,
        0xFE11..=0xFE12 => CL,
        0xFE13..=0xFE14 => IS,
        0xFE15..=0xFE16 => EX,
        0xFE17 => OP_EA,
        0xFE18 => CL,
        0xFE19 => IN,
        0xFE1A..=0xFE1F => XX,
        0xFE20..=0xFE2F => CM,
        0xFE30..=0xFE34 => ID,
        0xFE35 => OP_EA,
        0xFE36 => CL,
        0xFE37 => OP_EA,
        0xFE38 => CL,
        0xFE39 => OP_EA,
        0xFE3A => CL,
        0xFE3B => OP_EA,
        0xFE3C => CL,
        0xFE3D => OP_EA,
        0xFE3E => CL,
        0xFE3F => OP_EA,
        0xFE40 => CL,
        0xFE41 => OP_EA,
        0xFE42 => CL,
        0xFE43 => OP_EA,
        0xFE44 => CL,
        0xFE45..=0xFE46 => ID,
        0xFE47 => OP_EA,
        0xFE48 => CL,
        0xFE49..=0xFE4F => ID,
        0xFE50 => CL,
        0xFE51 => ID,
        0xFE52 => CL,
        0xFE53 => XX,
        0xFE54..=0xFE55 => NS,
        0xFE56..=0xFE57 => EX,
        0xFE58 => ID,
        0xFE59 => OP_EA,
        0xFE5A => CL,
        0xFE5B => OP_EA,
        0xFE5C => CL,
        0xFE5D => OP_EA,
        0xFE5E => CL,
        0xFE5F..=0xFE66 => ID,
        0xFE67 => XX,
        0xFE68 => ID,
        _ => PR,
    }
}

/// The classes from U+FE6A to U+FFD1.
pub open spec fn class_34(code: u32) -> u8 {
    match code {
        _ if code <= 0xFE6A => PO,
        _ if code <= 0xFE6B => ID,
        _ if code <= 0xFE6F => XX,
        _ if code <= 0xFE74 => AL,
        _ if code <= 0xFE75 => XX,
        _ if code <= 0xFEFC => AL,
        _ if code <= 0xFEFE => XX,
        _ if code <= 0xFEFF => WJ,
        _ if code <= 0xFF00 => XX,
        _ if code <= 0xFF01 => EX,
        _ if code <= 0xFF03 => ID,
        _ if code <= 0xFF04 => PR,
        _ if code <= 0xFF05 => PO,
        _ if code <= 0xFF07 => ID,
        _ if code <= 0xFF08 => OP_EA,
        _ if code <= 0xFF09 => CL,
        _ if code <= 0xFF0B => ID,
        _ if code <= 0xFF0C => CL,
        _ if code <= 0xFF0D => ID,
        _ if code <= 0xFF0E => CL,
        _ if code <= 0xFF19 => ID,
        _ if code <= 0xFF1B => NS,
        _ if code <= 0xFF1E => ID,
        _ if code <= 0xFF1F => EX,
        _ if code <= 0xFF3A => ID,
        _ if code <= 0xFF3B => OP_EA,
        _ if code <= 0xFF3C => ID,
        _ if code <= 0xFF3D => CL,
        _ if code <= 0xFF5A => ID,
        _ if code <= 0xFF5B => OP_EA,
        _ if code <= 0xFF5C => ID,
        _ if code <= 0xFF5D => CL,
        _ if code <= 0xFF5E => ID,
        _ if code <= 0xFF5F => OP_EA,
        _ if code <= 0xFF61 => CL,
        _ if code <= 0xFF62 => OP_EA,
        _ if code <= 0xFF64 => CL,
        _ if code <= 0xFF65 => NS,
        _ if code <= 0xFF66 => ID,
        _ if code <= 0xFF70 => CJ,
        _ if code <= 0xFF9D => ID,
        _ if code <= 0xFF9F => NS,
        _ if code <= 0xFFBE => ID,
        _ if code <= 0xFFC1 => XX,
        _ if code <= 0xFFC7 => ID,
        _ if code <= 0xFFC9 => XX,
        _ if code <= 0xFFCF => ID,
        _ => XX,
    }
}

fn block_34(code: u32) -> (class: u8)
    requires
        0xFE6A <= code <= 0xFFD1,
    ensures
        class == class_34(code),
        is_class(class),
{
    match code {
        0xFE6A => PO,
        0xFE6B => ID,
        0xFE6C..=0xFE6F => XX,
        0xFE70..=0xFE74 => AL,
        0xFE75 => XX,
        0xFE76..=0xFEFC => AL,
        0xFEFD..=0xFEFE => XX,
        0xFEFF => WJ,
        0xFF00 => XX,
        0xFF01 => EX,
        0xFF02..=0xFF03 => ID,
        0xFF04 => PR,
        0xFF05 => PO,
        0xFF06..=0xFF07 => ID,
        0xFF08 => OP_EA,
        0xFF09 => CL,
        0xFF0A..=0xFF0B => ID,
        0xFF0C => CL,
        0xFF0D => ID,
        0xFF0E => CL,
        0xFF0F..=0xFF19 => ID,
        0xFF1A..=0xFF1B => NS,
        0xFF1C..=0xFF1E => ID,
        0xFF1F => EX,
        0xFF20..=0xFF3A => ID,
        0xFF3B => OP_EA,
        0xFF3C => ID,
        0xFF3D => CL,
        0xFF3E..=0xFF5A => ID,
        0xFF5B => OP_EA,
        0xFF5C => ID,
        0xFF5D => CL,
        0xFF5E => ID,
        0xFF5F => OP_EA,
        0xFF60..=0xFF61 => CL,
        0xFF62 => OP_EA,
        0xFF63..=0xFF64 => CL,
        0xFF65 => NS,
        0xFF66 => ID,
        0xFF67..=0xFF70 => CJ,
        0xFF71..=0xFF9D => ID,
        0xFF9E..=0xFF9F => NS,
        0xFFA0..=0xFFBE => ID,
        0xFFBF..=0xFFC1 => XX,
        0xFFC2..=0xFFC7 => ID,
        0xFFC8..=0xFFC9 => XX,
        0xFFCA..=0xFFCF => ID,
        _ => XX,
    }
}

/// The classes from U+FFD2 to U+102FB.
pub open spec fn class_35(code: u32) -> u8 {
    match code {
        _ if code <= 0xFFD7 => ID,
        _ if code <= 0xFFD9 => XX,
        _ if code <= 0xFFDC => ID,
        _ if code <= 0xFFDF => XX,
        _ if code <= 0xFFE0 => PO,
        _ if code <= 0xFFE1 => PR,
        _ if code <= 0xFFE4 => ID,
        _ if code <= 0xFFE6 => PR,
        _ if code <= 0xFFE7 => XX,
        _ if code <= 0xFFEE => AL,
        _ if code <= 0xFFF8 => XX,
        _ if code <= 0xFFFB => CM,
        _ if code <= 0xFFFC => CB,
        _ if code <= 0xFFFD => AI,
        _ if code <= 0xFFFF => XX,
        _ if code <= 0x1000B => AL,
        _ if code <= 0x1000C => XX,
        _ if code <= 0x10026 => AL,
        _ if code <= 0x10027 => XX,
        _ if code <= 0x1003A => AL,
        _ if code <= 0x1003B => XX,
        _ if code <= 0x1003D => AL,
        _ if code <= 0x1003E => XX,
        _ if code <= 0x1004D => AL,
        _ if code <= 0x1004F => XX,
        _ if code <= 0x1005D => AL,
        _ if code <= 0x1007F => XX,
        _ if code <= 0x100FA => AL,
        _ if code <= 0x100FF => XX,
        _ if code <= 0x10102 => BA,
        _ if code <= 0x10106 => XX,
        _ if code <= 0x10133 => AL,
        _ if code <= 0x10136 => XX,
        _ if code <= 0x1018E => AL,
        _ if code <= 0x1018F => XX,
        _ if code <= 0x1019C => AL,
        _ if code <= 0x1019F => XX,
        _ if code <= 0x101A0 => AL,
        _ if code <= 0x101CF => XX,
        _ if code <= 0x101FC => AL,
        _ if code <= 0x101FD => CM,
        _ if code <= 0x1027F => XX,
        _ if code <= 0x1029C => AL,
        _ if code <= 0x1029F => XX,
        _ if code <= 0x102D0 => AL,
        _ if code <= 0x102DF => XX,
        _ if code <= 0x102E0 => CM,
        _ => AL,
    }
}

fn block_35(code: u32) -> (class: u8)
    requires
        0xFFD2 <= code <= 0x102FB,
    ensures
        class == class_35(code),
        is_class(class),
{
    match code {
        0xFFD2..=0xFFD7 => ID,
        0xFFD8..=0xFFD9 => XX,
        0xFFDA..=0xFFDC => ID,
        0xFFDD..=0xFFDF => XX,
        0xFFE0 => PO,
        0xFFE1 => PR,
        0xFFE2..=0xFFE4 => ID,
        0xFFE5..=0xFFE6 => PR,
        0xFFE7 => XX,
        0xFFE8..=0xFFEE => AL,
        0xFFEF..=0xFFF8 => XX,
        0xFFF9..=0xFFFB => CM,
        0xFFFC => CB,
        0xFFFD => AI,
        0xFFFE..=0xFFFF => XX,
        0x10000..=0x1000B => AL,
        0x1000C => XX,
        0x1000D..=0x10026 => AL,
        0x10027 => XX,
        0x10028..=0x1003A => AL,
        0x1003B => XX,
        0x1003C..=0x1003D => AL,
        0x1003E => XX,
        0x1003F..=0x1004D => AL,
        0x1004E..=0x1004F => XX,
        0x10050..=0x1005D => AL,
        0x1005E..=0x1007F => XX,
        0x10080..=0x100FA => AL,
        0x100FB..=0x100FF => XX,
        0x10100..=0x10102 => BA,
        0x10103..=0x10106 => XX,
        0x10107..=0x10133 => AL,
        0x10134..=0x10136 => XX,
        0x10137..=0x1018E => AL,
        0x1018F => XX,
        0x10190..=0x1019C => AL,
        0x1019D..=0x1019F => XX,
        0x101A0 => AL,
        0x101A1..=0x101CF => XX,
        0x101D0..=0x101FC => AL,
        0x101FD => CM,
        0x101FE..=0x1027F => XX,
        0x10280..=0x1029C => AL,
        0x1029D..=0x1029F => XX,
        0x102A0..=0x102D0 => AL,
        0x102D1..=0x102DF => XX,
        0x102E0 => CM,
        _ => AL,
    }
}

/// The classes from U+102FC to U+10755.
pub open spec fn class_36(code: u32) -> u8 {
    match code {
        _ if code <= 0x102FF => XX,
        _ if code <= 0x10323 => AL,
        _ if code <= 0x1032C => XX,
        _ if code <= 0x1034A => AL,
        _ if code <= 0x1034F => XX,
        _ if code <= 0x10375 => AL,
        _ if code <= 0x1037A => CM,
        _ if code <= 0x1037F => XX,
        _ if code <= 0x1039D => AL,
        _ if code <= 0x1039E => XX,
        _ if code <= 0x1039F => BA,
        _ if code <= 0x103C3 => AL,
        _ if code <= 0x103C7 => XX,
        _ if code <= 0x103CF => AL,
        _ if code <= 0x103D0 => BA,
        _ if code <= 0x103D5 => AL,
        _ if code <= 0x103FF => XX,
        _ if code <= 0x1049D => AL,
        _ if code <= 0x1049F => XX,
        _ if code <= 0x104A9 => NU,
        _ if code <= 0x104AF => XX,
        _ if code <= 0x104D3 => AL,
        _ if code <= 0x104D7 => XX,
        _ if code <= 0x104FB => AL,
        _ if code <= 0x104FF => XX,
        _ if code <= 0x10527 => AL,
        _ if code <= 0x1052F => XX,
        _ if code <= 0x10563 => AL,
        _ if code <= 0x1056E => XX,
        _ if code <= 0x1057A => AL,
        _ if code <= 0x1057B => XX,
        _ if code <= 0x1058A => AL,
        _ if code <= 0x1058B => XX,
        _ if code <= 0x10592 => AL,
        _ if code <= 0x10593 => XX,
        _ if code <= 0x10595 => AL,
        _ if code <= 0x10596 => XX,
        _ if code <= 0x105A1 => AL,
        _ if code <= 0x105A2 => XX,
        _ if code <= 0x105B1 => AL,
        _ if code <= 0x105B2 => XX,
        _ if code <= 0x105B9 => AL,
        _ if code <= 0x105BA => XX,
        _ if code <= 0x105BC => AL,
        _ if code <= 0x105FF => XX,
        _ if code <= 0x10736 => AL,
        _ if code <= 0x1073F => XX,
        _ => AL,
    }
}

fn block_36(code: u32) -> (class: u8)
    requires
        0x102FC <= code <= 0x10755,
    ensures
        class == class_36(code),
        is_class(class),
{
    match code {
        0x102FC..=0x102FF => XX,
        0x10300..=0x10323 => AL,
        0x10324..=0x1032C => XX,
        0x1032D..=0x1034A => AL,
        0x1034B..=0x1034F => XX,
        0x10350..=0x10375 => AL,
        0x10376..=0x1037A => CM,
        0x1037B..=0x1037F => XX,
        0x10380..=0x1039D => AL,
        0x1039E => XX,
        0x1039F => BA,
        0x103A0..=0x103C3 => AL,
        0x103C4..=0x103C7 => XX,
        0x103C8..=0x103CF => AL,
        0x103D0 => BA,
        0x103D1..=0x103D5 => AL,
        0x103D6..=0x103FF => XX,
        0x10400..=0x1049D => AL,
        0x1049E..=0x1049F => XX,
        0x104A0..=0x104A9 => NU,
        0x104AA..=0x104AF => XX,
        0x104B0..=0x104D3 => AL,
        0x104D4..=0x104D7 => XX,
        0x104D8..=0x104FB => AL,
        0x104FC..=0x104FF => XX,
        0x10500..=0x10527 => AL,
        0x10528..=0x1052F => XX,
        0x10530..=0x10563 => AL,
        0x10564..=0x1056E => XX,
        0x1056F..=0x1057A => AL,
        0x1057B => XX,
        0x1057C..=0x1058A => AL,
        0x1058B => XX,
        0x1058C..=0x10592 => AL,
        0x10593 => XX,
        0x10594..=0x10595 => AL,
        0x10596 => XX,
        0x10597..=0x105A1 => AL,
        0x105A2 => XX,
        0x105A3..=0x105B1 => AL,
        0x105B2 => XX,
        0x105B3..=0x105B9 => AL,
        0x105BA => XX,
        0x105BB..=0x105BC => AL,
        0x105BD..=0x105FF => XX,
        0x10600..=0x10736 => AL,
        0x10737..=0x1073F => XX,
        _ => AL,
    }
}

/// The classes from U+10756 to U+10A13.
pub open spec fn class_37(code: u32) -> u8 {
    match code {
        _ if code <= 0x1075F => XX,
        _ if code <= 0x10767 => AL,
        _ if code <= 0x1077F => XX,
        _ if code <= 0x10785 => AL,
        _ if code <= 0x10786 => XX,
        _ if code <= 0x107B0 => AL,
        _ if code <= 0x107B1 => XX,
        _ if code <= 0x107BA => AL,
        _ if code <= 0x107FF => XX,
        _ if code <= 0x10805 => AL,
        _ if code <= 0x10807 => XX,
        _ if code <= 0x10808 => AL,
        _ if code <= 0x10809 => XX,
        _ if code <= 0x10835 => AL,
        _ if code <= 0x10836 => XX,
        _ if code <= 0x10838 => AL,
        _ if code <= 0x1083B => XX,
        _ if code <= 0x1083C => AL,
        _ if code <= 0x1083E => XX,
        _ if code <= 0x10855 => AL,
        _ if code <= 0x10856 => XX,
        _ if code <= 0x10857 => BA,
        _ if code <= 0x1089E => AL,
        _ if code <= 0x108A6 => XX,
        _ if code <= 0x108AF => AL,
        _ if code <= 0x108DF => XX,
        _ if code <= 0x108F2 => AL,
        _ if code <= 0x108F3 => XX,
        _ if code <= 0x108F5 => AL,
        _ if code <= 0x108FA => XX,
        _ if code <= 0x1091B => AL,
        _ if code <= 0x1091E => XX,
        _ if code <= 0x1091F => BA,
        _ if code <= 0x10939 => AL,
        _ if code <= 0x1093E => XX,
        _ if code <= 0x1093F => AL,
        _ if code <= 0x1097F => XX,
        _ if code <= 0x109B7 => AL,
        _ if code <= 0x109BB => XX,
        _ if code <= 0x109CF => AL,
        _ if code <= 0x109D1 => XX,
        _ if code <= 0x10A00 => AL,
        _ if code <= 0x10A03 => CM,
        _ if code <= 0x10A04 => XX,
        _ if code <= 0x10A06 => CM,
        _ if code <= 0x10A0B => XX,
        _ if code <= 0x10A0F => CM,
        _ => AL,
    }
}

fn block_37(code: u32) -> (class: u8)
    requires
        0x10756 <= code <= 0x10A13,
    ensures
        class == class_37(code),
        is_class(class),
{
    match code {
        0x10756..=0x1075F => XX,
        0x10760..=0x10767 => AL,
        0x10768..=0x1077F => XX,
        0x10780..=0x10785 => AL,
        0x10786 => XX,
        0x10787..=0x107B0 => AL,
        0x107B1 => XX,
        0x107B2..=0x107BA => AL,
        0x107BB..=0x107FF => XX,
        0x10800..=0x10805 => AL,
        0x10806..=0x10807 => XX,
        0x10808 => AL,
        0x10809 => XX,
        0x1080A..=0x10835 => AL,
        0x10836 => XX,
        0x10837..=0x10838 => AL,
        0x10839..=0x1083B => XX,
        0x1083C => AL,
        0x1083D..=0x1083E => XX,
        0x1083F..=0x10855 => AL,
        0x10856 => XX,
        0x10857 => BA,
        0x10858..=0x1089E => AL,
        0x1089F..=0x108A6 => XX,
        0x108A7..=0x108AF => AL,
        0x108B0..=0x108DF => XX,
        0x108E0..=0x108F2 => AL,
        0x108F3 => XX,
        0x108F4..=0x108F5 => AL,
        0x108F6..=0x108FA => XX,
        0x108FB..=0x1091B => AL,
        0x1091C..=0x1091E => XX,
        0x1091F => BA,
        0x10920..=0x10939 => AL,
        0x1093A..=0x1093E => XX,
        0x1093F => AL,
        0x10940..=0x1097F => XX,
        0x10980..=0x109B7 => AL,
        0x109B8..=0x109BB => XX,
        0x109BC..=0x109CF => AL,
        0x109D0..=0x109D1 => XX,
        0x109D2..=0x10A00 => AL,
        0x10A01..=0x10A03 => CM,
        0x10A04 => XX,
        0x10A05..=0x10A06 => CM,
        0x10A07..=0x10A0B => XX,
        0x10A0C..=0x10A0F => CM,
        _ => AL,
    }
}

/// The classes from U+10A14 to U+10E7F.
pub open spec fn class_38(code: u32) -> u8 {
    match code {
        _ if code <= 0x10A14 => XX,
        _ if code <= 0x10A17 => AL,
        _ if code <= 0x10A18 => XX,
        _ if code <= 0x10A35 => AL,
        _ if code <= 0x10A37 => XX,
        _ if code <= 0x10A3A => CM,
        _ if code <= 0x10A3E => XX,
        _ if code <= 0x10A3F => CM,
        _ if code <= 0x10A48 => AL,
        _ if code <= 0x10A4F => XX,
        _ if code <= 0x10A57 => BA,
        _ if code <= 0x10A58 => AL,
        _ if code <= 0x10A5F => XX,
        _ if code <= 0x10A9F => AL,
        _ if code <= 0x10ABF => XX,
        _ if code <= 0x10AE4 => AL,
        _ if code <= 0x10AE6 => CM,
        _ if code <= 0x10AEA => XX,
        _ if code <= 0x10AEF => AL,
        _ if code <= 0x10AF5 => BA,
        _ if code <= 0x10AF6 => IN,
        _ if code <= 0x10AFF => XX,
        _ if code <= 0x10B35 => AL,
        _ if code <= 0x10B38 => XX,
        _ if code <= 0x10B3F => BA,
        _ if code <= 0x10B55 => AL,
        _ if code <= 0x10B57 => XX,
        _ if code <= 0x10B72 => AL,
        _ if code <= 0x10B77 => XX,
        _ if code <= 0x10B91 => AL,
        _ if code <= 0x10B98 => XX,
        _ if code <= 0x10B9C => AL,
        _ if code <= 0x10BA8 => XX,
        _ if code <= 0x10BAF => AL,
        _ if code <= 0x10BFF => XX,
        _ if code <= 0x10C48 => AL,
        _ if code <= 0x10C7F => XX,
        _ if code <= 0x10CB2 => AL,
        _ if code <= 0x10CBF => XX,
        _ if code <= 0x10CF2 => AL,
        _ if code <= 0x10CF9 => XX,
        _ if code <= 0x10D23 => AL,
        _ if code <= 0x10D27 => CM,
        _ if code <= 0x10D2F => XX,
        _ if code <= 0x10D39 => NU,
        _ if code <= 0x10E5F => XX,
        _ if code <= 0x10E7E => AL,
        _ => XX,
    }
}

fn block_38(code: u32) -> (class: u8)
    requires
        0x10A14 <= code <= 0x10E7F,
    ensures
        class == class_38(code),
        is_class(class),
{
    match code {
        0x10A14 => XX,
        0x10A15..=0x10A17 => AL,
        0x10A18 => XX,
        0x10A19..=0x10A35 => AL,
        0x10A36..=0x10A37 => XX,
        0x10A38..=0x10A3A => CM,
        0x10A3B..=0x10A3E => XX,
        0x10A3F => CM,
        0x10A40..=0x10A48 => AL,
        0x10A49..=0x10A4F => XX,
        0x10A50..=0x10A57 => BA,
        0x10A58 => AL,
        0x10A59..=0x10A5F => XX,
        0x10A60..=0x10A9F => AL,
        0x10AA0..=0x10ABF => XX,
        0x10AC0..=0x10AE4 => AL,
        0x10AE5..=0x10AE6 => CM,
        0x10AE7..=0x10AEA => XX,
        0x10AEB..=0x10AEF => AL,
        0x10AF0..=0x10AF5 => BA,
        0x10AF6 => IN,
        0x10AF7..=0x10AFF => XX,
        0x10B00..=0x10B35 => AL,
        0x10B36..=0x10B38 => XX,
        0x10B39..=0x10B3F => BA,
        0x10B40..=0x10B55 => AL,
        0x10B56..=0x10B57 => XX,
        0x10B58..=0x10B72 => AL,
        0x10B73..=0x10B77 => XX,
        0x10B78..=0x10B91 => AL,
        0x10B92..=0x10B98 => XX,
        0x10B99..=0x10B9C => AL,
        0x10B9D..=0x10BA8 => XX,
        0x10BA9..=0x10BAF => AL,
        0x10BB0..=0x10BFF => XX,
        0x10C00..=0x10C48 => AL,
        0x10C49..=0x10C7F => XX,
        0x10C80..=0x10CB2 => AL,
        0x10CB3..=0x10CBF => XX,
        0x10CC0..=0x10CF2 => AL,
        0x10CF3..=0x10CF9 => XX,
        0x10CFA..=0x10D23 => AL,
        0x10D24..=0x10D27 => CM,
        0x10D28..=0x10D2F => XX,
        0x10D30..=0x10D39 => NU,
        0x10D3A..=0x10E5F => XX,
        0x10E60..=0x10E7E => AL,
        _ => XX,
    }
}

/// The classes from U+10E80 to U+11102.
pub open spec fn class_39(code: u32) -> u8 {
    match code {
        _ if code <= 0x10EA9 => AL,
        _ if code <= 0x10EAA => XX,
        _ if code <= 0x10EAC => CM,
        _ if code <= 0x10EAD => BA,
        _ if code <= 0x10EAF => XX,
        _ if code <= 0x10EB1 => AL,
        _ if code <= 0x10EFF => XX,
        _ if code <= 0x10F27 => AL,
        _ if code <= 0x10F2F => XX,
        _ if code <= 0x10F45 => AL,
        _ if code <= 0x10F50 => CM,
        _ if code <= 0x10F59 => AL,
        _ if code <= 0x10F6F => XX,
        _ if code <= 0x10F81 => AL,
        _ if code <= 0x10F85 => CM,
        _ if code <= 0x10F89 => AL,
        _ if code <= 0x10FAF => XX,
        _ if code <= 0x10FCB => AL,
        _ if code <= 0x10FDF => XX,
        _ if code <= 0x10FF6 => AL,
        _ if code <= 0x10FFF => XX,
        _ if code <= 0x11002 => CM,
        _ if code <= 0x11037 => AL,
        _ if code <= 0x11046 => CM,
        _ if code <= 0x11048 => BA,
        _ if code <= 0x1104D => AL,
        _ if code <= 0x11051 => XX,
        _ if code <= 0x11065 => AL,
        _ if code <= 0x1106F => NU,
        _ if code <= 0x11070 => CM,
        _ if code <= 0x11072 => AL,
        _ if code <= 0x11074 => CM,
        _ if code <= 0x11075 => AL,
        _ if code <= 0x1107E => XX,
        _ if code <= 0x11082 => CM,
        _ if code <= 0x110AF => AL,
        _ if code <= 0x110BA => CM,
        _ if code <= 0x110BD => AL,
        _ if code <= 0x110C1 => BA,
        _ if code <= 0x110C2 => CM,
        _ if code <= 0x110CC => XX,
        _ if code <= 0x110CD => AL,
        _ if code <= 0x110CF => XX,
        _ if code <= 0x110E8 => AL,
        _ if code <= 0x110EF => XX,
        _ if code <= 0x110F9 => NU,
        _ if code <= 0x110FF => XX,
        _ => CM,
    }
}

fn block_39(code: u32) -> (class: u8)
    requires
        0x10E80 <= code <= 0x11102,
    ensures
        class == class_39(code),
        is_class(class),
{
    match code {
        0x10E80..=0x10EA9 => AL,
        0x10EAA => XX,
        0x10EAB..=0x10EAC => CM,
        0x10EAD => BA,
        0x10EAE..=0x10EAF => XX,
        0x10EB0..=0x10EB1 => AL,
        0x10EB2..=0x10EFF => XX,
        0x10F00..=0x10F27 => AL,
        0x10F28..=0x10F2F => XX,
        0x10F30..=0x10F45 => AL,
        0x10F46..=0x10F50 => CM,
        0x10F51..=0x10F59 => AL,
        0x10F5A..=0x10F6F => XX,
        0x10F70..=0x10F81 => AL,
        0x10F82..=0x10F85 => CM,
        0x10F86..=0x10F89 => AL,
        0x10F8A..=0x10FAF => XX,
        0x10FB0..=0x10FCB => AL,
        0x10FCC..=0x10FDF => XX,
        0x10FE0..=0x10FF6 => AL,
        0x10FF7..=0x10FFF => XX,
        0x11000..=0x11002 => CM,
        0x11003..=0x11037 => AL,
        0x11038..=0x11046 => CM,
        0x11047..=0x11048 => BA,
        0x11049..=0x1104D => AL,
        0x1104E..=0x11051 => XX,
        0x11052..=0x11065 => AL,
        0x11066..=0x1106F => NU,
        0x11070 => CM,
        0x11071..=0x11072 => AL,
        0x11073..=0x11074 => CM,
        0x11075 => AL,
        0x11076..=0x1107E => XX,
        0x1107F..=0x11082 => CM,
        0x11083..=0x110AF => AL,
        0x110B0..=0x110BA => CM,
        0x110BB..=0x110BD => AL,
        0x110BE..=0x110C1 => BA,
        0x110C2 => CM,
        0x110C3..=0x110CC => XX,
        0x110CD => AL,
        0x110CE..=0x110CF => XX,
        0x110D0..=0x110E8 => AL,
        0x110E9..=0x110EF => XX,
        0x110F0..=0x110F9 => NU,
        0x110FA..=0x110FF => XX,
        _ => CM,
    }
}

/// The classes from U+11103 to U+1128D.
pub open spec fn class_40(code: u32) -> u8 {
    match code {
        _ if code <= 0x11126 => AL,
        _ if code <= 0x11134 => CM,
        _ if code <= 0x11135 => XX,
        _ if code <= 0x1113F => NU,
        _ if code <= 0x11143 => BA,
        _ if code <= 0x11144 => AL,
        _ if code <= 0x11146 => CM,
        _ if code <= 0x11147 => AL,
        _ if code <= 0x1114F => XX,
        _ if code <= 0x11172 => AL,
        _ if code <= 0x11173 => CM,
        _ if code <= 0x11174 => AL,
        _ if code <= 0x11175 => BB,
        _ if code <= 0x11176 => AL,
        _ if code <= 0x1117F => XX,
        _ if code <= 0x11182 => CM,
        _ if code <= 0x111B2 => AL,
        _ if code <= 0x111C0 => CM,
        _ if code <= 0x111C4 => AL,
        _ if code <= 0x111C6 => BA,
        _ if code <= 0x111C7 => AL,
        _ if code <= 0x111C8 => BA,
        _ if code <= 0x111CC => CM,
        _ if code <= 0x111CD => AL,
        _ if code <= 0x111CF => CM,
        _ if code <= 0x111D9 => NU,
        _ if code <= 0x111DA => AL,
        _ if code <= 0x111DB => BB,
        _ if code <= 0x111DC => AL,
        _ if code <= 0x111DF => BA,
        _ if code <= 0x111E0 => XX,
        _ if code <= 0x111F4 => AL,
        _ if code <= 0x111FF => XX,
        _ if code <= 0x11211 => AL,
        _ if code <= 0x11212 => XX,
        _ if code <= 0x1122B => AL,
        _ if code <= 0x11237 => CM,
        _ if code <= 0x11239 => BA,
        _ if code <= 0x1123A => AL,
        _ if code <= 0x1123C => BA,
        _ if code <= 0x1123D => AL,
        _ if code <= 0x1123E => CM,
        _ if code <= 0x1127F => XX,
        _ if code <= 0x11286 => AL,
        _ if code <= 0x11287 => XX,
        _ if code <= 0x11288 => AL,
        _ if code <= 0x11289 => XX,
        _ => AL,
    }
}

fn block_40(code: u32) -> (class: u8)
    requires
        0x11103 <= code <= 0x1128D,
    ensures
        class == class_40(code),
        is_class(class),
{
    match code {
        0x11103..=0x11126 => AL,
        0x11127..=0x11134 => CM,
        0x11135 => XX,
        0x11136..=0x1113F => NU,
        0x11140..=0x11143 => BA,
        0x11144 => AL,
        0x11145..=0x11146 => CM,
        0x11147 => AL,
        0x11148..=0x1114F => XX,
        0x11150..=0x11172 => AL,
        0x11173 => CM,
        0x11174 => AL,
        0x11175 => BB,
        0x11176 => AL,
        0x11177..=0x1117F => XX,
        0x11180..=0x11182 => CM,
        0x11183..=0x111B2 => AL,
        0x111B3..=0x111C0 => CM,
        0x111C1..=0x111C4 => AL,
        0x111C5..=0x111C6 => BA,
        0x111C7 => AL,
        0x111C8 => BA,
        0x111C9..=0x111CC => CM,
        0x111CD => AL,
        0x111CE..=0x111CF => CM,
        0x111D0..=0x111D9 => NU,
        0x111DA => AL,
        0x111DB => BB,
        0x111DC => AL,
        0x111DD..=0x111DF => BA,
        0x111E0 => XX,
        0x111E1..=0x111F4 => AL,
        0x111F5..=0x111FF => XX,
        0x11200..=0x11211 => AL,
        0x11212 => XX,
        0x11213..=0x1122B => AL,
        0x1122C..=0x11237 => CM,
        0x11238..=0x11239 => BA,
        0x1123A => AL,
        0x1123B..=0x1123C => BA,
        0x1123D => AL,
        0x1123E => CM,
        0x1123F..=0x1127F => XX,
        0x11280..=0x11286 => AL,
        0x11287 => XX,
        0x11288 => AL,
        0x11289 => XX,
        _ => AL,
    }
}

/// The classes from U+1128E to U+1144E.
pub open spec fn class_41(code: u32) -> u8 {
    match code {
        _ if code <= 0x1128E => XX,
        _ if code <= 0x1129D => AL,
        _ if code <= 0x1129E => XX,
        _ if code <= 0x112A8 => AL,
        _ if code <= 0x112A9 => BA,
        _ if code <= 0x112AF => XX,
        _ if code <= 0x112DE => AL,
        _ if code <= 0x112EA => CM,
        _ if code <= 0x112EF => XX,
        _ if code <= 0x112F9 => NU,
        _ if code <= 0x112FF => XX,
        _ if code <= 0x11303 => CM,
        _ if code <= 0x11304 => XX,
        _ if code <= 0x1130C => AL,
        _ if code <= 0x1130E => XX,
        _ if code <= 0x11310 => AL,
        _ if code <= 0x11312 => XX,
        _ if code <= 0x11328 => AL,
        _ if code <= 0x11329 => XX,
        _ if code <= 0x11330 => AL,
        _ if code <= 0x11331 => XX,
        _ if code <= 0x11333 => AL,
        _ if code <= 0x11334 => XX,
        _ if code <= 0x11339 => AL,
        _ if code <= 0x1133A => XX,
        _ if code <= 0x1133C => CM,
        _ if code <= 0x1133D => AL,
        _ if code <= 0x11344 => CM,
        _ if code <= 0x11346 => XX,
        _ if code <= 0x11348 => CM,
        _ if code <= 0x1134A => XX,
        _ if code <= 0x1134D => CM,
        _ if code <= 0x1134F => XX,
        _ if code <= 0x11350 => AL,
        _ if code <= 0x11356 => XX,
        _ if code <= 0x11357 => CM,
        _ if code <= 0x1135C => XX,
        _ if code <= 0x11361 => AL,
        _ if code <= 0x11363 => CM,
        _ if code <= 0x11365 => XX,
        _ if code <= 0x1136C => CM,
        _ if code <= 0x1136F => XX,
        _ if code <= 0x11374 => CM,
        _ if code <= 0x113FF => XX,
        _ if code <= 0x11434 => AL,
        _ if code <= 0x11446 => CM,
        _ if code <= 0x1144A => AL,
        _ => BA,
    }
}

fn block_41(code: u32) -> (class: u8)
    requires
        0x1128E <= code <= 0x1144E,
    ensures
        class == class_41(code),
        is_class(class),
{
    match code {
        0x1128E => XX,
        0x1128F..=0x1129D => AL,
        0x1129E => XX,
        0x1129F..=0x112A8 => AL,
        0x112A9 => BA,
        0x112AA..=0x112AF => XX,
        0x112B0..=0x112DE => AL,
        0x112DF..=0x112EA => CM,
        0x112EB..=0x112EF => XX,
        0x112F0..=0x112F9 => NU,
        0x112FA..=0x112FF => XX,
        0x11300..=0x11303 => CM,
        0x11304 => XX,
        0x11305..=0x1130C => AL,
        0x1130D..=0x1130E => XX,
        0x1130F..=0x11310 => AL,
        0x11311..=0x11312 => XX,
        0x11313..=0x11328 => AL,
        0x11329 => XX,
        0x1132A..=0x11330 => AL,
        0x11331 => XX,
        0x11332..=0x11333 => AL,
        0x11334 => XX,
        0x11335..=0x11339 => AL,
        0x1133A => XX,
        0x1133B..=0x1133C => CM,
        0x1133D => AL,
        0x1133E..=0x11344 => CM,
        0x11345..=0x11346 => XX,
        0x11347..=0x11348 => CM,
        0x11349..=0x1134A => XX,
        0x1134B..=0x1134D => CM,
        0x1134E..=0x1134F => XX,
        0x11350 => AL,
        0x11351..=0x11356 => XX,
        0x11357 => CM,
        0x11358..=0x1135C => XX,
        0x1135D..=0x11361 => AL,
        0x11362..=0x11363 => CM,
        0x11364..=0x11365 => XX,
        0x11366..=0x1136C => CM,
        0x1136D..=0x1136F => XX,
        0x11370..=0x11374 => CM,
        0x11375..=0x113FF => XX,
        0x11400..=0x11434 => AL,
        0x11435..=0x11446 => CM,
        0x11447..=0x1144A => AL,
        _ => BA,
    }
}

/// The classes from U+1144F to U+1173E.
pub open spec fn class_42(code: u32) -> u8 {
    match code {
        _ if code <= 0x1144F => AL,
        _ if code <= 0x11459 => NU,
        _ if code <= 0x1145B => BA,
        _ if code <= 0x1145C => XX,
        _ if code <= 0x1145D => AL,
        _ if code <= 0x1145E => CM,
        _ if code <= 0x11461 => AL,
        _ if code <= 0x1147F => XX,
        _ if code <= 0x114AF => AL,
        _ if code <= 0x114C3 => CM,
        _ if code <= 0x114C7 => AL,
        _ if code <= 0x114CF => XX,
        _ if code <= 0x114D9 => NU,
        _ if code <= 0x1157F => XX,
        _ if code <= 0x115AE => AL,
        _ if code <= 0x115B5 => CM,
        _ if code <= 0x115B7 => XX,
        _ if code <= 0x115C0 => CM,
        _ if code <= 0x115C1 => BB,
        _ if code <= 0x115C3 => BA,
        _ if code <= 0x115C5 => EX,
        _ if code <= 0x115C8 => AL,
        _ if code <= 0x115D7 => BA,
        _ if code <= 0x115DB => AL,
        _ if code <= 0x115DD => CM,
        _ if code <= 0x115FF => XX,
        _ if code <= 0x1162F => AL,
        _ if code <= 0x11640 => CM,
        _ if code <= 0x11642 => BA,
        _ if code <= 0x11644 => AL,
        _ if code <= 0x1164F => XX,
        _ if code <= 0x11659 => NU,
        _ if code <= 0x1165F => XX,
        _ if code <= 0x1166C => BB,
        _ if code <= 0x1167F => XX,
        _ if code <= 0x116AA => AL,
        _ if code <= 0x116B7 => CM,
        _ if code <= 0x116B9 => AL,
        _ if code <= 0x116BF => XX,
        _ if code <= 0x116C9 => NU,
        _ if code <= 0x116FF => XX,
        _ if code <= 0x1171A => SA,
        _ if code <= 0x1171C => XX,
        _ if code <= 0x1172B => SA,
        _ if code <= 0x1172F => XX,
        _ if code <= 0x11739 => NU,
        _ if code <= 0x1173B => AL,
        _ => BA,
    }
}

fn block_42(code: u32) -> (class: u8)
    requires
        0x1144F <= code <= 0x1173E,
    ensures
        class == class_42(code),
        is_class(class),
{
    match code {
        0x1144F => AL,
        0x11450..=0x11459 => NU,
        0x1145A..=0x1145B => BA,
        0x1145C => XX,
        0x1145D => AL,
        0x1145E => CM,
        0x1145F..=0x11461 => AL,
        0x11462..=0x1147F => XX,
        0x11480..=0x114AF => AL,
        0x114B0..=0x114C3 => CM,
        0x114C4..=0x114C7 => AL,
        0x114C8..=0x114CF => XX,
        0x114D0..=0x114D9 => NU,
        0x114DA..=0x1157F => XX,
        0x11580..=0x115AE => AL,
        0x115AF..=0x115B5 => CM,
        0x115B6..=0x115B7 => XX,
        0x115B8..=0x115C0 => CM,
        0x115C1 => BB,
        0x115C2..=0x115C3 => BA,
        0x115C4..=0x115C5 => EX,
        0x115C6..=0x115C8 => AL,
        0x115C9..=0x115D7 => BA,
        0x115D8..=0x115DB => AL,
        0x115DC..=0x115DD => CM,
        0x115DE..=0x115FF => XX,
        0x11600..=0x1162F => AL,
        0x11630..=0x11640 => CM,
        0x11641..=0x11642 => BA,
        0x11643..=0x11644 => AL,
        0x11645..=0x1164F => XX,
        0x11650..=0x11659 => NU,
        0x1165A..=0x1165F => XX,
        0x11660..=0x1166C => BB,
        0x1166D..=0x1167F => XX,
        0x11680..=0x116AA => AL,
        0x116AB..=0x116B7 => CM,
        0x116B8..=0x116B9 => AL,
        0x116BA..=0x116BF => XX,
        0x116C0..=0x116C9 => NU,
        0x116CA..=0x116FF => XX,
        0x11700..=0x1171A => SA,
        0x1171B..=0x1171C => XX,
        0x1171D..=0x1172B => SA,
        0x1172C..=0x1172F => XX,
        0x11730..=0x11739 => NU,
        0x1173A..=0x1173B => AL,
        _ => BA,
    }
}

/// The classes from U+1173F to U+11A0A.
pub open spec fn class_43(code: u32) -> u8 {
    match code {
        _ if code <= 0x1173F => AL,
        _ if code <= 0x11746 => SA,
        _ if code <= 0x117FF => XX,
        _ if code <= 0x1182B => AL,
        _ if code <= 0x1183A => CM,
        _ if code <= 0x1183B => AL,
        _ if code <= 0x1189F => XX,
        _ if code <= 0x118DF => AL,
        _ if code <= 0x118E9 => NU,
        _ if code <= 0x118F2 => AL,
        _ if code <= 0x118FE => XX,
        _ if code <= 0x11906 => AL,
        _ if code <= 0x11908 => XX,
        _ if code <= 0x11909 => AL,
        _ if code <= 0x1190B => XX,
        _ if code <= 0x11913 => AL,
        _ if code <= 0x11914 => XX,
        _ if code <= 0x11916 => AL,
        _ if code <= 0x11917 => XX,
        _ if code <= 0x1192F => AL,
        _ if code <= 0x11935 => CM,
        _ if code <= 0x11936 => XX,
        _ if code <= 0x11938 => CM,
        _ if code <= 0x1193A => XX,
        _ if code <= 0x1193E => CM,
        _ if code <= 0x1193F => AL,
        _ if code <= 0x11940 => CM,
        _ if code <= 0x11941 => AL,
        _ if code <= 0x11943 => CM,
        _ if code <= 0x11944 => BA,
        _ if code <= 0x11945 => AL,
        _ if code <= 0x11946 => BA,
        _ if code <= 0x1194F => XX,
        _ if code <= 0x11959 => NU,
        _ if code <= 0x1199F => XX,
        _ if code <= 0x119A7 => AL,
        _ if code <= 0x119A9 => XX,
        _ if code <= 0x119D0 => AL,
        _ if code <= 0x119D7 => CM,
        _ if code <= 0x119D9 => XX,
        _ if code <= 0x119E0 => CM,
        _ if code <= 0x119E1 => AL,
        _ if code <= 0x119E2 => BB,
        _ if code <= 0x119E3 => AL,
        _ if code <= 0x119E4 => CM,
        _ if code <= 0x119FF => XX,
        _ if code <= 0x11A00 => AL,
        _ => CM,
    }
}

fn block_43(code: u32) -> (class: u8)
    requires
        0x1173F <= code <= 0x11A0A,
    ensures
        class == class_43(code),
        is_class(class),
{
    match code {
        0x1173F => AL,
        0x11740..=0x11746 => SA,
        0x11747..=0x117FF => XX,
        0x11800..=0x1182B => AL,
        0x1182C..=0x1183A => CM,
        0x1183B => AL,
        0x1183C..=0x1189F => XX,
        0x118A0..=0x118DF => AL,
        0x118E0..=0x118E9 => NU,
        0x118EA..=0x118F2 => AL,
        0x118F3..=0x118FE => XX,
        0x118FF..=0x11906 => AL,
        0x11907..=0x11908 => XX,
        0x11909 => AL,
        0x1190A..=0x1190B => XX,
        0x1190C..=0x11913 => AL,
        0x11914 => XX,
        0x11915..=0x11916 => AL,
        0x11917 => XX,
        0x11918..=0x1192F => AL,
        0x11930..=0x11935 => CM,
        0x11936 => XX,
        0x11937..=0x11938 => CM,
        0x11939..=0x1193A => XX,
        0x1193B..=0x1193E => CM,
        0x1193F => AL,
        0x11940 => CM,
        0x11941 => AL,
        0x11942..=0x11943 => CM,
        0x11944 => BA,
        0x11945 => AL,
        0x11946 => BA,
        0x11947..=0x1194F => XX,
        0x11950..=0x11959 => NU,
        0x1195A..=0x1199F => XX,
        0x119A0..=0x119A7 => AL,
        0x119A8..=0x119A9 => XX,
        0x119AA..=0x119D0 => AL,
        0x119D1..=0x119D7 => CM,
        0x119D8..=0x119D9 => XX,
        0x119DA..=0x119E0 => CM,
        0x119E1 => AL,
        0x119E2 => BB,
        0x119E3 => AL,
        0x119E4 => CM,
        0x119E5..=0x119FF => XX,
        0x11A00 => AL,
        _ => CM,
    }
}

/// The classes from U+11A0B to U+11D36.
pub open spec fn class_44(code: u32) -> u8 {
    match code {
        _ if code <= 0x11A32 => AL,
        _ if code <= 0x11A39 => CM,
        _ if code <= 0x11A3A => AL,
        _ if code <= 0x11A3E => CM,
        _ if code <= 0x11A3F => BB,
        _ if code <= 0x11A40 => AL,
        _ if code <= 0x11A44 => BA,
        _ if code <= 0x11A45 => BB,
        _ if code <= 0x11A46 => AL,
        _ if code <= 0x11A47 => CM,
        _ if code <= 0x11A4F => XX,
        _ if code <= 0x11A50 => AL,
        _ if code <= 0x11A5B => CM,
        _ if code <= 0x11A89 => AL,
        _ if code <= 0x11A99 => CM,
        _ if code <= 0x11A9C => BA,
        _ if code <= 0x11A9D => AL,
        _ if code <= 0x11AA0 => BB,
        _ if code <= 0x11AA2 => BA,
        _ if code <= 0x11AAF => XX,
        _ if code <= 0x11AF8 => AL,
        _ if code <= 0x11BFF => XX,
        _ if code <= 0x11C08 => AL,
        _ if code <= 0x11C09 => XX,
        _ if code <= 0x11C2E => AL,
        _ if code <= 0x11C36 => CM,
        _ if code <= 0x11C37 => XX,
        _ if code <= 0x11C3F => CM,
        _ if code <= 0x11C40 => AL,
        _ if code <= 0x11C45 => BA,
        _ if code <= 0x11C4F => XX,
        _ if code <= 0x11C59 => NU,
        _ if code <= 0x11C6C => AL,
        _ if code <= 0x11C6F => XX,
        _ if code <= 0x11C70 => BB,
        _ if code <= 0x11C71 => EX,
        _ if code <= 0x11C8F => AL,
        _ if code <= 0x11C91 => XX,
        _ if code <= 0x11CA7 => CM,
        _ if code <= 0x11CA8 => XX,
        _ if code <= 0x11CB6 => CM,
        _ if code <= 0x11CFF => XX,
        _ if code <= 0x11D06 => AL,
        _ if code <= 0x11D07 => XX,
        _ if code <= 0x11D09 => AL,
        _ if code <= 0x11D0A => XX,
        _ if code <= 0x11D30 => AL,
        _ => CM,
    }
}

fn block_44(code: u32) -> (class: u8)
    requires
        0x11A0B <= code <= 0x11D36,
    ensures
        class == class_44(code),
        is_class(class),
{
    match code {
        0x11A0B..=0x11A32 => AL,
        0x11A33..=0x11A39 => CM,
        0x11A3A => AL,
        0x11A3B..=0x11A3E => CM,
        0x11A3F => BB,
        0x11A40 => AL,
        0x11A41..=0x11A44 => BA,
        0x11A45 => BB,
        0x11A46 => AL,
        0x11A47 => CM,
        0x11A48..=0x11A4F => XX,
        0x11A50 => AL,
        0x11A51..=0x11A5B => CM,
        0x11A5C..=0x11A89 => AL,
        0x11A8A..=0x11A99 => CM,
        0x11A9A..=0x11A9C => BA,
        0x11A9D => AL,
        0x11A9E..=0x11AA0 => BB,
        0x11AA1..=0x11AA2 => BA,
        0x11AA3..=0x11AAF => XX,
        0x11AB0..=0x11AF8 => AL,
        0x11AF9..=0x11BFF => XX,
        0x11C00..=0x11C08 => AL,
        0x11C09 => XX,
        0x11C0A..=0x11C2E => AL,
        0x11C2F..=0x11C36 => CM,
        0x11C37 => XX,
        0x11C38..=0x11C3F => CM,
        0x11C40 => AL,
        0x11C41..=0x11C45 => BA,
        0x11C46..=0x11C4F => XX,
        0x11C50..=0x11C59 => NU,
        0x11C5A..=0x11C6C => AL,
        0x11C6D..=0x11C6F => XX,
        0x11C70 => BB,
        0x11C71 => EX,
        0x11C72..=0x11C8F => AL,
        0x11C90..=0x11C91 => XX,
        0x11C92..=0x11CA7 => CM,
        0x11CA8 => XX,
        0x11CA9..=0x11CB6 => CM,
        0x11CB7..=0x11CFF => XX,
        0x11D00..=0x11D06 => AL,
        0x11D07 => XX,
        0x11D08..=0x11D09 => AL,
        0x11D0A => XX,
        0x11D0B..=0x11D30 => AL,
        _ => CM,
    }
}

/// The classes from U+11D37 to U+1325D.
pub open spec fn class_45(code: u32) -> u8 {
    match code {
        _ if code <= 0x11D39 => XX,
        _ if code <= 0x11D3A => CM,
        _ if code <= 0x11D3B => XX,
        _ if code <= 0x11D3D => CM,
        _ if code <= 0x11D3E => XX,
        _ if code <= 0x11D45 => CM,
        _ if code <= 0x11D46 => AL,
        _ if code <= 0x11D47 => CM,
        _ if code <= 0x11D4F => XX,
        _ if code <= 0x11D59 => NU,
        _ if code <= 0x11D5F => XX,
        _ if code <= 0x11D65 => AL,
        _ if code <= 0x11D66 => XX,
        _ if code <= 0x11D68 => AL,
        _ if code <= 0x11D69 => XX,
        _ if code <= 0x11D89 => AL,
        _ if code <= 0x11D8E => CM,
        _ if code <= 0x11D8F => XX,
        _ if code <= 0x11D91 => CM,
        _ if code <= 0x11D92 => XX,
        _ if code <= 0x11D97 => CM,
        _ if code <= 0x11D98 => AL,
        _ if code <= 0x11D9F => XX,
        _ if code <= 0x11DA9 => NU,
        _ if code <= 0x11EDF => XX,
        _ if code <= 0x11EF2 => AL,
        _ if code <= 0x11EF6 => CM,
        _ if code <= 0x11EF8 => BA,
        _ if code <= 0x11FAF => XX,
        _ if code <= 0x11FB0 => AL,
        _ if code <= 0x11FBF => XX,
        _ if code <= 0x11FDC => AL,
        _ if code <= 0x11FE0 => PO,
        _ if code <= 0x11FF1 => AL,
        _ if code <= 0x11FFE => XX,
        _ if code <= 0x12399 => AL,
        _ if code <= 0x123FF => XX,
        _ if code <= 0x1246E => AL,
        _ if code <= 0x1246F => XX,
        _ if code <= 0x12474 => BA,
        _ if code <= 0x1247F => XX,
        _ if code <= 0x12543 => AL,
        _ if code <= 0x12F8F => XX,
        _ if code <= 0x12FF2 => AL,
        _ if code <= 0x12FFF => XX,
        _ if code <= 0x13257 => AL,
        _ if code <= 0x1325A => OP,
        _ => CL,
    }
}

fn block_45(code: u32) -> (class: u8)
    requires
        0x11D37 <= code <= 0x1325D,
    ensures
        class == class_45(code),
        is_class(class),
{
    match code {
        0x11D37..=0x11D39 => XX,
        0x11D3A => CM,
        0x11D3B => XX,
        0x11D3C..=0x11D3D => CM,
        0x11D3E => XX,
        0x11D3F..=0x11D45 => CM,
        0x11D46 => AL,
        0x11D47 => CM,
        0x11D48..=0x11D4F => XX,
        0x11D50..=0x11D59 => NU,
        0x11D5A..=0x11D5F => XX,
        0x11D60..=0x11D65 => AL,
        0x11D66 => XX,
        0x11D67..=0x11D68 => AL,
        0x11D69 => XX,
        0x11D6A..=0x11D89 => AL,
        0x11D8A..=0x11D8E => CM,
        0x11D8F => XX,
        0x11D90..=0x11D91 => CM,
        0x11D92 => XX,
        0x11D93..=0x11D97 => CM,
        0x11D98 => AL,
        0x11D99..=0x11D9F => XX,
        0x11DA0..=0x11DA9 => NU,
        0x11DAA..=0x11EDF => XX,
        0x11EE0..=0x11EF2 => AL,
        0x11EF3..=0x11EF6 => CM,
        0x11EF7..=0x11EF8 => BA,
        0x11EF9..=0x11FAF => XX,
        0x11FB0 => AL,
        0x11FB1..=0x11FBF => XX,
        0x11FC0..=0x11FDC => AL,
        0x11FDD..=0x11FE0 => PO,
        0x11FE1..=0x11FF1 => AL,
        0x11FF2..=0x11FFE => XX,
        0x11FFF..=0x12399 => AL,
        0x1239A..=0x123FF => XX,
        0x12400..=0x1246E => AL,
        0x1246F => XX,
        0x12470..=0x12474 => BA,
        0x12475..=0x1247F => XX,
        0x12480..=0x12543 => AL,
        0x12544..=0x12F8F => XX,
        0x12F90..=0x12FF2 => AL,
        0x12FF3..=0x12FFF => XX,
        0x13000..=0x13257 => AL,
        0x13258..=0x1325A => OP,
        _ => CL,
    }
}

/// The classes from U+1325E to U+16B7C.
pub open spec fn class_46(code: u32) -> u8 {
    match code {
        _ if code <= 0x13281 => AL,
        _ if code <= 0x13282 => CL,
        _ if code <= 0x13285 => AL,
        _ if code <= 0x13286 => OP,
        _ if code <= 0x13287 => CL,
        _ if code <= 0x13288 => OP,
        _ if code <= 0x13289 => CL,
        _ if code <= 0x13378 => AL,
        _ if code <= 0x13379 => OP,
        _ if code <= 0x1337B => CL,
        _ if code <= 0x1342E => AL,
        _ if code <= 0x1342F => XX,
        _ if code <= 0x13436 => GL,
        _ if code <= 0x13438 => AL,
        _ if code <= 0x143FF => XX,
        _ if code <= 0x145CD => AL,
        _ if code <= 0x145CE => OP,
        _ if code <= 0x14646 => AL,
        _ if code <= 0x167FF => XX,
        _ if code <= 0x16A38 => AL,
        _ if code <= 0x16A3F => XX,
        _ if code <= 0x16A5E => AL,
        _ if code <= 0x16A5F => XX,
        _ if code <= 0x16A69 => NU,
        _ if code <= 0x16A6D => XX,
        _ if code <= 0x16A6F => BA,
        _ if code <= 0x16ABE => AL,
        _ if code <= 0x16ABF => XX,
        _ if code <= 0x16AC9 => NU,
        _ if code <= 0x16ACF => XX,
        _ if code <= 0x16AED => AL,
        _ if code <= 0x16AEF => XX,
        _ if code <= 0x16AF4 => CM,
        _ if code <= 0x16AF5 => BA,
        _ if code <= 0x16AFF => XX,
        _ if code <= 0x16B2F => AL,
        _ if code <= 0x16B36 => CM,
        _ if code <= 0x16B39 => BA,
        _ if code <= 0x16B43 => AL,
        _ if code <= 0x16B44 => BA,
        _ if code <= 0x16B45 => AL,
        _ if code <= 0x16B4F => XX,
        _ if code <= 0x16B59 => NU,
        _ if code <= 0x16B5A => XX,
        _ if code <= 0x16B61 => AL,
        _ if code <= 0x16B62 => XX,
        _ if code <= 0x16B77 => AL,
        _ => XX,
    }
}

fn block_46(code: u32) -> (class: u8)
    requires
        0x1325E <= code <= 0x16B7C,
    ensures
        class == class_46(code),
        is_class(class),
{
    match code {
        0x1325E..=0x13281 => AL,
        0x13282 => CL,
        0x13283..=0x13285 => AL,
        0x13286 => OP,
        0x13287 => CL,
        0x13288 => OP,
        0x13289 => CL,
        0x1328A..=0x13378 => AL,
        0x13379 => OP,
        0x1337A..=0x1337B => CL,
        0x1337C..=0x1342E => AL,
        0x1342F => XX,
        0x13430..=0x13436 => GL,
        0x13437..=0x13438 => AL,
        0x13439..=0x143FF => XX,
        0x14400..=0x145CD => AL,
        0x145CE => OP,
        0x145CF..=0x14646 => AL,
        0x14647..=0x167FF => XX,
        0x16800..=0x16A38 => AL,
        0x16A39..=0x16A3F => XX,
        0x16A40..=0x16A5E => AL,
        0x16A5F => XX,
        0x16A60..=0x16A69 => NU,
        0x16A6A..=0x16A6D => XX,
        0x16A6E..=0x16A6F => BA,
        0x16A70..=0x16ABE => AL,
        0x16ABF => XX,
        0x16AC0..=0x16AC9 => NU,
        0x16ACA..=0x16ACF => XX,
        0x16AD0..=0x16AED => AL,
        0x16AEE..=0x16AEF => XX,
        0x16AF0..=0x16AF4 => CM,
        0x16AF5 => BA,
        0x16AF6..=0x16AFF => XX,
        0x16B00..=0x16B2F => AL,
        0x16B30..=0x16B36 => CM,
        0x16B37..=0x16B39 => BA,
        0x16B3A..=0x16B43 => AL,
        0x16B44 => BA,
        0x16B45 => AL,
        0x16B46..=0x16B4F => XX,
        0x16B50..=0x16B59 => NU,
        0x16B5A => XX,
        0x16B5B..=0x16B61 => AL,
        0x16B62 => XX,
        0x16B63..=0x16B77 => AL,
        _ => XX,
    }
}

/// The classes from U+16B7D to U+1BC9B.
pub open spec fn class_47(code: u32) -> u8 {
    match code {
        _ if code <= 0x16B8F => AL,
        _ if code <= 0x16E3F => XX,
        _ if code <= 0x16E96 => AL,
        _ if code <= 0x16E98 => BA,
        _ if code <= 0x16E9A => AL,
        _ if code <= 0x16EFF => XX,
        _ if code <= 0x16F4A => AL,
        _ if code <= 0x16F4E => XX,
        _ if code <= 0x16F4F => CM,
        _ if code <= 0x16F50 => AL,
        _ if code <= 0x16F87 => CM,
        _ if code <= 0x16F8E => XX,
        _ if code <= 0x16F92 => CM,
        _ if code <= 0x16F9F => AL,
        _ if code <= 0x16FDF => XX,
        _ if code <= 0x16FE3 => NS,
        _ if code <= 0x16FE4 => GL,
        _ if code <= 0x16FEF => XX,
        _ if code <= 0x16FF1 => CM,
        _ if code <= 0x16FFF => XX,
        _ if code <= 0x187F7 => ID,
        _ if code <= 0x187FF => XX,
        _ if code <= 0x18CD5 => ID,
        _ if code <= 0x18CFF => XX,
        _ if code <= 0x18D08 => ID,
        _ if code <= 0x1AFEF => XX,
        _ if code <= 0x1AFF3 => ID,
        _ if code <= 0x1AFF4 => XX,
        _ if code <= 0x1AFFB => ID,
        _ if code <= 0x1AFFC => XX,
        _ if code <= 0x1AFFE => ID,
        _ if code <= 0x1AFFF => XX,
        _ if code <= 0x1B122 => ID,
        _ if code <= 0x1B14F => XX,
        _ if code <= 0x1B152 => CJ,
        _ if code <= 0x1B163 => XX,
        _ if code <= 0x1B167 => CJ,
        _ if code <= 0x1B16F => XX,
        _ if code <= 0x1B2FB => ID,
        _ if code <= 0x1BBFF => XX,
        _ if code <= 0x1BC6A => AL,
        _ if code <= 0x1BC6F => XX,
        _ if code <= 0x1BC7C => AL,
        _ if code <= 0x1BC7F => XX,
        _ if code <= 0x1BC88 => AL,
        _ if code <= 0x1BC8F => XX,
        _ if code <= 0x1BC99 => AL,
        _ => XX,
    }
}

fn block_47(code: u32) -> (class: u8)
    requires
        0x16B7D <= code <= 0x1BC9B,
    ensures
        class == class_47(code),
        is_class(class),
{
    match code {
        0x16B7D..=0x16B8F => AL,
        0x16B90..=0x16E3F => XX,
        0x16E40..=0x16E96 => AL,
        0x16E97..=0x16E98 => BA,
        0x16E99..=0x16E9A => AL,
        0x16E9B..=0x16EFF => XX,
        0x16F00..=0x16F4A => AL,
        0x16F4B..=0x16F4E => XX,
        0x16F4F => CM,
        0x16F50 => AL,
        0x16F51..=0x16F87 => CM,
        0x16F88..=0x16F8E => XX,
        0x16F8F..=0x16F92 => CM,
        0x16F93..=0x16F9F => AL,
        0x16FA0..=0x16FDF => XX,
        0x16FE0..=0x16FE3 => NS,
        0x16FE4 => GL,
        0x16FE5..=0x16FEF => XX,
        0x16FF0..=0x16FF1 => CM,
        0x16FF2..=0x16FFF => XX,
        0x17000..=0x187F7 => ID,
        0x187F8..=0x187FF => XX,
        0x18800..=0x18CD5 => ID,
        0x18CD6..=0x18CFF => XX,
        0x18D00..=0x18D08 => ID,
        0x18D09..=0x1AFEF => XX,
        0x1AFF0..=0x1AFF3 => ID,
        0x1AFF4 => XX,
        0x1AFF5..=0x1AFFB => ID,
        0x1AFFC => XX,
        0x1AFFD..=0x1AFFE => ID,
        0x1AFFF => XX,
        0x1B000..=0x1B122 => ID,
        0x1B123..=0x1B14F => XX,
        0x1B150..=0x1B152 => CJ,
        0x1B153..=0x1B163 => XX,
        0x1B164..=0x1B167 => CJ,
        0x1B168..=0x1B16F => XX,
        0x1B170..=0x1B2FB => ID,
        0x1B2FC..=0x1BBFF => XX,
        0x1BC00..=0x1BC6A => AL,
        0x1BC6B..=0x1BC6F => XX,
        0x1BC70..=0x1BC7C => AL,
        0x1BC7D..=0x1BC7F => XX,
        0x1BC80..=0x1BC88 => AL,
        0x1BC89..=0x1BC8F => XX,
        0x1BC90..=0x1BC99 => AL,
        _ => XX,
    }
}

/// The classes from U+1BC9C to U+1D4B9.
pub open spec fn class_48(code: u32) -> u8 {
    match code {
        _ if code <= 0x1BC9C => AL,
        _ if code <= 0x1BC9E => CM,
        _ if code <= 0x1BC9F => BA,
        _ if code <= 0x1BCA3 => CM,
        _ if code <= 0x1CEFF => XX,
        _ if code <= 0x1CF2D => CM,
        _ if code <= 0x1CF2F => XX,
        _ if code <= 0x1CF46 => CM,
        _ if code <= 0x1CF4F => XX,
        _ if code <= 0x1CFC3 => AL,
        _ if code <= 0x1CFFF => XX,
        _ if code <= 0x1D0F5 => AL,
        _ if code <= 0x1D0FF => XX,
        _ if code <= 0x1D126 => AL,
        _ if code <= 0x1D128 => XX,
        _ if code <= 0x1D164 => AL,
        _ if code <= 0x1D169 => CM,
        _ if code <= 0x1D16C => AL,
        _ if code <= 0x1D182 => CM,
        _ if code <= 0x1D184 => AL,
        _ if code <= 0x1D18B => CM,
        _ if code <= 0x1D1A9 => AL,
        _ if code <= 0x1D1AD => CM,
        _ if code <= 0x1D1EA => AL,
        _ if code <= 0x1D1FF => XX,
        _ if code <= 0x1D241 => AL,
        _ if code <= 0x1D244 => CM,
        _ if code <= 0x1D245 => AL,
        _ if code <= 0x1D2DF => XX,
        _ if code <= 0x1D2F3 => AL,
        _ if code <= 0x1D2FF => XX,
        _ if code <= 0x1D356 => AL,
        _ if code <= 0x1D35F => XX,
        _ if code <= 0x1D378 => AL,
        _ if code <= 0x1D3FF => XX,
        _ if code <= 0x1D454 => AL,
        _ if code <= 0x1D455 => XX,
        _ if code <= 0x1D49C => AL,
        _ if code <= 0x1D49D => XX,
        _ if code <= 0x1D49F => AL,
        _ if code <= 0x1D4A1 => XX,
        _ if code <= 0x1D4A2 => AL,
        _ if code <= 0x1D4A4 => XX,
        _ if code <= 0x1D4A6 => AL,
        _ if code <= 0x1D4A8 => XX,
        _ if code <= 0x1D4AC => AL,
        _ if code <= 0x1D4AD => XX,
        _ => AL,
    }
}

fn block_48(code: u32) -> (class: u8)
    requires
        0x1BC9C <= code <= 0x1D4B9,
    ensures
        class == class_48(code),
        is_class(class),
{
    match code {
        0x1BC9C => AL,
        0x1BC9D..=0x1BC9E => CM,
        0x1BC9F => BA,
        0x1BCA0..=0x1BCA3 => CM,
        0x1BCA4..=0x1CEFF => XX,
        0x1CF00..=0x1CF2D => CM,
        0x1CF2E..=0x1CF2F => XX,
        0x1CF30..=0x1CF46 => CM,
        0x1CF47..=0x1CF4F => XX,
        0x1CF50..=0x1CFC3 => AL,
        0x1CFC4..=0x1CFFF => XX,
        0x1D000..=0x1D0F5 => AL,
        0x1D0F6..=0x1D0FF => XX,
        0x1D100..=0x1D126 => AL,
        0x1D127..=0x1D128 => XX,
        0x1D129..=0x1D164 => AL,
        0x1D165..=0x1D169 => CM,
        0x1D16A..=0x1D16C => AL,
        0x1D16D..=0x1D182 => CM,
        0x1D183..=0x1D184 => AL,
        0x1D185..=0x1D18B => CM,
        0x1D18C..=0x1D1A9 => AL,
        0x1D1AA..=0x1D1AD => CM,
        0x1D1AE..=0x1D1EA => AL,
        0x1D1EB..=0x1D1FF => XX,
        0x1D200..=0x1D241 => AL,
        0x1D242..=0x1D244 => CM,
        0x1D245 => AL,
        0x1D246..=0x1D2DF => XX,
        0x1D2E0..=0x1D2F3 => AL,
        0x1D2F4..=0x1D2FF => XX,
        0x1D300..=0x1D356 => AL,
        0x1D357..=0x1D35F => XX,
        0x1D360..=0x1D378 => AL,
        0x1D379..=0x1D3FF => XX,
        0x1D400..=0x1D454 => AL,
        0x1D455 => XX,
        0x1D456..=0x1D49C => AL,
        0x1D49D => XX,
        0x1D49E..=0x1D49F => AL,
        0x1D4A0..=0x1D4A1 => XX,
        0x1D4A2 => AL,
        0x1D4A3..=0x1D4A4 => XX,
        0x1D4A5..=0x1D4A6 => AL,
        0x1D4A7..=0x1D4A8 => XX,
        0x1D4A9..=0x1D4AC => AL,
        0x1D4AD => XX,
        _ => AL,
    }
}

/// The classes from U+1D4BA to U+1E007.
pub open spec fn class_49(code: u32) -> u8 {
    match code {
        _ if code <= 0x1D4BA => XX,
        _ if code <= 0x1D4BB => AL,
        _ if code <= 0x1D4BC => XX,
        _ if code <= 0x1D4C3 => AL,
        _ if code <= 0x1D4C4 => XX,
        _ if code <= 0x1D505 => AL,
        _ if code <= 0x1D506 => XX,
        _ if code <= 0x1D50A => AL,
        _ if code <= 0x1D50C => XX,
        _ if code <= 0x1D514 => AL,
        _ if code <= 0x1D515 => XX,
        _ if code <= 0x1D51C => AL,
        _ if code <= 0x1D51D => XX,
        _ if code <= 0x1D539 => AL,
        _ if code <= 0x1D53A => XX,
        _ if code <= 0x1D53E => AL,
        _ if code <= 0x1D53F => XX,
        _ if code <= 0x1D544 => AL,
        _ if code <= 0x1D545 => XX,
        _ if code <= 0x1D546 => AL,
        _ if code <= 0x1D549 => XX,
        _ if code <= 0x1D550 => AL,
        _ if code <= 0x1D551 => XX,
        _ if code <= 0x1D6A5 => AL,
        _ if code <= 0x1D6A7 => XX,
        _ if code <= 0x1D7CB => AL,
        _ if code <= 0x1D7CD => XX,
        _ if code <= 0x1D7FF => NU,
        _ if code <= 0x1D9FF => AL,
        _ if code <= 0x1DA36 => CM,
        _ if code <= 0x1DA3A => AL,
        _ if code <= 0x1DA6C => CM,
        _ if code <= 0x1DA74 => AL,
        _ if code <= 0x1DA75 => CM,
        _ if code <= 0x1DA83 => AL,
        _ if code <= 0x1DA84 => CM,
        _ if code <= 0x1DA86 => AL,
        _ if code <= 0x1DA8A => BA,
        _ if code <= 0x1DA8B => AL,
        _ if code <= 0x1DA9A => XX,
        _ if code <= 0x1DA9F => CM,
        _ if code <= 0x1DAA0 => XX,
        _ if code <= 0x1DAAF => CM,
        _ if code <= 0x1DEFF => XX,
        _ if code <= 0x1DF1E => AL,
        _ if code <= 0x1DFFF => XX,
        _ if code <= 0x1E006 => CM,
        _ => XX,
    }
}

fn block_49(code: u32) -> (class: u8)
    requires
        0x1D4BA <= code <= 0x1E007,
    ensures
        class == class_49(code),
        is_class(class),
{
    match code {
        0x1D4BA => XX,
        0x1D4BB => AL,
        0x1D4BC => XX,
        0x1D4BD..=0x1D4C3 => AL,
        0x1D4C4 => XX,
        0x1D4C5..=0x1D505 => AL,
        0x1D506 => XX,
        0x1D507..=0x1D50A => AL,
        0x1D50B..=0x1D50C => XX,
        0x1D50D..=0x1D514 => AL,
        0x1D515 => XX,
        0x1D516..=0x1D51C => AL,
        0x1D51D => XX,
        0x1D51E..=0x1D539 => AL,
        0x1D53A => XX,
        0x1D53B..=0x1D53E => AL,
        0x1D53F => XX,
        0x1D540..=0x1D544 => AL,
        0x1D545 => XX,
        0x1D546 => AL,
        0x1D547..=0x1D549 => XX,
        0x1D54A..=0x1D550 => AL,
        0x1D551 => XX,
        0x1D552..=0x1D6A5 => AL,
        0x1D6A6..=0x1D6A7 => XX,
        0x1D6A8..=0x1D7CB => AL,
        0x1D7CC..=0x1D7CD => XX,
        0x1D7CE..=0x1D7FF => NU,
        0x1D800..=0x1D9FF => AL,
        0x1DA00..=0x1DA36 => CM,
        0x1DA37..=0x1DA3A => AL,
        0x1DA3B..=0x1DA6C => CM,
        0x1DA6D..=0x1DA74 => AL,
        0x1DA75 => CM,
        0x1DA76..=0x1DA83 => AL,
        0x1DA84 => CM,
        0x1DA85..=0x1DA86 => AL,
        0x1DA87..=0x1DA8A => BA,
        0x1DA8B => AL,
        0x1DA8C..=0x1DA9A => XX,
        0x1DA9B..=0x1DA9F => CM,
        0x1DAA0 => XX,
        0x1DAA1..=0x1DAAF => CM,
        0x1DAB0..=0x1DEFF => XX,
        0x1DF00..=0x1DF1E => AL,
        0x1DF1F..=0x1DFFF => XX,
        0x1E000..=0x1E006 => CM,
        _ => XX,
    }
}

/// The classes from U+1E008 to U+1ECAB.
pub open spec fn class_50(code: u32) -> u8 {
    match code {
        _ if code <= 0x1E018 => CM,
        _ if code <= 0x1E01A => XX,
        _ if code <= 0x1E021 => CM,
        _ if code <= 0x1E022 => XX,
        _ if code <= 0x1E024 => CM,
        _ if code <= 0x1E025 => XX,
        _ if code <= 0x1E02A => CM,
        _ if code <= 0x1E0FF => XX,
        _ if code <= 0x1E12C => AL,
        _ if code <= 0x1E12F => XX,
        _ if code <= 0x1E136 => CM,
        _ if code <= 0x1E13D => AL,
        _ if code <= 0x1E13F => XX,
        _ if code <= 0x1E149 => NU,
        _ if code <= 0x1E14D => XX,
        _ if code <= 0x1E14F => AL,
        _ if code <= 0x1E28F => XX,
        _ if code <= 0x1E2AD => AL,
        _ if code <= 0x1E2AE => CM,
        _ if code <= 0x1E2BF => XX,
        _ if code <= 0x1E2EB => AL,
        _ if code <= 0x1E2EF => CM,
        _ if code <= 0x1E2F9 => NU,
        _ if code <= 0x1E2FE => XX,
        _ if code <= 0x1E2FF => PR,
        _ if code <= 0x1E7DF => XX,
        _ if code <= 0x1E7E6 => AL,
        _ if code <= 0x1E7E7 => XX,
        _ if code <= 0x1E7EB => AL,
        _ if code <= 0x1E7EC => XX,
        _ if code <= 0x1E7EE => AL,
        _ if code <= 0x1E7EF => XX,
        _ if code <= 0x1E7FE => AL,
        _ if code <= 0x1E7FF => XX,
        _ if code <= 0x1E8C4 => AL,
        _ if code <= 0x1E8C6 => XX,
        _ if code <= 0x1E8CF => AL,
        _ if code <= 0x1E8D6 => CM,
        _ if code <= 0x1E8FF => XX,
        _ if code <= 0x1E943 => AL,
        _ if code <= 0x1E94A => CM,
        _ if code <= 0x1E94B => AL,
        _ if code <= 0x1E94F => XX,
        _ if code <= 0x1E959 => NU,
        _ if code <= 0x1E95D => XX,
        _ if code <= 0x1E95F => OP,
        _ if code <= 0x1EC70 => XX,
        _ => AL,
    }
}

fn block_50(code: u32) -> (class: u8)
    requires
        0x1E008 <= code <= 0x1ECAB,
    ensures
        class == class_50(code),
        is_class(class),
{
    match code {
        0x1E008..=0x1E018 => CM,
        0x1E019..=0x1E01A => XX,
        0x1E01B..=0x1E021 => CM,
        0x1E022 => XX,
        0x1E023..=0x1E024 => CM,
        0x1E025 => XX,
        0x1E026..=0x1E02A => CM,
        0x1E02B..=0x1E0FF => XX,
        0x1E100..=0x1E12C => AL,
        0x1E12D..=0x1E12F => XX,
        0x1E130..=0x1E136 => CM,
        0x1E137..=0x1E13D => AL,
        0x1E13E..=0x1E13F => XX,
        0x1E140..=0x1E149 => NU,
        0x1E14A..=0x1E14D => XX,
        0x1E14E..=0x1E14F => AL,
        0x1E150..=0x1E28F => XX,
        0x1E290..=0x1E2AD => AL,
        0x1E2AE => CM,
        0x1E2AF..=0x1E2BF => XX,
        0x1E2C0..=0x1E2EB => AL,
        0x1E2EC..=0x1E2EF => CM,
        0x1E2F0..=0x1E2F9 => NU,
        0x1E2FA..=0x1E2FE => XX,
        0x1E2FF => PR,
        0x1E300..=0x1E7DF => XX,
        0x1E7E0..=0x1E7E6 => AL,
        0x1E7E7 => XX,
        0x1E7E8..=0x1E7EB => AL,
        0x1E7EC => XX,
        0x1E7ED..=0x1E7EE => AL,
        0x1E7EF => XX,
        0x1E7F0..=0x1E7FE => AL,
        0x1E7FF => XX,
        0x1E800..=0x1E8C4 => AL,
        0x1E8C5..=0x1E8C6 => XX,
        0x1E8C7..=0x1E8CF => AL,
        0x1E8D0..=0x1E8D6 => CM,
        0x1E8D7..=0x1E8FF => XX,
        0x1E900..=0x1E943 => AL,
        0x1E944..=0x1E94A => CM,
        0x1E94B => AL,
        0x1E94C..=0x1E94F => XX,
        0x1E950..=0x1E959 => NU,
        0x1E95A..=0x1E95D => XX,
        0x1E95E..=0x1E95F => OP,
        0x1E960..=0x1EC70 => XX,
        _ => AL,
    }
}

/// The classes from U+1ECAC to U+1EE5F.
pub open spec fn class_51(code: u32) -> u8 {
    match code {
        _ if code <= 0x1ECAC => PO,
        _ if code <= 0x1ECAF => AL,
        _ if code <= 0x1ECB0 => PO,
        _ if code <= 0x1ECB4 => AL,
        _ if code <= 0x1ED00 => XX,
        _ if code <= 0x1ED3D => AL,
        _ if code <= 0x1EDFF => XX,
        _ if code <= 0x1EE03 => AL,
        _ if code <= 0x1EE04 => XX,
        _ if code <= 0x1EE1F => AL,
        _ if code <= 0x1EE20 => XX,
        _ if code <= 0x1EE22 => AL,
        _ if code <= 0x1EE23 => XX,
        _ if code <= 0x1EE24 => AL,
        _ if code <= 0x1EE26 => XX,
        _ if code <= 0x1EE27 => AL,
        _ if code <= 0x1EE28 => XX,
        _ if code <= 0x1EE32 => AL,
        _ if code <= 0x1EE33 => XX,
        _ if code <= 0x1EE37 => AL,
        _ if code <= 0x1EE38 => XX,
        _ if code <= 0x1EE39 => AL,
        _ if code <= 0x1EE3A => XX,
        _ if code <= 0x1EE3B => AL,
        _ if code <= 0x1EE41 => XX,
        _ if code <= 0x1EE42 => AL,
        _ if code <= 0x1EE46 => XX,
        _ if code <= 0x1EE47 => AL,
        _ if code <= 0x1EE48 => XX,
        _ if code <= 0x1EE49 => AL,
        _ if code <= 0x1EE4A => XX,
        _ if code <= 0x1EE4B => AL,
        _ if code <= 0x1EE4C => XX,
        _ if code <= 0x1EE4F => AL,
        _ if code <= 0x1EE50 => XX,
        _ if code <= 0x1EE52 => AL,
        _ if code <= 0x1EE53 => XX,
        _ if code <= 0x1EE54 => AL,
        _ if code <= 0x1EE56 => XX,
        _ if code <= 0x1EE57 => AL,
        _ if code <= 0x1EE58 => XX,
        _ if code <= 0x1EE59 => AL,
        _ if code <= 0x1EE5A => XX,
        _ if code <= 0x1EE5B => AL,
        _ if code <= 0x1EE5C => XX,
        _ if code <= 0x1EE5D => AL,
        _ if code <= 0x1EE5E => XX,
        _ => AL,
    }
}

fn block_51(code: u32) -> (class: u8)
    requires
        0x1ECAC <= code <= 0x1EE5F,
    ensures
        class == class_51(code),
        is_class(class),
{
    match code {
        0x1ECAC => PO,
        0x1ECAD..=0x1ECAF => AL,
        0x1ECB0 => PO,
        0x1ECB1..=0x1ECB4 => AL,
        0x1ECB5..=0x1ED00 => XX,
        0x1ED01..=0x1ED3D => AL,
        0x1ED3E..=0x1EDFF => XX,
        0x1EE00..=0x1EE03 => AL,
        0x1EE04 => XX,
        0x1EE05..=0x1EE1F => AL,
        0x1EE20 => XX,
        0x1EE21..=0x1EE22 => AL,
        0x1EE23 => XX,
        0x1EE24 => AL,
        0x1EE25..=0x1EE26 => XX,
        0x1EE27 => AL,
        0x1EE28 => XX,
        0x1EE29..=0x1EE32 => AL,
        0x1EE33 => XX,
        0x1EE34..=0x1EE37 => AL,
        0x1EE38 => XX,
        0x1EE39 => AL,
        0x1EE3A => XX,
        0x1EE3B => AL,
        0x1EE3C..=0x1EE41 => XX,
        0x1EE42 => AL,
        0x1EE43..=0x1EE46 => XX,
        0x1EE47 => AL,
        0x1EE48 => XX,
        0x1EE49 => AL,
        0x1EE4A => XX,
        0x1EE4B => AL,
        0x1EE4C => XX,
        0x1EE4D..=0x1EE4F => AL,
        0x1EE50 => XX,
        0x1EE51..=0x1EE52 => AL,
        0x1EE53 => XX,
        0x1EE54 => AL,
        0x1EE55..=0x1EE56 => XX,
        0x1EE57 => AL,
        0x1EE58 => XX,
        0x1EE59 => AL,
        0x1EE5A => XX,
        0x1EE5B => AL,
        0x1EE5C => XX,
        0x1EE5D => AL,
        0x1EE5E => XX,
        _ => AL,
    }
}

/// The classes from U+1EE60 to U+1F441.
pub open spec fn class_52(code: u32) -> u8 {
    match code {
        _ if code <= 0x1EE60 => XX,
        _ if code <= 0x1EE62 => AL,
        _ if code <= 0x1EE63 => XX,
        _ if code <= 0x1EE64 => AL,
        _ if code <= 0x1EE66 => XX,
        _ if code <= 0x1EE6A => AL,
        _ if code <= 0x1EE6B => XX,
        _ if code <= 0x1EE72 => AL,
        _ if code <= 0x1EE73 => XX,
        _ if code <= 0x1EE77 => AL,
        _ if code <= 0x1EE78 => XX,
        _ if code <= 0x1EE7C => AL,
        _ if code <= 0x1EE7D => XX,
        _ if code <= 0x1EE7E => AL,
        _ if code <= 0x1EE7F => XX,
        _ if code <= 0x1EE89 => AL,
        _ if code <= 0x1EE8A => XX,
        _ if code <= 0x1EE9B => AL,
        _ if code <= 0x1EEA0 => XX,
        _ if code <= 0x1EEA3 => AL,
        _ if code <= 0x1EEA4 => XX,
        _ if code <= 0x1EEA9 => AL,
        _ if code <= 0x1EEAA => XX,
        _ if code <= 0x1EEBB => AL,
        _ if code <= 0x1EEEF => XX,
        _ if code <= 0x1EEF1 => AL,
        _ if code <= 0x1EFFF => XX,
        _ if code <= 0x1F0FF => ID,
        _ if code <= 0x1F10C => AI,
        _ if code <= 0x1F10F => ID,
        _ if code <= 0x1F12D => AI,
        _ if code <= 0x1F12F => ID,
        _ if code <= 0x1F169 => AI,
        _ if code <= 0x1F16F => ID,
        _ if code <= 0x1F1AC => AI,
        _ if code <= 0x1F1E5 => ID,
        _ if code <= 0x1F1FF => RI,
        _ if code <= 0x1F384 => ID,
        _ if code <= 0x1F385 => EB,
        _ if code <= 0x1F3C1 => ID,
        _ if code <= 0x1F3C4 => EB,
        _ if code <= 0x1F3C6 => ID,
        _ if code <= 0x1F3C7 => EB,
        _ if code <= 0x1F3C9 => ID,
        _ if code <= 0x1F3CC => EB,
        _ if code <= 0x1F3FA => ID,
        _ if code <= 0x1F3FF => EM,
        _ => ID,
    }
}

fn block_52(code: u32) -> (class: u8)
    requires
        0x1EE60 <= code <= 0x1F441,
    ensures
        class == class_52(code),
        is_class(class),
{
    match code {
        0x1EE60 => XX,
        0x1EE61..=0x1EE62 => AL,
        0x1EE63 => XX,
        0x1EE64 => AL,
        0x1EE65..=0x1EE66 => XX,
        0x1EE67..=0x1EE6A => AL,
        0x1EE6B => XX,
        0x1EE6C..=0x1EE72 => AL,
        0x1EE73 => XX,
        0x1EE74..=0x1EE77 => AL,
        0x1EE78 => XX,
        0x1EE79..=0x1EE7C => AL,
        0x1EE7D => XX,
        0x1EE7E => AL,
        0x1EE7F => XX,
        0x1EE80..=0x1EE89 => AL,
        0x1EE8A => XX,
        0x1EE8B..=0x1EE9B => AL,
        0x1EE9C..=0x1EEA0 => XX,
        0x1EEA1..=0x1EEA3 => AL,
        0x1EEA4 => XX,
        0x1EEA5..=0x1EEA9 => AL,
        0x1EEAA => XX,
        0x1EEAB..=0x1EEBB => AL,
        0x1EEBC..=0x1EEEF => XX,
        0x1EEF0..=0x1EEF1 => AL,
        0x1EEF2..=0x1EFFF => XX,
        0x1F000..=0x1F0FF => ID,
        0x1F100..=0x1F10C => AI,
        0x1F10D..=0x1F10F => ID,
        0x1F110..=0x1F12D => AI,
        0x1F12E..=0x1F12F => ID,
        0x1F130..=0x1F169 => AI,
        0x1F16A..=0x1F16F => ID,
        0x1F170..=0x1F1AC => AI,
        0x1F1AD..=0x1F1E5 => ID,
        0x1F1E6..=0x1F1FF => RI,
        0x1F200..=0x1F384 => ID,
        0x1F385 => EB,
        0x1F386..=0x1F3C1 => ID,
        0x1F3C2..=0x1F3C4 => EB,
        0x1F3C5..=0x1F3C6 => ID,
        0x1F3C7 => EB,
        0x1F3C8..=0x1F3C9 => ID,
        0x1F3CA..=0x1F3CC => EB,
        0x1F3CD..=0x1F3FA => ID,
        0x1F3FB..=0x1F3FF => EM,
        _ => ID,
    }
}

/// The classes from U+1F442 to U+1F80F.
pub open spec fn class_53(code: u32) -> u8 {
    match code {
        _ if code <= 0x1F443 => EB,
        _ if code <= 0x1F445 => ID,
        _ if code <= 0x1F450 => EB,
        _ if code <= 0x1F465 => ID,
        _ if code <= 0x1F478 => EB,
        _ if code <= 0x1F47B => ID,
        _ if code <= 0x1F47C => EB,
        _ if code <= 0x1F480 => ID,
        _ if code <= 0x1F483 => EB,
        _ if code <= 0x1F484 => ID,
        _ if code <= 0x1F487 => EB,
        _ if code <= 0x1F48E => ID,
        _ if code <= 0x1F48F => EB,
        _ if code <= 0x1F490 => ID,
        _ if code <= 0x1F491 => EB,
        _ if code <= 0x1F4A9 => ID,
        _ if code <= 0x1F4AA => EB,
        _ if code <= 0x1F573 => ID,
        _ if code <= 0x1F575 => EB,
        _ if code <= 0x1F579 => ID,
        _ if code <= 0x1F57A => EB,
        _ if code <= 0x1F58F => ID,
        _ if code <= 0x1F590 => EB,
        _ if code <= 0x1F594 => ID,
        _ if code <= 0x1F596 => EB,
        _ if code <= 0x1F644 => ID,
        _ if code <= 0x1F647 => EB,
        _ if code <= 0x1F64A => ID,
        _ if code <= 0x1F64F => EB,
        _ if code <= 0x1F675 => AL,
        _ if code <= 0x1F678 => QU,
        _ if code <= 0x1F67B => NS,
        _ if code <= 0x1F67F => AL,
        _ if code <= 0x1F6A2 => ID,
        _ if code <= 0x1F6A3 => EB,
        _ if code <= 0x1F6B3 => ID,
        _ if code <= 0x1F6B6 => EB,
        _ if code <= 0x1F6BF => ID,
        _ if code <= 0x1F6C0 => EB,
        _ if code <= 0x1F6CB => ID,
        _ if code <= 0x1F6CC => EB,
        _ if code <= 0x1F6FF => ID,
        _ if code <= 0x1F773 => AL,
        _ if code <= 0x1F77F => ID,
        _ if code <= 0x1F7D8 => AL,
        _ if code <= 0x1F7FF => ID,
        _ if code <= 0x1F80B => AL,
        _ => ID,
    }
}

fn block_53(code: u32) -> (class: u8)
    requires
        0x1F442 <= code <= 0x1F80F,
    ensures
        class == class_53(code),
        is_class(class),
{
    match code {
        0x1F442..=0x1F443 => EB,
        0x1F444..=0x1F445 => ID,
        0x1F446..=0x1F450 => EB,
        0x1F451..=0x1F465 => ID,
        0x1F466..=0x1F478 => EB,
        0x1F479..=0x1F47B => ID,
        0x1F47C => EB,
        0x1F47D..=0x1F480 => ID,
        0x1F481..=0x1F483 => EB,
        0x1F484 => ID,
        0x1F485..=0x1F487 => EB,
        0x1F488..=0x1F48E => ID,
        0x1F48F => EB,
        0x1F490 => ID,
        0x1F491 => EB,
        0x1F492..=0x1F4A9 => ID,
        0x1F4AA => EB,
        0x1F4AB..=0x1F573 => ID,
        0x1F574..=0x1F575 => EB,
        0x1F576..=0x1F579 => ID,
        0x1F57A => EB,
        0x1F57B..=0x1F58F => ID,
        0x1F590 => EB,
        0x1F591..=0x1F594 => ID,
        0x1F595..=0x1F596 => EB,
        0x1F597..=0x1F644 => ID,
        0x1F645..=0x1F647 => EB,
        0x1F648..=0x1F64A => ID,
        0x1F64B..=0x1F64F => EB,
        0x1F650..=0x1F675 => AL,
        0x1F676..=0x1F678 => QU,
        0x1F679..=0x1F67B => NS,
        0x1F67C..=0x1F67F => AL,
        0x1F680..=0x1F6A2 => ID,
        0x1F6A3 => EB,
        0x1F6A4..=0x1F6B3 => ID,
        0x1F6B4..=0x1F6B6 => EB,
        0x1F6B7..=0x1F6BF => ID,
        0x1F6C0 => EB,
        0x1F6C1..=0x1F6CB => ID,
        0x1F6CC => EB,
        0x1F6CD..=0x1F6FF => ID,
        0x1F700..=0x1F773 => AL,
        0x1F774..=0x1F77F => ID,
        0x1F780..=0x1F7D8 => AL,
        0x1F7D9..=0x1F7FF => ID,
        0x1F800..=0x1F80B => AL,
        _ => ID,
    }
}

/// The classes from U+1F810 to U+1FFFF.
pub open spec fn class_54(code: u32) -> u8 {
    match code {
        _ if code <= 0x1F847 => AL,
        _ if code <= 0x1F84F => ID,
        _ if code <= 0x1F859 => AL,
        _ if code <= 0x1F85F => ID,
        _ if code <= 0x1F887 => AL,
        _ if code <= 0x1F88F => ID,
        _ if code <= 0x1F8AD => AL,
        _ if code <= 0x1F8AF => ID,
        _ if code <= 0x1F8B1 => AL,
        _ if code <= 0x1F90B => ID,
        _ if code <= 0x1F90C => EB,
        _ if code <= 0x1F90E => ID,
        _ if code <= 0x1F90F => EB,
        _ if code <= 0x1F917 => ID,
        _ if code <= 0x1F91F => EB,
        _ if code <= 0x1F925 => ID,
        _ if code <= 0x1F926 => EB,
        _ if code <= 0x1F92F => ID,
        _ if code <= 0x1F939 => EB,
        _ if code <= 0x1F93B => ID,
        _ if code <= 0x1F93E => EB,
        _ if code <= 0x1F976 => ID,
        _ if code <= 0x1F977 => EB,
        _ if code <= 0x1F9B4 => ID,
        _ if code <= 0x1F9B6 => EB,
        _ if code <= 0x1F9B7 => ID,
        _ if code <= 0x1F9B9 => EB,
        _ if code <= 0x1F9BA => ID,
        _ if code <= 0x1F9BB => EB,
        _ if code <= 0x1F9CC => ID,
        _ if code <= 0x1F9CF => EB,
        _ if code <= 0x1F9D0 => ID,
        _ if code <= 0x1F9DD => EB,
        _ if code <= 0x1F9FF => ID,
        _ if code <= 0x1FA53 => AL,
        _ if code <= 0x1FAC2 => ID,
        _ if code <= 0x1FAC5 => EB,
        _ if code <= 0x1FAEF => ID,
        _ if code <= 0x1FAF6 => EB,
        _ if code <= 0x1FAFF => ID,
        _ if code <= 0x1FB92 => AL,
        _ if code <= 0x1FB93 => XX,
        _ if code <= 0x1FBCA => AL,
        _ if code <= 0x1FBEF => XX,
        _ if code <= 0x1FBF9 => NU,
        _ if code <= 0x1FBFF => XX,
        _ if code <= 0x1FFFD => ID,
        _ => XX,
    }
}

fn block_54(code: u32) -> (class: u8)
    requires
        0x1F810 <= code <= 0x1FFFF,
    ensures
        class == class_54(code),
        is_class(class),
{
    match code {
        0x1F810..=0x1F847 => AL,
        0x1F848..=0x1F84F => ID,
        0x1F850..=0x1F859 => AL,
        0x1F85A..=0x1F85F => ID,
        0x1F860..=0x1F887 => AL,
        0x1F888..=0x1F88F => ID,
        0x1F890..=0x1F8AD => AL,
        0x1F8AE..=0x1F8AF => ID,
        0x1F8B0..=0x1F8B1 => AL,
        0x1F8B2..=0x1F90B => ID,
        0x1F90C => EB,
        0x1F90D..=0x1F90E => ID,
        0x1F90F => EB,
        0x1F910..=0x1F917 => ID,
        0x1F918..=0x1F91F => EB,
        0x1F920..=0x1F925 => ID,
        0x1F926 => EB,
        0x1F927..=0x1F92F => ID,
        0x1F930..=0x1F939 => EB,
        0x1F93A..=0x1F93B => ID,
        0x1F93C..=0x1F93E => EB,
        0x1F93F..=0x1F976 => ID,
        0x1F977 => EB,
        0x1F978..=0x1F9B4 => ID,
        0x1F9B5..=0x1F9B6 => EB,
        0x1F9B7 => ID,
        0x1F9B8..=0x1F9B9 => EB,
        0x1F9BA => ID,
        0x1F9BB => EB,
        0x1F9BC..=0x1F9CC => ID,
        0x1F9CD..=0x1F9CF => EB,
        0x1F9D0 => ID,
        0x1F9D1..=0x1F9DD => EB,
        0x1F9DE..=0x1F9FF => ID,
        0x1FA00..=0x1FA53 => AL,
        0x1FA54..=0x1FAC2 => ID,
        0x1FAC3..=0x1FAC5 => EB,
        0x1FAC6..=0x1FAEF => ID,
        0x1FAF0..=0x1FAF6 => EB,
        0x1FAF7..=0x1FAFF => ID,
        0x1FB00..=0x1FB92 => AL,
        0x1FB93 => XX,
        0x1FB94..=0x1FBCA => AL,
        0x1FBCB..=0x1FBEF => XX,
        0x1FBF0..=0x1FBF9 => NU,
        0x1FBFA..=0x1FBFF => XX,
        0x1FC00..=0x1FFFD => ID,
        _ => XX,
    }
}

/// The class that the table gives to `code`.
pub open spec fn table_class(code: u32) -> u8 {
    if code <= 0x00AC {
        class_00(code)
    } else if code <= 0x0482 {
        class_01(code)
    } else if code <= 0x06E4 {
        class_02(code)
    } else if code <= 0x0891 {
        class_03(code)
    } else if code <= 0x09EF {
        class_04(code)
    } else if code <= 0x0A8D {
        class_05(code)
    } else if code <= 0x0B44 {
        class_06(code)
    } else if code <= 0x0BF8 {
        class_07(code)
    } else if code <= 0x0CC4 {
        class_08(code)
    } else if code <= 0x0DBB {
        class_09(code)
    } else if code <= 0x0EFF {
        class_10(code)
    } else if code <= 0x0FCF {
        class_11(code)
    } else if code <= 0x12D6 {
        class_12(code)
    } else if code <= 0x17D6 {
        class_13(code)
    } else if code <= 0x19AB {
        class_14(code)
    } else if code <= 0x1C23 {
        class_15(code)
    } else if code <= 0x1FB5 {
        class_16(code)
    } else if code <= 0x2046 {
        class_17(code)
    } else if code <= 0x2120 {
        class_18(code)
    } else if code <= 0x2233 {
        class_19(code)
    } else if code <= 0x23F2 {
        class_20(code)
    } else if code <= 0x2615 {
        class_21(code)
    } else if code <= 0x26E1 {
        class_22(code)
    } else if code <= 0x2794 {
        class_23(code)
    } else if code <= 0x29FB {
        class_24(code)
    } else if code <= 0x2DD6 {
        class_25(code)
    } else if code <= 0x2E5B {
        class_26(code)
    } else if code <= 0x3041 {
        class_27(code)
    } else if code <= 0x30FB {
        class_28(code)
    } else if code <= 0xA7D2 {
        class_29(code)
    } else if code <= 0xA9C0 {
        class_30(code)
    } else if code <= 0xABE2 {
        class_31(code)
    } else if code <= 0xFDFF {
        class_32(code)
    } else if code <= 0xFE69 {
        class_33(code)
    } else if code <= 0xFFD1 {
        class_34(code)
    } else if code <= 0x102FB {
        class_35(code)
    } else if code <= 0x10755 {
        class_36(code)
    } else if code <= 0x10A13 {
        class_37(code)
    } else if code <= 0x10E7F {
        class_38(code)
    } else if code <= 0x11102 {
        class_39(code)
    } else if code <= 0x1128D {
        class_40(code)
    } else if code <= 0x1144E {
        class_41(code)
    } else if code <= 0x1173E {
        class_42(code)
    } else if code <= 0x11A0A {
        class_43(code)
    } else if code <= 0x11D36 {
        class_44(code)
    } else if code <= 0x1325D {
        class_45(code)
    } else if code <= 0x16B7C {
        class_46(code)
    } else if code <= 0x1BC9B {
        class_47(code)
    } else if code <= 0x1D4B9 {
        class_48(code)
    } else if code <= 0x1E007 {
        class_49(code)
    } else if code <= 0x1ECAB {
        class_50(code)
    } else if code <= 0x1EE5F {
        class_51(code)
    } else if code <= 0x1F441 {
        class_52(code)
    } else if code <= 0x1F80F {
        class_53(code)
    } else {
        class_54(code)
    }
}

/// Looks `code` up in the table.
pub fn table_lookup(code: u32) -> (class: u8)
    requires
        code < TABLE_LIMIT,
    ensures
        class == table_class(code),
        is_class(class),
{
    if code <= 0x3041 {
        if code <= 0x17D6 {
            if code <= 0x0B44 {
                if code <= 0x0891 {
                    if code <= 0x0482 {
                        if code <= 0x00AC {
                            block_00(code)
                        } else {
                            block_01(code)
                        }
                    } else {
                        if code <= 0x06E4 {
                            block_02(code)
                        } else {
                            block_03(code)
                        }
                    }
                } else {
                    if code <= 0x0A8D {
                        if code <= 0x09EF {
                            block_04(code)
                        } else {
                            block_05(code)
                        }
                    } else {
                        block_06(code)
                    }
                }
            } else {
                if code <= 0x0EFF {
                    if code <= 0x0CC4 {
                        if code <= 0x0BF8 {
                            block_07(code)
                        } else {
                            block_08(code)
                        }
                    } else {
                        if code <= 0x0DBB {
                            block_09(code)
                        } else {
                            block_10(code)
                        }
                    }
                } else {
                    if code <= 0x12D6 {
                        if code <= 0x0FCF {
                            block_11(code)
                        } else {
                            block_12(code)
                        }
                    } else {
                        block_13(code)
                    }
                }
            }
        } else {
            if code <= 0x23F2 {
                if code <= 0x2046 {
                    if code <= 0x1C23 {
                        if code <= 0x19AB {
                            block_14(code)
                        } else {
                            block_15(code)
                        }
                    } else {
                        if code <= 0x1FB5 {
                            block_16(code)
                        } else {
                            block_17(code)
                        }
                    }
                } else {
                    if code <= 0x2233 {
                        if code <= 0x2120 {
                            block_18(code)
                        } else {
                            block_19(code)
                        }
                    } else {
                        block_20(code)
                    }
                }
            } else {
                if code <= 0x29FB {
                    if code <= 0x26E1 {
                        if code <= 0x2615 {
                            block_21(code)
                        } else {
                            block_22(code)
                        }
                    } else {
                        if code <= 0x2794 {
                            block_23(code)
                        } else {
                            block_24(code)
                        }
                    }
                } else {
                    if code <= 0x2E5B {
                        if code <= 0x2DD6 {
                            block_25(code)
                        } else {
                            block_26(code)
                        }
                    } else {
                        block_27(code)
                    }
                }
            }
        }
    } else {
        if code <= 0x1144E {
            if code <= 0xFFD1 {
                if code <= 0xABE2 {
                    if code <= 0xA7D2 {
                        if code <= 0x30FB {
                            block_28(code)
                        } else {
                            block_29(code)
                        }
                    } else {
                        if code <= 0xA9C0 {
                            block_30(code)
                        } else {
                            block_31(code)
                        }
                    }
                } else {
                    if code <= 0xFE69 {
                        if code <= 0xFDFF {
                            block_32(code)
                        } else {
                            block_33(code)
                        }
                    } else {
                        block_34(code)
                    }
                }
            } else {
                if code <= 0x10E7F {
                    if code <= 0x10755 {
                        if code <= 0x102FB {
                            block_35(code)
                        } else {
                            block_36(code)
                        }
                    } else {
                        if code <= 0x10A13 {
                            block_37(code)
                        } else {
                            block_38(code)
                        }
                    }
                } else {
                    if code <= 0x1128D {
                        if code <= 0x11102 {
                            block_39(code)
                        } else {
                            block_40(code)
                        }
                    } else {
                        block_41(code)
                    }
                }
            }
        } else {
            if code <= 0x1D4B9 {
                if code <= 0x1325D {
                    if code <= 0x11A0A {
                        if code <= 0x1173E {
                            block_42(code)
                        } else {
                            block_43(code)
                        }
                    } else {
                        if code <= 0x11D36 {
                            block_44(code)
                        } else {
                            block_45(code)
                        }
                    }
                } else {
                    if code <= 0x1BC9B {
                        if code <= 0x16B7C {
                            block_46(code)
                        } else {
                            block_47(code)
                        }
                    } else {
                        block_48(code)
                    }
                }
            } else {
                if code <= 0x1EE5F {
                    if code <= 0x1ECAB {
                        if code <= 0x1E007 {
                            block_49(code)
                        } else {
                            block_50(code)
                        }
                    } else {
                        block_51(code)
                    }
                } else {
                    if code <= 0x1F80F {
                        if code <= 0x1F441 {
                            block_52(code)
                        } else {
                            block_53(code)
                        }
                    } else {
                        block_54(code)
                    }
                }
            }
        }
    }
}

} // verus!
