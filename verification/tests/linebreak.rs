use uax14_rs::get_linebreak_property;
use uax14_rs::is_break;
use uax14_rs::LineBreakIterator;
use uax14_rs::LineBreakIteratorLatin1;
use uax14_rs::LineBreakIteratorUTF16;
use uax14_rs::LineBreakRule;
use uax14_rs::{
    AI, AL, B2, BA, BB, BK, CB, CJ, CL, CM, CP, CR, EB, EM, EX, GL, H2, HL, HY, ID, IN, IS, JL, JV,
    LF, NL, NS, NU, OP, PO, PR, QU, SP, SY, WJ, XX, ZW, ZWJ,
};

#[test]
fn linebreak_propery() {
    assert_eq!(get_linebreak_property('\u{0020}'), SP);
    assert_eq!(get_linebreak_property('\u{0022}'), QU);
    assert_eq!(get_linebreak_property('('), OP);
    assert_eq!(get_linebreak_property('\u{0030}'), NU);
    assert_eq!(get_linebreak_property('['), OP);
    assert_eq!(get_linebreak_property('\u{1f3fb}'), EM);
    assert_eq!(get_linebreak_property('\u{20000}'), ID);
    assert_eq!(get_linebreak_property('\u{e0020}'), CM);
    assert_eq!(get_linebreak_property('\u{3041}'), CJ);
    assert_eq!(get_linebreak_property('\u{0025}'), PO);
    assert_eq!(get_linebreak_property('\u{00A7}'), AI);
    assert_eq!(get_linebreak_property('\u{50005}'), XX);
    assert_eq!(get_linebreak_property('\u{17D6}'), NS);
    assert_eq!(get_linebreak_property('\u{2014}'), B2);
}

#[test]
fn break_rule() {
    // LB4
    assert_eq!(is_break(BK, AL), true);
    // LB5
    assert_eq!(is_break(CR, LF), false);
    assert_eq!(is_break(CR, AL), true);
    assert_eq!(is_break(LF, AL), true);
    assert_eq!(is_break(NL, AL), true);
    // LB6
    assert_eq!(is_break(AL, BK), false);
    assert_eq!(is_break(AL, CR), false);
    assert_eq!(is_break(AL, LF), false);
    assert_eq!(is_break(AL, NL), false);
    // LB7
    assert_eq!(is_break(AL, SP), false);
    assert_eq!(is_break(AL, ZW), false);
    // LB8
    // LB8a
    assert_eq!(is_break(ZWJ, AL), false);
    // LB11
    assert_eq!(is_break(AL, WJ), false);
    assert_eq!(is_break(WJ, AL), false);
    // LB12
    assert_eq!(is_break(GL, AL), false);
    // LB12a
    assert_eq!(is_break(AL, GL), false);
    assert_eq!(is_break(SP, GL), true);
    // LB13
    assert_eq!(is_break(AL, CL), false);
    assert_eq!(is_break(AL, CP), false);
    assert_eq!(is_break(AL, EX), false);
    assert_eq!(is_break(AL, IS), false);
    assert_eq!(is_break(AL, SY), false);
    // LB18
    assert_eq!(is_break(SP, AL), true);
    // LB19
    assert_eq!(is_break(AL, QU), false);
    assert_eq!(is_break(QU, AL), false);
    // LB20
    assert_eq!(is_break(AL, CB), true);
    assert_eq!(is_break(CB, AL), true);
    // LB20
    assert_eq!(is_break(AL, BA), false);
    assert_eq!(is_break(AL, HY), false);
    assert_eq!(is_break(AL, NS), false);
    assert_eq!(is_break(BB, AL), false);
    // LB21
    assert_eq!(is_break(AL, BA), false);
    // LB21a
    // LB21b
    assert_eq!(is_break(SY, HL), false);
    // LB22
    assert_eq!(is_break(AL, IN), false);
    // LB 23
    assert_eq!(is_break(AL, NU), false);
    assert_eq!(is_break(HL, NU), false);
    // LB 23a
    assert_eq!(is_break(PR, ID), false);
    // LB26
    assert_eq!(is_break(JL, JL), false);
    assert_eq!(is_break(JL, JV), false);
    assert_eq!(is_break(JL, H2), false);
    // LB27
    assert_eq!(is_break(JL, IN), false);
    assert_eq!(is_break(JL, PO), false);
    assert_eq!(is_break(PR, JL), false);
    // LB28
    assert_eq!(is_break(AL, AL), false);
    assert_eq!(is_break(HL, AL), false);
    // LB29
    assert_eq!(is_break(IS, AL), false);
    assert_eq!(is_break(IS, HL), false);
    // LB30b
    assert_eq!(is_break(EB, EM), false);
    // LB31
    assert_eq!(is_break(ID, ID), true);
}

#[test]
fn linebreak() {
    let mut iter = LineBreakIterator::new("hello world");
    assert_eq!(Some(6), iter.next());
    assert_eq!(Some(11), iter.next());
    assert_eq!(None, iter.next());

    iter = LineBreakIterator::new("$10 $10");
    assert_eq!(Some(4), iter.next());
    assert_eq!(Some(7), iter.next());

    // LB10

    // LB14
    iter = LineBreakIterator::new("[  abc def");
    assert_eq!(Some(7), iter.next());
    assert_eq!(Some(10), iter.next());
    assert_eq!(None, iter.next());

    let input: [u8; 10] = [0x5B, 0x20, 0x20, 0x61, 0x62, 0x63, 0x20, 0x64, 0x65, 0x66];
    let mut iter_u8 = LineBreakIteratorLatin1::new(&input);
    assert_eq!(Some(7), iter_u8.next());
    assert_eq!(Some(10), iter_u8.next());
    assert_eq!(None, iter_u8.next());

    let input: [u16; 10] = [0x5B, 0x20, 0x20, 0x61, 0x62, 0x63, 0x20, 0x64, 0x65, 0x66];
    let mut iter_u16 = LineBreakIteratorUTF16::new(&input);
    assert_eq!(Some(7), iter_u16.next());

    // LB15
    iter = LineBreakIterator::new("abc\u{0022}  (def");
    assert_eq!(Some(10), iter.next());

    let input: [u8; 10] = [0x61, 0x62, 0x63, 0x22, 0x20, 0x20, 0x28, 0x64, 0x65, 0x66];
    let mut iter_u8 = LineBreakIteratorLatin1::new(&input);
    assert_eq!(Some(10), iter_u8.next());

    let input: [u16; 10] = [0x61, 0x62, 0x63, 0x22, 0x20, 0x20, 0x28, 0x64, 0x65, 0x66];
    let mut iter_u16 = LineBreakIteratorUTF16::new(&input);
    assert_eq!(Some(10), iter_u16.next());

    // LB16
    iter = LineBreakIterator::new("\u{0029}\u{203C}");
    assert_eq!(Some(4), iter.next());
    iter = LineBreakIterator::new("\u{0029}  \u{203C}");
    assert_eq!(Some(6), iter.next());

    let input: [u16; 4] = [0x29, 0x20, 0x20, 0x203c];
    let mut iter_u16 = LineBreakIteratorUTF16::new(&input);
    assert_eq!(Some(4), iter_u16.next());

    // LB17
    iter = LineBreakIterator::new("\u{2014}\u{2014}aa");
    assert_eq!(Some(6), iter.next());
    iter = LineBreakIterator::new("\u{2014}  \u{2014}aa");
    assert_eq!(Some(8), iter.next());

    iter = LineBreakIterator::new("\u{2014}\u{2014}  \u{2014}\u{2014}123 abc");
    assert_eq!(Some(14), iter.next());
    assert_eq!(Some(18), iter.next());
    assert_eq!(Some(21), iter.next());

    // LB25
    let mut iter = LineBreakIterator::new("(0,1)+(2,3)");
    assert_eq!(Some(11), iter.next());
    let input: [u16; 11] = [
        0x28, 0x30, 0x2C, 0x31, 0x29, 0x2B, 0x28, 0x32, 0x2C, 0x33, 0x29,
    ];
    let mut iter_u16 = LineBreakIteratorUTF16::new(&input);
    assert_eq!(Some(11), iter_u16.next());

    let input: [u16; 13] = [
        0x2014, 0x2014, 0x20, 0x20, 0x2014, 0x2014, 0x31, 0x32, 0x33, 0x20, 0x61, 0x62, 0x63,
    ];
    let mut iter_u16 = LineBreakIteratorUTF16::new(&input);
    assert_eq!(Some(6), iter_u16.next());

    iter = LineBreakIterator::new("\u{1F3FB} \u{1F3FB}");
    assert_eq!(Some(5), iter.next());
}

#[test]
fn linebreak_strict() {
    let mut iter = LineBreakIterator::new_with_break_rule(
        "サンプル文\u{3041}サンプル文",
        LineBreakRule::Strict,
    );
    assert_eq!(Some(3), iter.next());
    assert_eq!(Some(6), iter.next());
    assert_eq!(Some(9), iter.next());
    assert_eq!(Some(12), iter.next());
    assert_eq!(Some(18), iter.next());
    assert_eq!(Some(21), iter.next());
    assert_eq!(Some(24), iter.next());
    assert_eq!(Some(27), iter.next());

    // from css/css-text/line-break/line-break-loose-012.xht
    let mut iter =
        LineBreakIterator::new_with_break_rule("サンプル文\u{30FC}サ", LineBreakRule::Strict);
    assert_eq!(Some(3), iter.next());
    assert_eq!(Some(6), iter.next());
    assert_eq!(Some(9), iter.next());
    assert_eq!(Some(12), iter.next());
    assert_eq!(Some(18), iter.next());
    assert_eq!(Some(21), iter.next());

    // from css/css-text/line-break/line-break-loose-018.xht
    let mut iter = LineBreakIterator::new_with_break_rule(
        "サンプル文\u{20ac}サンプル文",
        LineBreakRule::Strict,
    );
    assert_eq!(Some(3), iter.next());
    assert_eq!(Some(6), iter.next());
    assert_eq!(Some(9), iter.next());
    assert_eq!(Some(12), iter.next());
    assert_eq!(Some(15), iter.next());
    //assert_eq!(Some(18), iter.next());
    assert_eq!(Some(21), iter.next());
    assert_eq!(Some(24), iter.next());
    assert_eq!(Some(27), iter.next());
}

#[test]
fn linebreak_loose() {
    // from css/css-text/line-break/line-break-loose-011.xht
    let mut iter =
        LineBreakIterator::new_with_break_rule("サンプル文\u{3041}サ", LineBreakRule::Loose);
    assert_eq!(Some(3), iter.next());
    assert_eq!(Some(6), iter.next());
    assert_eq!(Some(9), iter.next());
    assert_eq!(Some(12), iter.next());
    assert_eq!(Some(15), iter.next());
    assert_eq!(Some(18), iter.next());
    assert_eq!(Some(21), iter.next());

    // from css/css-text/line-break/line-break-loose-012.xht
    let mut iter =
        LineBreakIterator::new_with_break_rule("サンプル文\u{30FC}サ", LineBreakRule::Loose);
    assert_eq!(Some(3), iter.next());
    assert_eq!(Some(6), iter.next());
    assert_eq!(Some(9), iter.next());
    assert_eq!(Some(12), iter.next());
    assert_eq!(Some(15), iter.next());
    assert_eq!(Some(18), iter.next());
    assert_eq!(Some(21), iter.next());

    // from css/css-text/line-break/line-break-loose-013.xht
    let mut iter =
        LineBreakIterator::new_with_break_rule("サンプル文\u{301C}サ", LineBreakRule::Loose);
    assert_eq!(Some(3), iter.next());
    assert_eq!(Some(6), iter.next());
    assert_eq!(Some(9), iter.next());
    assert_eq!(Some(12), iter.next());
    //assert_eq!(Some(15), iter.next());
    assert_eq!(Some(18), iter.next());
    assert_eq!(Some(21), iter.next());

    // from css/css-text/line-break/line-break-loose-018.xht
    let mut iter =
        LineBreakIterator::new_with_break_rule("サンプル文\u{20ac}サ", LineBreakRule::Loose);
    assert_eq!(Some(3), iter.next());
    assert_eq!(Some(6), iter.next());
    assert_eq!(Some(9), iter.next());
    assert_eq!(Some(12), iter.next());
    assert_eq!(Some(15), iter.next());
    assert_eq!(Some(21), iter.next());
}
