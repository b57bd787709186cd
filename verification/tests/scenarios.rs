use uax14_rs::classes::{B2_SP, CL_SP, HL_HY, OP_SP, QU_SP, RI_RI, ZW_SP};
use uax14_rs::pair::{resolve, Outcome};
use uax14_rs::{
    get_break_state, get_linebreak_property, get_linebreak_property_utf32_with_rule,
    get_linebreak_property_with_rule, is_break, LineBreakIterator, LineBreakIteratorLatin1,
    LineBreakIteratorUTF16, LineBreakRule, AI, AL, B2, BA, BK, CJ, CL, CM, CP, CR, GL, H2, H3, HL, HY,
    ID, IS, JL, JT, JV, LF, NS, NU, OP, OP_EA, PO, PR, PROP_COUNT, QU, RI, SA, SG, SP, WJ, XX, ZW,
    ZWJ,
};

const RULES: [LineBreakRule; 3] =
    [LineBreakRule::Strict, LineBreakRule::Normal, LineBreakRule::Loose];

fn native(text: &str, rule: LineBreakRule) -> Vec<usize> {
    let mut iter = LineBreakIterator::new_with_break_rule(text, rule);
    let mut found = Vec::new();
    while let Some(offset) = iter.next() {
        found.push(offset);
    }
    assert_eq!(None, iter.next());
    found
}

fn latin1(bytes: &[u8], rule: LineBreakRule) -> Vec<usize> {
    let mut iter = LineBreakIteratorLatin1::new_with_break_rule(bytes, rule);
    let mut found = Vec::new();
    while let Some(offset) = iter.next() {
        found.push(offset);
    }
    assert_eq!(None, iter.next());
    found
}

fn utf16(units: &[u16], rule: LineBreakRule) -> Vec<usize> {
    let mut iter = LineBreakIteratorUTF16::new_with_break_rule(units, rule);
    let mut found = Vec::new();
    while let Some(offset) = iter.next() {
        found.push(offset);
    }
    assert_eq!(None, iter.next());
    found
}

#[test]
fn end_to_end_examples() {
    let strict = LineBreakRule::Strict;
    assert_eq!(native("hello world", strict), vec![6, 11]);
    assert_eq!(native("$10 $10", strict), vec![4, 7]);
    assert_eq!(native("[  abc def", strict), vec![7, 10]);
    assert_eq!(native("(0,1)+(2,3)", strict), vec![11]);
    assert_eq!(native("\u{5B57}\u{5B57}\u{5B57}", strict), vec![3, 6, 9]);
}

#[test]
fn prolonged_sound_mark_follows_the_rule() {
    let text = "\u{6587}\u{30FC}\u{6587}";
    assert_eq!(native(text, LineBreakRule::Strict), vec![6, 9]);
    assert_eq!(native(text, LineBreakRule::Normal), vec![3, 6, 9]);
    assert_eq!(native(text, LineBreakRule::Loose), vec![3, 6, 9]);
}

#[test]
fn normal_rule_breaks_before_small_kana() {
    let text = "サンプル文\u{3041}サ";
    assert_eq!(native(text, LineBreakRule::Normal), vec![3, 6, 9, 12, 15, 18, 21]);
    assert_eq!(native(text, LineBreakRule::Strict), vec![3, 6, 9, 12, 18, 21]);
}

#[test]
fn empty_text_has_no_break() {
    for rule in RULES {
        assert_eq!(native("", rule), Vec::<usize>::new());
        assert_eq!(latin1(&[], rule), Vec::<usize>::new());
        assert_eq!(utf16(&[], rule), Vec::<usize>::new());
    }
    let mut iter = LineBreakIterator::new("");
    assert_eq!(None, iter.next());
    assert_eq!(None, iter.next());
}

#[test]
fn new_uses_the_strict_rule() {
    assert!(LineBreakRule::default() == LineBreakRule::Strict);
    let text = "サンプル文\u{3041}サ";
    let mut iter = LineBreakIterator::new(text);
    let mut found = Vec::new();
    while let Some(offset) = iter.next() {
        found.push(offset);
    }
    assert_eq!(found, native(text, LineBreakRule::Strict));
    assert_ne!(found, native(text, LineBreakRule::Loose));
}

#[test]
fn the_three_encodings_agree() {
    let texts = [
        "hello world",
        "$10 $10",
        "[  abc def",
        "(0,1)+(2,3)",
        "caf\u{E9} au lait",
        "na\u{EF}ve (test) 50% off",
        "price: $1,000.00 (net)",
        "A\u{A0}B a\u{AD}b x-y",
        "a\r\nb\nc",
        "\u{AB} quoted \u{BB} 12\u{B0}",
    ];
    for text in texts {
        let chars: Vec<char> = text.chars().collect();
        let bytes: Vec<u8> = chars.iter().map(|c| *c as u8).collect();
        let units: Vec<u16> = chars.iter().map(|c| *c as u16).collect();
        let mut byte_offset = vec![0usize];
        for c in &chars {
            byte_offset.push(byte_offset[byte_offset.len() - 1] + c.len_utf8());
        }
        for rule in RULES {
            let positions = latin1(&bytes, rule);
            assert_eq!(utf16(&units, rule), positions, "{}", text);
            let in_bytes: Vec<usize> = positions.iter().map(|p| byte_offset[*p]).collect();
            assert_eq!(native(text, rule), in_bytes, "{}", text);
        }
    }
    assert_eq!(native("caf\u{E9} au lait", LineBreakRule::Strict), vec![6, 9, 13]);
    assert_eq!(latin1(b"caf\xE9 au lait", LineBreakRule::Strict), vec![5, 8, 12]);
}

#[test]
fn utf16_and_native_agree_beyond_latin1() {
    let texts = [
        "サンプル文\u{3041}サンプル文",
        "\u{1F3FB} \u{1F3FB}",
        "\u{1F1EF}\u{1F1F5}\u{1F1FA}\u{1F1F8}",
        "\u{2014}\u{2014}  \u{2014}\u{2014}123 abc",
        "\u{5B57}\u{308}\u{5B57} \u{20000}\u{20001}",
    ];
    for text in texts {
        let units: Vec<u16> = text.encode_utf16().collect();
        let mut unit_offset = Vec::new();
        let mut at = 0usize;
        for (byte, c) in text.char_indices() {
            unit_offset.push((byte, at));
            at += c.len_utf16();
        }
        unit_offset.push((text.len(), at));
        for rule in RULES {
            let in_units: Vec<usize> = native(text, rule)
                .iter()
                .map(|b| unit_offset.iter().find(|(byte, _)| byte == b).unwrap().1)
                .collect();
            assert_eq!(utf16(&units, rule), in_units, "{}", text);
        }
    }
}

#[test]
fn offsets_ascend_to_the_length() {
    let texts = [
        "a",
        " ",
        "hello world",
        "one two  three\tfour",
        "(0,1)+(2,3)",
        "サンプル文\u{20ac}サンプル文",
        "\u{1F1EF}\u{1F1F5}\u{1F1FA}",
        "abc 12,345.67% def",
        "x\u{200B}y\u{2060}z",
    ];
    for text in texts {
        for rule in RULES {
            let found = native(text, rule);
            assert!(!found.is_empty());
            assert!(found[0] > 0);
            for pair in found.windows(2) {
                assert!(pair[0] < pair[1], "{}", text);
            }
            assert_eq!(*found.last().unwrap(), text.len());
            for offset in &found {
                assert!(text.is_char_boundary(*offset));
            }
            let units: Vec<u16> = text.encode_utf16().collect();
            let found = utf16(&units, rule);
            for pair in found.windows(2) {
                assert!(pair[0] < pair[1], "{}", text);
            }
            assert_eq!(*found.last().unwrap(), units.len());
        }
    }
}

#[test]
fn classification_is_repeatable() {
    let codes = [
        0x20u32, 0x28, 0x30, 0xA7, 0x2010, 0x2013, 0x3005, 0x3041, 0x30FC, 0xAC00, 0xD800, 0x1F3FB,
        0x20000, 0xE0020, 0x10FFFF,
    ];
    for code in codes {
        for rule in RULES {
            let first = get_linebreak_property_utf32_with_rule(code, rule);
            let second = get_linebreak_property_utf32_with_rule(code, rule);
            assert_eq!(first, second);
            assert!(1 <= first && first <= 44);
            if let Some(c) = char::from_u32(code) {
                assert_eq!(get_linebreak_property_with_rule(c, rule), first);
            }
        }
    }
}

#[test]
fn no_break_inside_a_numeric_run() {
    let strict = LineBreakRule::Strict;
    // the run "12,345.67%" covers the offsets 4 to 14
    assert_eq!(native("abc 12,345.67% def", strict), vec![4, 15, 18]);
    // the run "$(12.50)" covers the offsets 0 to 8
    assert_eq!(native("$(12.50) x", strict), vec![9, 10]);
    // "$1,000.00" covers the offsets 7 to 16
    assert_eq!(native("price: $1,000.00 (net)", strict), vec![7, 17, 22]);
    assert_eq!(native("12%34", strict), vec![5]);
    assert_eq!(native("10$ 20", strict), vec![4, 6]);
    assert_eq!(latin1(b"(0,1)+(2,3)", strict), vec![11]);
}

#[test]
fn numeric_run_at_the_end_of_the_text() {
    let strict = LineBreakRule::Strict;
    assert_eq!(native("abc 123", strict), vec![4, 7]);
    assert_eq!(native("-5", strict), vec![2]);
    assert_eq!(native("$", strict), vec![1]);
    assert_eq!(native("$(", strict), vec![2]);
    assert_eq!(native("x 1 y", strict), vec![2, 4, 5]);
}

#[test]
fn numeric_separators_outside_a_run() {
    let strict = LineBreakRule::Strict;
    assert_eq!(native("a.2 ", strict), vec![2, 4]);
    assert_eq!(native("}%", strict), vec![1, 2]);
}

#[test]
fn surrogate_pairs_count_two_units() {
    let strict = LineBreakRule::Strict;
    let units: [u16; 5] = [0xD83C, 0xDFFB, 0x20, 0xD83C, 0xDFFB];
    assert_eq!(utf16(&units, strict), vec![3, 5]);
    assert_eq!(native("\u{1F3FB} \u{1F3FB}", strict), vec![5, 9]);
    let pair: [u16; 4] = [0xD842, 0xDFB7, 0xD842, 0xDFB7];
    assert_eq!(utf16(&pair, strict), vec![2, 4]);
    assert_eq!(native("\u{20BB7}\u{20BB7}", strict), vec![4, 8]);
}

#[test]
fn lone_surrogates_are_single_units() {
    let strict = LineBreakRule::Strict;
    assert_eq!(utf16(&[0xD800], strict), vec![1]);
    assert_eq!(utf16(&[0xDC00], strict), vec![1]);
    assert_eq!(utf16(&[0x61, 0xD800, 0x61], strict), vec![3]);
    assert_eq!(utf16(&[0xDC00, 0xD800], strict), vec![2]);
    assert_eq!(utf16(&[0x61, 0x20, 0xD83C], strict), vec![2, 3]);
    assert_eq!(utf16(&[0xD83C, 0x20, 0xDFFB], strict), vec![2, 3]);
    assert_eq!(get_linebreak_property_utf32_with_rule(0xD800, strict), SG);
    assert_eq!(get_linebreak_property_utf32_with_rule(0xDFFF, strict), SG);
}

#[test]
fn regional_indicators_pair_up() {
    let strict = LineBreakRule::Strict;
    assert_eq!(native("\u{1F1EF}\u{1F1F5}\u{1F1FA}\u{1F1F8}", strict), vec![8, 16]);
    assert_eq!(native("\u{1F1EF}\u{1F1F5}\u{1F1FA}", strict), vec![8, 12]);
    let units: Vec<u16> = "\u{1F1EF}\u{1F1F5}\u{1F1FA}\u{1F1F8}".encode_utf16().collect();
    assert_eq!(utf16(&units, strict), vec![4, 8]);
}

#[test]
fn marks_spaces_and_joiners() {
    let strict = LineBreakRule::Strict;
    assert_eq!(native("a\u{308} b", strict), vec![4, 5]);
    assert_eq!(native("\u{5B57}\u{308}\u{5B57}", strict), vec![5, 8]);
    assert_eq!(native("a\u{200B}b", strict), vec![4, 5]);
    assert_eq!(native("a\u{200B} b", strict), vec![5, 6]);
    assert_eq!(native("a\nb", strict), vec![2, 3]);
    assert_eq!(native("a\r\nb", strict), vec![3, 4]);
    assert_eq!(native("\u{5D0}-\u{5D1}", strict), vec![5]);
    assert_eq!(native("a-b", strict), vec![2, 3]);
    assert_eq!(latin1(&[0x41, 0xA0, 0x42], strict), vec![3]);
    assert_eq!(latin1(&[0x61, 0xAD, 0x62], strict), vec![2, 3]);
}

#[test]
fn classes_of_single_code_points() {
    assert_eq!(get_linebreak_property('a'), AL);
    assert_eq!(get_linebreak_property('\u{E9}'), AL);
    assert_eq!(get_linebreak_property('\n'), LF);
    assert_eq!(get_linebreak_property('\r'), CR);
    assert_eq!(get_linebreak_property('\t'), BA);
    assert_eq!(get_linebreak_property('-'), HY);
    assert_eq!(get_linebreak_property(')'), CP);
    assert_eq!(get_linebreak_property('}'), CL);
    assert_eq!(get_linebreak_property(','), IS);
    assert_eq!(get_linebreak_property('$'), PR);
    assert_eq!(get_linebreak_property('\u{A0}'), GL);
    assert_eq!(get_linebreak_property('\u{200B}'), ZW);
    assert_eq!(get_linebreak_property('\u{200D}'), ZWJ);
    assert_eq!(get_linebreak_property('\u{2060}'), WJ);
    assert_eq!(get_linebreak_property('\u{308}'), CM);
    assert_eq!(get_linebreak_property('\u{5D0}'), HL);
    assert_eq!(get_linebreak_property('\u{E01}'), SA);
    assert_eq!(get_linebreak_property('\u{E50}'), NU);
    assert_eq!(get_linebreak_property('\u{FF08}'), OP_EA);
    assert_eq!(get_linebreak_property('\u{6587}'), ID);
    assert_eq!(get_linebreak_property('\u{30B5}'), ID);
    assert_eq!(get_linebreak_property('\u{1F1E6}'), RI);
    assert_eq!(get_linebreak_property('\u{AC00}'), H2);
    assert_eq!(get_linebreak_property('\u{AC01}'), H3);
    assert_eq!(get_linebreak_property('\u{AC1C}'), H2);
    assert_eq!(get_linebreak_property('\u{D7A3}'), H3);
    assert_eq!(get_linebreak_property('\u{1100}'), JL);
    assert_eq!(get_linebreak_property('\u{1161}'), JV);
    assert_eq!(get_linebreak_property('\u{11A8}'), JT);
    assert_eq!(get_linebreak_property('\u{E000}'), XX);
    assert_eq!(get_linebreak_property('\u{203C}'), NS);
    assert_eq!(get_linebreak_property('\u{20AC}'), PR);
    assert_eq!(get_linebreak_property('\u{301C}'), NS);
    assert_eq!(get_linebreak_property('\u{30FC}'), CJ);
    assert_eq!(get_linebreak_property('"'), QU);
    assert_eq!(get_linebreak_property('\u{2014}'), B2);
    assert_eq!(get_linebreak_property('\u{A7}'), AI);
    assert_eq!(get_linebreak_property('%'), PO);
    assert_eq!(get_linebreak_property('0'), NU);
    assert_eq!(get_linebreak_property('('), OP);
    assert_eq!(get_linebreak_property(' '), SP);
}

#[test]
fn classes_above_the_table() {
    let strict = LineBreakRule::Strict;
    assert_eq!(get_linebreak_property_utf32_with_rule(0x1FFFF, strict), XX);
    assert_eq!(get_linebreak_property_utf32_with_rule(0x20000, strict), ID);
    assert_eq!(get_linebreak_property_utf32_with_rule(0x2FFFD, strict), ID);
    assert_eq!(get_linebreak_property_utf32_with_rule(0x2FFFE, strict), XX);
    assert_eq!(get_linebreak_property_utf32_with_rule(0x30000, strict), ID);
    assert_eq!(get_linebreak_property_utf32_with_rule(0x3FFFD, strict), ID);
    assert_eq!(get_linebreak_property_utf32_with_rule(0x3FFFE, strict), XX);
    assert_eq!(get_linebreak_property_utf32_with_rule(0xE0000, strict), XX);
    assert_eq!(get_linebreak_property_utf32_with_rule(0xE0001, strict), CM);
    assert_eq!(get_linebreak_property_utf32_with_rule(0xE001F, strict), XX);
    assert_eq!(get_linebreak_property_utf32_with_rule(0xE0020, strict), CM);
    assert_eq!(get_linebreak_property_utf32_with_rule(0xE007F, strict), CM);
    assert_eq!(get_linebreak_property_utf32_with_rule(0xE0080, strict), XX);
    assert_eq!(get_linebreak_property_utf32_with_rule(0xE0100, strict), CM);
    assert_eq!(get_linebreak_property_utf32_with_rule(0xE01EF, strict), CM);
    assert_eq!(get_linebreak_property_utf32_with_rule(0xE01F0, strict), XX);
    assert_eq!(get_linebreak_property_utf32_with_rule(0x10FFFF, strict), XX);
    assert_eq!(get_linebreak_property_utf32_with_rule(0x110000, strict), XX);
    assert_eq!(get_linebreak_property_utf32_with_rule(u32::MAX, LineBreakRule::Loose), XX);
}

#[test]
fn rules_reclassify() {
    let strict = LineBreakRule::Strict;
    let normal = LineBreakRule::Normal;
    let loose = LineBreakRule::Loose;
    for mark in ['\u{3005}', '\u{303B}', '\u{309D}', '\u{309E}', '\u{30FD}', '\u{30FE}'] {
        assert_eq!(get_linebreak_property_with_rule(mark, strict), NS);
        assert_eq!(get_linebreak_property_with_rule(mark, normal), ID);
        assert_eq!(get_linebreak_property_with_rule(mark, loose), ID);
    }
    for hyphen in ['\u{2010}', '\u{2013}'] {
        assert_eq!(get_linebreak_property_with_rule(hyphen, strict), BA);
        assert_eq!(get_linebreak_property_with_rule(hyphen, normal), ID);
        assert_eq!(get_linebreak_property_with_rule(hyphen, loose), ID);
    }
    for code in 0..0x30000u32 {
        assert_eq!(
            get_linebreak_property_utf32_with_rule(code, normal),
            get_linebreak_property_utf32_with_rule(code, loose)
        );
    }
    for kana in ['\u{3041}', '\u{30FC}', '\u{31F0}', '\u{FF70}'] {
        assert_eq!(get_linebreak_property_with_rule(kana, strict), CJ);
        assert_eq!(get_linebreak_property_with_rule(kana, normal), ID);
        assert_eq!(get_linebreak_property_with_rule(kana, loose), ID);
    }
    for rule in RULES {
        assert_eq!(get_linebreak_property_with_rule('\u{301C}', rule), NS);
        assert_eq!(get_linebreak_property_with_rule('a', rule), AL);
        assert_eq!(get_linebreak_property_with_rule('\u{20000}', rule), ID);
    }
}

#[test]
fn outcome_codes_and_states() {
    assert_eq!(PROP_COUNT, 51);
    assert_eq!(get_break_state(AL, SP), -1);
    assert_eq!(get_break_state(SP, AL), -2);
    assert_eq!(get_break_state(OP, SP), OP_SP as i8);
    assert_eq!(get_break_state(OP_SP, SP), OP_SP as i8);
    assert_eq!(get_break_state(OP_SP, AL), -1);
    assert_eq!(get_break_state(QU, SP), QU_SP as i8);
    assert_eq!(get_break_state(QU_SP, OP), -1);
    assert_eq!(get_break_state(QU_SP, AL), -2);
    assert_eq!(get_break_state(CL, SP), CL_SP as i8);
    assert_eq!(get_break_state(CP, SP), CL_SP as i8);
    assert_eq!(get_break_state(CL_SP, NS), -1);
    assert_eq!(get_break_state(CL_SP, AL), -2);
    assert_eq!(get_break_state(B2, SP), B2_SP as i8);
    assert_eq!(get_break_state(B2_SP, B2), -1);
    assert_eq!(get_break_state(B2_SP, AL), -2);
    assert_eq!(get_break_state(ZW, SP), ZW_SP as i8);
    assert_eq!(get_break_state(ZW_SP, AL), -2);
    assert_eq!(get_break_state(ZW_SP, CL), -2);
    assert_eq!(get_break_state(HL, HY), HL_HY as i8);
    assert_eq!(get_break_state(HL, BA), HL_HY as i8);
    assert_eq!(get_break_state(HL_HY, AL), -1);
    assert_eq!(get_break_state(HY, AL), -2);
    assert_eq!(get_break_state(RI, RI), RI_RI as i8);
    assert_eq!(get_break_state(RI_RI, RI), -2);
    assert_eq!(get_break_state(RI_RI, CM), RI_RI as i8);
    assert_eq!(get_break_state(AL, CM), AL as i8);
    assert_eq!(get_break_state(ID, CM), ID as i8);
    assert_eq!(get_break_state(SP, CM), -2);
    assert_eq!(get_break_state(ZWJ, CM), ZWJ as i8);
    assert_eq!(get_break_state(ZWJ, ID), -1);
    assert_eq!(get_break_state(ID, ZWJ), -1);
    assert_eq!(get_break_state(ID, CJ), -1);
    assert_eq!(get_break_state(CJ, ID), -2);
    assert_eq!(get_break_state(AI, AL), -1);
    assert_eq!(get_break_state(SA, XX), -1);
    assert_eq!(get_break_state(AL, OP), -1);
    assert_eq!(get_break_state(AL, OP_EA), -2);
    assert_eq!(get_break_state(IS, NU), -2);
    assert_eq!(get_break_state(CL, PO), -2);
    assert_eq!(get_break_state(PR, OP), -2);
    assert_eq!(is_break(OP, SP), true);
    assert_eq!(is_break(RI, RI), true);
    assert_eq!(is_break(H2, JT), false);
    assert_eq!(is_break(H3, JT), false);
    assert_eq!(is_break(JV, JV), false);
    assert_eq!(is_break(JT, JL), true);
    assert_eq!(is_break(WJ, ID), false);
    assert_eq!(is_break(ID, GL), false);
    assert_eq!(is_break(BA, GL), true);
    assert_eq!(is_break(CP, NU), false);
    assert_eq!(is_break(NU, AL), false);
    assert_eq!(is_break(PO, AL), false);
    assert_eq!(is_break(ID, PO), false);
    assert_eq!(is_break(ID, PR), true);
}

#[test]
fn outcomes_are_tagged() {
    assert!(resolve(AL, SP) == Outcome::NoBreak);
    assert!(resolve(SP, AL) == Outcome::BreakHere);
    assert!(resolve(OP, SP) == Outcome::Continue(OP_SP));
    assert!(resolve(AL, CM) == Outcome::Continue(AL));
    assert!(resolve(RI, RI) == Outcome::Continue(RI_RI));
    assert!(resolve(RI_RI, RI) == Outcome::BreakHere);
    assert!(resolve(CR, LF) == Outcome::NoBreak);
    assert!(resolve(CR, CR) == Outcome::BreakHere);
}

#[test]
fn hyphens_break_on_both_sides_unless_strict() {
    for text in ["a\u{2010}b", "a\u{2013}b"] {
        assert_eq!(native(text, LineBreakRule::Strict), vec![4, 5]);
        assert_eq!(native(text, LineBreakRule::Normal), vec![1, 4, 5]);
        assert_eq!(native(text, LineBreakRule::Loose), vec![1, 4, 5]);
    }
    let units: [u16; 3] = [0x61, 0x2010, 0x62];
    assert_eq!(utf16(&units, LineBreakRule::Strict), vec![2, 3]);
    assert_eq!(utf16(&units, LineBreakRule::Normal), vec![1, 2, 3]);
    assert_eq!(utf16(&units, LineBreakRule::Loose), vec![1, 2, 3]);
}

#[test]
fn a_state_on_the_right_counts_as_its_first_class() {
    let pairs = [
        (OP_SP, OP),
        (QU_SP, QU),
        (CL_SP, CL),
        (B2_SP, B2),
        (ZW_SP, ZW),
        (HL_HY, HL),
        (RI_RI, RI),
    ];
    for (state, class) in pairs {
        for current in 1..=51u8 {
            assert_eq!(get_break_state(current, state), get_break_state(current, class));
            assert_eq!(is_break(current, state), is_break(current, class));
            assert!(resolve(current, state) == resolve(current, class));
        }
    }
    assert_eq!(get_break_state(AL, OP_SP), -1);
    assert_eq!(get_break_state(AL, QU_SP), -1);
    assert_eq!(get_break_state(AL, CL_SP), -1);
    assert_eq!(get_break_state(AL, B2_SP), -2);
    assert_eq!(get_break_state(AL, ZW_SP), -1);
    assert_eq!(get_break_state(AL, HL_HY), -1);
    assert_eq!(get_break_state(AL, RI_RI), -2);
    assert_eq!(get_break_state(RI, RI_RI), RI_RI as i8);
    assert_eq!(get_break_state(RI_RI, RI_RI), -2);
    assert_eq!(get_break_state(B2_SP, B2_SP), -1);
    assert_eq!(get_break_state(BK, RI_RI), -2);
    assert_eq!(is_break(RI, RI_RI), true);
    assert_eq!(is_break(ID, HL_HY), true);
}

#[test]
fn every_table_entry_is_a_decision_or_a_state() {
    for current in 1..=51u8 {
        for next in 1..=51u8 {
            let code = get_break_state(current, next);
            assert!(code == -1 || code == -2 || (1 <= code && code <= 51));
            assert_eq!(is_break(current, next), code != -1);
        }
    }
}
