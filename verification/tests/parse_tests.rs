use arch_info::arch::Arch;
use arch_info::error::Error;
use arch_info::feat::{Feat, NUM_FIELDS};
use arch_info::info::ArchInfo;
use arch_info::parse::{parse_arch_info, parse_arch_line, parse_arch_name, separator, ws};
use bitvec::array::BitArray;
use bitvec::order::Lsb0;
use nom::bytes::complete::{tag, take};
use nom::character::complete::{alphanumeric1, multispace0};
use nom::combinator::recognize;
use nom::multi::fold_many_m_n;
use nom::sequence::{delimited, separated_pair};
use nom::IResult;

/// The flags of an entry, column by column.
fn flags(info: &ArchInfo) -> Vec<bool> {
    (0..NUM_FIELDS).map(|i| info.get(i).unwrap()).collect()
}

/// The flags that a string of markers stands for.
fn marked(markers: &str) -> Vec<bool> {
    markers.chars().take(NUM_FIELDS).map(|c| c != ' ' && c != '?').collect()
}

/// A line with the given name and markers, padded with blanks to all the columns.
fn line(name: &str, markers: &str) -> String {
    format!("{:<8}| {:<25}", name, markers)
}

fn nom_name(input: &str) -> IResult<&str, &str> {
    delimited(multispace0, recognize(alphanumeric1), multispace0)(input)
}

fn nom_info(input: &str) -> IResult<&str, Vec<bool>> {
    let (rest, (_idx, info)) = fold_many_m_n(
        NUM_FIELDS,
        NUM_FIELDS,
        take(1usize),
        || (0usize, vec![false; NUM_FIELDS]),
        |(idx, mut info): (usize, Vec<bool>), c: &str| {
            info[idx] = c != " " && c != "?";
            (idx + 1, info)
        },
    )(input)?;
    Ok((rest, info))
}

/// The line format written with parser combinators, to compare with.
fn nom_line(input: &str) -> Option<(String, Vec<bool>)> {
    match separated_pair(nom_name, tag("| "), nom_info)(input) {
        Ok((_, (name, info))) => Some((name.to_string(), info)),
        Err(_) => None,
    }
}

fn parsed(input: &str) -> Option<(String, Vec<bool>)> {
    match parse_arch_line(input) {
        Ok(Arch { name, info }) => Some((name.to_string(), flags(&info))),
        Err(e) => {
            assert_eq!(e, Error::BadParse { line: input.to_string() });
            None
        }
    }
}

#[test]
fn a_new_info_has_no_flag_set() {
    let info = ArchInfo::new();
    assert_eq!(flags(&info), vec![false; 25]);
    assert_eq!(info.iter_ones(), Vec::<usize>::new());
}

#[test]
fn set_writes_one_flag_and_leaves_the_others() {
    let info = ArchInfo::new().set(3, true);
    let mut expected = vec![false; 25];
    expected[3] = true;
    assert_eq!(flags(&info), expected);

    let info = info.set(24, true).set(0, true);
    expected[24] = true;
    expected[0] = true;
    assert_eq!(flags(&info), expected);

    let info = info.set(3, false);
    expected[3] = false;
    assert_eq!(flags(&info), expected);
}

#[test]
fn get_has_no_flag_past_the_last_column() {
    let info = ArchInfo::new().set(24, true);
    assert_eq!(info.get(24), Some(true));
    assert_eq!(info.get(23), Some(false));
    assert_eq!(info.get(25), None);
    assert_eq!(info.get(31), None);
    assert_eq!(info.get(32), None);
    assert_eq!(info.get(usize::MAX), None);
}

#[test]
fn iter_ones_lists_the_set_columns_in_ascending_order() {
    let info = ArchInfo::new().set(17, true).set(2, true).set(24, true).set(11, true);
    assert_eq!(info.iter_ones(), vec![2, 11, 17, 24]);
    let info = info.set(11, false);
    assert_eq!(info.iter_ones(), vec![2, 17, 24]);
}

#[test]
fn info_agrees_with_a_bit_array() {
    let mut array: BitArray<[u8; 4], Lsb0> = BitArray::ZERO;
    let mut info = ArchInfo::new();
    for (step, index) in [5usize, 0, 24, 11, 5, 8, 16, 23, 7, 15].iter().enumerate() {
        let value = step % 3 != 1;
        array.set(*index, value);
        info = info.set(*index, value);
        for i in 0..NUM_FIELDS {
            assert_eq!(info.get(i), array.get(i).as_deref().copied());
        }
        assert_eq!(info.iter_ones(), array.iter_ones().collect::<Vec<usize>>());
    }
}

#[test]
fn ws_drops_leading_white_space_only() {
    assert_eq!(ws("  \t\r\n x y "), "x y ");
    assert_eq!(ws("x  "), "x  ");
    assert_eq!(ws("   "), "");
    assert_eq!(ws(""), "");
    assert_eq!(ws("\u{a0}x"), "\u{a0}x");
}

#[test]
fn parse_arch_name_takes_the_name_and_the_space_around_it() {
    assert_eq!(parse_arch_name("  arm  | rest"), Some(("| rest", "arm")));
    assert_eq!(parse_arch_name("arm| rest"), Some(("| rest", "arm")));
    assert_eq!(parse_arch_name("m68k"), Some(("", "m68k")));
    assert_eq!(parse_arch_name("a-b"), Some(("-b", "a")));
    assert_eq!(parse_arch_name("x86 64"), Some(("64", "x86")));
}

#[test]
fn parse_arch_name_refuses_an_empty_name() {
    assert_eq!(parse_arch_name(""), None);
    assert_eq!(parse_arch_name("   "), None);
    assert_eq!(parse_arch_name("| H"), None);
    assert_eq!(parse_arch_name("  -arm"), None);
    assert_eq!(parse_arch_name("\u{e9}t\u{e9}"), None);
}

#[test]
fn separator_is_a_bar_and_a_blank() {
    assert_eq!(separator("| H"), Some("H"));
    assert_eq!(separator("| "), Some(""));
    assert_eq!(separator("|H"), None);
    assert_eq!(separator("|"), None);
    assert_eq!(separator(" | "), None);
    assert_eq!(separator(""), None);
}

#[test]
fn parse_arch_info_reads_exactly_one_marker_per_column() {
    let markers = "H  L     B   ?  x        tail";
    let (rest, info) = parse_arch_info(markers).unwrap();
    assert_eq!(rest, "tail");
    assert_eq!(flags(&info), marked(markers));
    assert_eq!(info.iter_ones(), vec![0, 3, 9, 16]);
}

#[test]
fn parse_arch_info_needs_all_the_columns() {
    assert!(parse_arch_info("").is_none());
    assert!(parse_arch_info("H  L").is_none());
    assert!(parse_arch_info(&" ".repeat(24)).is_none());
    assert!(parse_arch_info(&" ".repeat(25)).is_some());
    assert!(parse_arch_info(&"x".repeat(24)).is_none());
}

#[test]
fn parse_arch_info_counts_characters_not_bytes() {
    let markers = format!("\u{e9}{}", " ".repeat(24));
    let (rest, info) = parse_arch_info(&markers).unwrap();
    assert_eq!(rest, "");
    assert_eq!(info.iter_ones(), vec![0]);
    // 13 two-byte characters make 26 bytes, but only 13 markers.
    assert!(parse_arch_info(&"\u{e9}".repeat(13)).is_none());
}

#[test]
fn a_line_parses_to_its_name_and_markers() {
    let text = "arm     |                 b   iat s";
    let arch = parse_arch_line(text).unwrap();
    assert_eq!(arch.name, "arm");
    assert_eq!(arch.info.iter_ones(), vec![16, 20, 21, 22, 24]);
}

#[test]
fn every_marker_but_blank_and_question_mark_sets_its_flag() {
    let markers = "HMSLQNFICBD lqrpbfmgiates";
    let text = line("full", markers);
    let arch = parse_arch_line(&text).unwrap();
    let mut expected = vec![true; 25];
    expected[11] = false;
    assert_eq!(flags(&arch.info), expected);

    let markers = "?? ?x? ?  ?1?  ?-?  ?|? ?";
    let text = line("odd", markers);
    let arch = parse_arch_line(&text).unwrap();
    assert_eq!(flags(&arch.info), marked(markers));
    assert_eq!(arch.info.iter_ones(), vec![4, 11, 16, 21]);
}

#[test]
fn bit_inspection_reproduces_the_markers_in_all_columns() {
    for column in 0..NUM_FIELDS {
        for marker in ['x', 'H', '*', '.', '0', '\t', '|', '\u{e9}'] {
            let mut markers = vec![' '; NUM_FIELDS];
            markers[column] = marker;
            if column > 0 {
                markers[column - 1] = '?';
            }
            let markers: String = markers.into_iter().collect();
            let text = format!("n{} | {}", column, markers);
            let arch = parse_arch_line(&text).unwrap();
            for i in 0..NUM_FIELDS {
                assert_eq!(arch.info.get(i), Some(i == column));
            }
        }
    }
}

#[test]
fn the_placeholder_column_is_parsed_like_any_other() {
    let text = line("odd", "           X");
    let arch = parse_arch_line(&text).unwrap();
    assert_eq!(arch.info.get(11), Some(true));
    assert!(arch.has_feature(Feat::Ignore));
    assert_eq!(arch.info.iter_ones(), vec![11]);
}

#[test]
fn what_follows_the_markers_is_ignored() {
    let text = format!("{}{}", line("arm", "H"), "  trailing | text");
    let arch = parse_arch_line(&text).unwrap();
    assert_eq!(arch.name, "arm");
    assert_eq!(arch.info.iter_ones(), vec![0]);
}

#[test]
fn has_feature_reads_the_flag_of_the_feature() {
    let arch = parse_arch_line("avr     |    L  FI    l  p   g     ").unwrap();
    for feat in [
        Feat::IntRegsLt32B,
        Feat::NoFloatInInstrSet,
        Feat::NoIeeeFloat,
        Feat::NoIlp32ModeIntArith,
        Feat::HasDefinePeephole,
        Feat::NoDefineTargetAsmFunctionPrologueEpilogue,
    ] {
        assert!(arch.has_feature(feat));
    }
    for feat in [
        Feat::NoHardwareImpl,
        Feat::IntRegsGte64B,
        Feat::Ignore,
        Feat::HasLp64ModeIntArith,
        Feat::ElfCorrectForSim,
    ] {
        assert!(!arch.has_feature(feat));
    }
}

#[test]
fn a_line_with_markers_for_some_columns_only_is_refused() {
    // One marker short.
    let text = format!("arm    | {:<24}", "H  L");
    assert_eq!(parse_arch_line(&text).err(), Some(Error::BadParse { line: text.clone() }));
    // Two markers short.
    let text = "arm    | H  L                   ";
    assert_eq!(parse_arch_line(text).err(), Some(Error::BadParse { line: text.to_string() }));
    // All the markers.
    let text = format!("arm    | {:<25}", "H  L");
    assert_eq!(parse_arch_line(&text).unwrap().info.iter_ones(), vec![0, 3]);
}

#[test]
fn malformed_lines_are_refused_with_the_line() {
    for text in [
        "",
        "   ",
        "arm",
        "arm |",
        "arm | H  L",
        "arm  H  L                     ",
        "arm |H  L                      ",
        "| H  L                        ",
        "  | H  L                      ",
        "a-b | H                        ",
        "arm x | H                        ",
        "arm | 123456789012345678901234",
    ] {
        assert_eq!(
            parse_arch_line(text).err(),
            Some(Error::BadParse { line: text.to_string() })
        );
    }
}

#[test]
fn the_parser_agrees_with_the_combinator_grammar() {
    let blank = " ".repeat(25);
    let full = "x".repeat(25);
    let mut lines: Vec<String> = vec![
        String::new(),
        " ".to_string(),
        "arm".to_string(),
        "arm | ".to_string(),
        format!("arm | {}", blank),
        format!("arm | {}", full),
        format!("arm| {}", full),
        format!("arm|{}", full),
        format!("arm |{}", full),
        format!("  \t arm \t\r | {}", full),
        format!("\narm\n| {}", full),
        format!("arm  {}", full),
        format!("arm | {}", &full[..24]),
        format!("arm | {}extra", full),
        format!("a_b | {}", full),
        format!("ARM64x | {}", "?".repeat(25)),
        format!("42 | {}", "? x".repeat(9)),
        format!("\u{e9} | {}", full),
        format!("e\u{e9} | {}", full),
        format!("arm | {}", "\u{e9}".repeat(25)),
        format!("arm | {}", "\u{e9}".repeat(24)),
        format!("arm | {}", "\u{4e2d} ?".repeat(9)),
        format!("arm || {}", full),
        format!("arm | | {}", full),
        format!("arm \u{a0}| {}", full),
        "aarch64 |     Q        q p fmgiat  ".to_string(),
        "alpha   |     Q ? C    q    mgi  e ".to_string(),
    ];
    for name in ["a", "m68k", "x"] {
        for lead in ["", " ", "\t\t"] {
            for gap in ["", "  ", "\t"] {
                for markers in ["H  L", "HMSLQNFICBD lqrpbfmgiates", "  ?  ?  x"] {
                    lines.push(format!("{}{}{}| {:<25}", lead, name, gap, markers));
                    lines.push(format!("{}{}{}| {}", lead, name, gap, markers));
                }
            }
        }
    }
    let mut accepted = 0;
    for text in &lines {
        let expected = nom_line(text);
        if expected.is_some() {
            accepted += 1;
        }
        assert_eq!(parsed(text), expected, "line {:?}", text);
    }
    assert!(accepted > 30);
    assert!(accepted < lines.len() - 30);
}

#[test]
fn the_name_parser_agrees_with_the_combinator_grammar() {
    for text in ["", " ", "arm", " arm ", "\tarm\r\n|", "arm-elf", "a b", "  9x  | ", "-", "\u{e9}"] {
        let expected = nom_name(text).ok();
        assert_eq!(parse_arch_name(text), expected, "input {:?}", text);
    }
}

#[test]
fn the_marker_parser_agrees_with_the_combinator_grammar() {
    for text in [
        String::new(),
        " ".repeat(24),
        " ".repeat(25),
        "?".repeat(26),
        format!("{}rest", "ab ?".repeat(7)),
        "\u{e9}".repeat(25),
        "\u{e9}".repeat(12),
    ] {
        let expected = nom_info(&text).ok();
        let actual = parse_arch_info(&text).map(|(rest, info)| (rest, flags(&info)));
        assert_eq!(actual, expected, "input {:?}", text);
    }
}
