use arch_info::error::Error;
use arch_info::feat::{Feat, IGNORE_INDEX, NUM_FIELDS};

const CODES: [&str; 25] = [
    "H", "M", "S", "L", "Q", "N", "F", "I", "C", "B", "D", " ", "l", "q", "r", "p", "b", "f", "m",
    "g", "i", "a", "t", "e", "s",
];

fn all_feats() -> Vec<Feat> {
    (0..NUM_FIELDS as u8).map(|i| Feat::try_from(i).unwrap()).collect()
}

#[test]
fn there_are_twenty_five_columns() {
    assert_eq!(NUM_FIELDS, 25);
    assert_eq!(IGNORE_INDEX, 11);
    assert_eq!(all_feats().len(), 25);
}

#[test]
fn positions_follow_the_declaration_order() {
    let feats = all_feats();
    for (i, feat) in feats.iter().enumerate() {
        assert_eq!(feat.to_index(), i);
    }
    assert_eq!(Feat::NoHardwareImpl.to_index(), 0);
    assert_eq!(Feat::StackGrowsUp.to_index(), 10);
    assert_eq!(Feat::Ignore.to_index(), 11);
    assert_eq!(Feat::NoIlp32ModeIntArith.to_index(), 12);
    assert_eq!(Feat::ElfCorrectForSim.to_index(), 24);
}

#[test]
fn try_from_gives_the_feature_at_a_position() {
    assert_eq!(Feat::try_from(0), Ok(Feat::NoHardwareImpl));
    assert_eq!(Feat::try_from(9), Ok(Feat::HasDelaySlots));
    assert_eq!(Feat::try_from(11), Ok(Feat::Ignore));
    assert_eq!(Feat::try_from(21), Ok(Feat::PortUsesLraByDefault));
    assert_eq!(Feat::try_from(24), Ok(Feat::ElfCorrectForSim));
}

#[test]
fn try_from_refuses_a_number_past_the_last_column() {
    assert_eq!(Feat::try_from(25), Err(Error::BadFeatConversion { number: 25 }));
    assert_eq!(Feat::try_from(26), Err(Error::BadFeatConversion { number: 26 }));
    assert_eq!(Feat::try_from(255), Err(Error::BadFeatConversion { number: 255 }));
}

#[test]
fn short_codes_are_the_legend_of_the_table() {
    let feats = all_feats();
    for (feat, code) in feats.iter().zip(CODES.iter()) {
        assert_eq!(feat.short_code(), *code);
    }
}

#[test]
fn short_codes_are_single_characters_and_unique() {
    let feats = all_feats();
    for (i, a) in feats.iter().enumerate() {
        assert_eq!(a.short_code().chars().count(), 1);
        for b in feats.iter().skip(i + 1) {
            assert_ne!(a.short_code(), b.short_code());
        }
    }
}

#[test]
fn from_str_inverts_short_code_on_every_real_feature() {
    for feat in all_feats() {
        if feat != Feat::Ignore {
            assert_eq!(Feat::from_str(feat.short_code()), Ok(feat));
        }
    }
}

#[test]
fn from_str_knows_each_code() {
    assert_eq!(Feat::from_str("H"), Ok(Feat::NoHardwareImpl));
    assert_eq!(Feat::from_str("M"), Ok(Feat::HardwareImplNotManufactured));
    assert_eq!(Feat::from_str("S"), Ok(Feat::NoFreeSim));
    assert_eq!(Feat::from_str("L"), Ok(Feat::IntRegsLt32B));
    assert_eq!(Feat::from_str("Q"), Ok(Feat::IntRegsGte64B));
    assert_eq!(Feat::from_str("N"), Ok(Feat::MemNotByteAddrOrNot8B));
    assert_eq!(Feat::from_str("F"), Ok(Feat::NoFloatInInstrSet));
    assert_eq!(Feat::from_str("I"), Ok(Feat::NoIeeeFloat));
    assert_eq!(Feat::from_str("C"), Ok(Feat::NoSingleCondCodeReg));
    assert_eq!(Feat::from_str("B"), Ok(Feat::HasDelaySlots));
    assert_eq!(Feat::from_str("D"), Ok(Feat::StackGrowsUp));
    assert_eq!(Feat::from_str("l"), Ok(Feat::NoIlp32ModeIntArith));
    assert_eq!(Feat::from_str("q"), Ok(Feat::HasLp64ModeIntArith));
    assert_eq!(Feat::from_str("r"), Ok(Feat::SwitchIlp32AndLp64));
    assert_eq!(Feat::from_str("p"), Ok(Feat::HasDefinePeephole));
    assert_eq!(Feat::from_str("b"), Ok(Feat::StarDotsForOutputTemplates));
    assert_eq!(Feat::from_str("f"), Ok(Feat::NoPrologueEpilogueForRtlExpanders));
    assert_eq!(Feat::from_str("m"), Ok(Feat::NoDefineConstants));
    assert_eq!(Feat::from_str("g"), Ok(Feat::NoDefineTargetAsmFunctionPrologueEpilogue));
    assert_eq!(Feat::from_str("i"), Ok(Feat::MultiInheritanceThunksWithMacro));
    assert_eq!(Feat::from_str("a"), Ok(Feat::PortUsesLraByDefault));
    assert_eq!(Feat::from_str("t"), Ok(Feat::InstrsUseOneAsmInstrOrSplit));
    assert_eq!(Feat::from_str("e"), Ok(Feat::ElfNotSupportedTarget));
    assert_eq!(Feat::from_str("s"), Ok(Feat::ElfCorrectForSim));
}

#[test]
fn from_str_is_case_sensitive() {
    assert_eq!(Feat::from_str("h"), Err(Error::UnknownFeat { feat_name: "h".to_string() }));
    assert_eq!(Feat::from_str("L"), Ok(Feat::IntRegsLt32B));
    assert_eq!(Feat::from_str("l"), Ok(Feat::NoIlp32ModeIntArith));
    assert_eq!(Feat::from_str("A"), Err(Error::UnknownFeat { feat_name: "A".to_string() }));
}

#[test]
fn from_str_refuses_the_empty_string() {
    assert_eq!(Feat::from_str(""), Err(Error::UnknownFeat { feat_name: String::new() }));
}

#[test]
fn from_str_refuses_a_blank() {
    assert_eq!(Feat::from_str(" "), Err(Error::UnknownFeat { feat_name: " ".to_string() }));
}

#[test]
fn from_str_refuses_longer_strings() {
    assert_eq!(Feat::from_str("HM"), Err(Error::UnknownFeat { feat_name: "HM".to_string() }));
    assert_eq!(Feat::from_str("H "), Err(Error::UnknownFeat { feat_name: "H ".to_string() }));
    assert_eq!(Feat::from_str(" H"), Err(Error::UnknownFeat { feat_name: " H".to_string() }));
}

#[test]
fn from_str_refuses_other_characters() {
    for code in ["Z", "?", "|", "0", "\u{e9}", "\u{4e2d}"] {
        assert_eq!(Feat::from_str(code), Err(Error::UnknownFeat { feat_name: code.to_string() }));
    }
}

#[test]
fn from_str_is_known_on_exactly_twenty_four_characters() {
    let mut known = 0;
    for c in 0u8..128 {
        let s = (c as char).to_string();
        if let Ok(feat) = Feat::from_str(&s) {
            known += 1;
            assert_ne!(feat, Feat::Ignore);
            assert_eq!(feat.short_code(), s);
        }
    }
    assert_eq!(known, 24);
}

#[test]
fn descriptions_are_as_documented() {
    assert_eq!(Feat::NoHardwareImpl.description(), "a hardware implementation does not exist");
    assert_eq!(
        Feat::HardwareImplNotManufactured.description(),
        "a hardware implementation is not currently being manufactured"
    );
    assert_eq!(Feat::HasDelaySlots.description(), "architecture has delay slots");
    assert_eq!(Feat::Ignore.description(), "");
    assert_eq!(
        Feat::StarDotsForOutputTemplates.description(),
        "port uses \"* ...\" notation for output template code"
    );
    assert_eq!(
        Feat::NoDefineTargetAsmFunctionPrologueEpilogue.description(),
        "port does not define `TARGET_ASM_FUNCTION_(PRO|EPI)LOGUE`"
    );
    assert_eq!(
        Feat::ElfCorrectForSim.description(),
        "`<arch>-elf` is the correct target to use with the simulator in `/cvs/src`"
    );
}

#[test]
fn every_real_feature_has_a_description() {
    for feat in all_feats() {
        assert_eq!(feat.description().is_empty(), feat == Feat::Ignore);
    }
}

#[test]
fn a_feature_is_displayed_as_code_colon_description() {
    assert_eq!(Feat::NoHardwareImpl.to_string(), "H: a hardware implementation does not exist");
    assert_eq!(
        Feat::IntRegsLt32B.to_string(),
        "L: integer registers are narrower than 32 bits"
    );
    assert_eq!(
        Feat::PortUsesLraByDefault.to_string(),
        "a: port uses LRA (by default, i.e. unless overriden by a switch)"
    );
    for feat in all_feats() {
        assert_eq!(feat.to_string(), format!("{}: {}", feat.short_code(), feat.description()));
    }
}

#[test]
fn all_real_has_twenty_four_entries() {
    let real = Feat::all_real();
    assert_eq!(real.len(), 24);
    assert_ne!(real.len(), 25);
}

#[test]
fn all_real_leaves_out_the_placeholder_only() {
    let real = Feat::all_real();
    assert!(!real.contains(&Feat::Ignore));
    let expected: Vec<Feat> = all_feats().into_iter().filter(|f| *f != Feat::Ignore).collect();
    assert_eq!(real, expected);
}

#[test]
fn all_real_is_in_position_order() {
    let real = Feat::all_real();
    for pair in real.windows(2) {
        assert!(pair[0].to_index() < pair[1].to_index());
    }
    assert_eq!(real[0], Feat::NoHardwareImpl);
    assert_eq!(real[10], Feat::StackGrowsUp);
    assert_eq!(real[11], Feat::NoIlp32ModeIntArith);
    assert_eq!(real[23], Feat::ElfCorrectForSim);
}
