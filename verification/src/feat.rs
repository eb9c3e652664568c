//! The registry of features: a closed, ordered enumeration in which the
//! position of each feature is its column in the architecture table.

use crate::error::{Error, ErrorView};
use vstd::prelude::*;
use vstd::string::{StrSliceExecFns, StringExecFns};

verus! {

/// The number of boolean fields in a line of the architecture table.
///
/// Note this includes the space between the upper and lowercase
/// fields in the table, hence the `+ 1` in the definition.
pub const NUM_FIELDS: usize = 24 + 1;

/// The position of the column that separates the two groups of flags.
pub const IGNORE_INDEX: usize = 11;

/// The different features supported by the architectures.
///
/// The order of the variants matters: they index the flags of an
/// architecture, so they are in exactly the order of the columns of the
/// architecture table.
#[derive(Debug, Copy, Clone, PartialEq, Eq, Structural)]
pub enum Feat {
    /// A hardware implementation does not exist.
    NoHardwareImpl,
    /// A hardware implementation is not currently being manufactured.
    HardwareImplNotManufactured,
    /// A free simulator does not exist.
    NoFreeSim,
    /// Integer registers are narrower than 32 bits.
    IntRegsLt32B,
    /// Integer registers are at least 64 bits wide.
    IntRegsGte64B,
    /// Memory is not byte addressable, and/or bytes are not eight bits.
    MemNotByteAddrOrNot8B,
    /// Floating point arithmetic is not included in the instruction set.
    NoFloatInInstrSet,
    /// Architecture does not use IEEE format floating point numbers.
    NoIeeeFloat,
    /// Architecture does not have a single condition code register.
    NoSingleCondCodeReg,
    /// Architecture has delay slots.
    HasDelaySlots,
    /// Architecture has a stack that grows upward.
    StackGrowsUp,
    /// Placeholder for the space and should never be used.
    Ignore,
    /// Port cannot use ILP32 mode integer arithmetic.
    NoIlp32ModeIntArith,
    /// Port can use LP64 mode integer arithmetic.
    HasLp64ModeIntArith,
    /// Port can switch between ILP32 and LP64 at runtime.
    ///
    /// Not necessarily supported by all subtargets.
    SwitchIlp32AndLp64,
    /// Port uses `define_peephole` (as opposed to `define_peephole2`).
    HasDefinePeephole,
    /// Port uses "* ..." notation for output template code.
    StarDotsForOutputTemplates,
    /// Port does not define prologue and/or epilogue RTL expanders.
    NoPrologueEpilogueForRtlExpanders,
    /// Port does not use `define_constants`.
    NoDefineConstants,
    /// Port does not define `TARGET_ASM_FUNCTION_(PRO|EPI)LOGUE`.
    NoDefineTargetAsmFunctionPrologueEpilogue,
    /// Port generates multiple inheritance thunks using
    /// `TARGET_ASM_OUTPUT_MI(_VCALL)_THUNK`.
    MultiInheritanceThunksWithMacro,
    /// Port uses LRA (by default, i.e. unless overriden by a switch).
    PortUsesLraByDefault,
    /// All instructions either produce exactly one assembly instructions,
    /// or trigger a `define_split`.
    InstrsUseOneAsmInstrOrSplit,
    /// `<arch>-elf` is not a supported target.
    ElfNotSupportedTarget,
    /// `<arch>-elf` is the correct target to use with the simulator in
    /// `/cvs/src`.
    ElfCorrectForSim,
}

/// A filter keeps a sequence whose elements all pass as it is.
proof fn lemma_filter_keeps_all<A>(s: Seq<A>, pred: spec_fn(A) -> bool)
    requires
        forall|i: int| 0 <= i < s.len() ==> pred(#[trigger] s[i]),
    ensures
        s.filter(pred) == s,
    decreases s.len(),
{
    reveal(Seq::filter);
    if s.len() > 0 {
        lemma_filter_keeps_all(s.drop_last(), pred);
        assert(s.drop_last().push(s.last()) == s);
    }
}

/// A filter that all elements pass but the one at `k` removes that one.
proof fn lemma_filter_all_but_one<A>(s: Seq<A>, pred: spec_fn(A) -> bool, k: int)
    requires
        0 <= k < s.len(),
        !pred(s[k]),
        forall|i: int| 0 <= i < s.len() && i != k ==> pred(#[trigger] s[i]),
    ensures
        s.filter(pred) == s.take(k) + s.skip(k + 1),
{
    let before = s.take(k);
    let after = s.skip(k + 1);
    let at = seq![s[k]];
    assert(s == before + at + after);
    Seq::filter_distributes_over_add(before + at, after, pred);
    Seq::filter_distributes_over_add(before, at, pred);
    lemma_filter_keeps_all(before, pred);
    lemma_filter_keeps_all(after, pred);
    assert(at.filter(pred) == Seq::<A>::empty()) by {
        reveal_with_fuel(Seq::filter, 2);
    }
    assert(before + Seq::<A>::empty() + after == before + after);
}

impl Feat {
    /// The position of the feature: its column in the architecture table.
    pub open spec fn index(self) -> int {
        match self {
            Feat::NoHardwareImpl => 0,
            Feat::HardwareImplNotManufactured => 1,
            Feat::NoFreeSim => 2,
            Feat::IntRegsLt32B => 3,
            Feat::IntRegsGte64B => 4,
            Feat::MemNotByteAddrOrNot8B => 5,
            Feat::NoFloatInInstrSet => 6,
            Feat::NoIeeeFloat => 7,
            Feat::NoSingleCondCodeReg => 8,
            Feat::HasDelaySlots => 9,
            Feat::StackGrowsUp => 10,
            Feat::Ignore => 11,
            Feat::NoIlp32ModeIntArith => 12,
            Feat::HasLp64ModeIntArith => 13,
            Feat::SwitchIlp32AndLp64 => 14,
            Feat::HasDefinePeephole => 15,
            Feat::StarDotsForOutputTemplates => 16,
            Feat::NoPrologueEpilogueForRtlExpanders => 17,
            Feat::NoDefineConstants => 18,
            Feat::NoDefineTargetAsmFunctionPrologueEpilogue => 19,
            Feat::MultiInheritanceThunksWithMacro => 20,
            Feat::PortUsesLraByDefault => 21,
            Feat::InstrsUseOneAsmInstrOrSplit => 22,
            Feat::ElfNotSupportedTarget => 23,
            Feat::ElfCorrectForSim => 24,
        }
    }

    /// The feature at a position, if the position is one of the table's columns.
    pub open spec fn from_index(index: int) -> Option<Feat> {
        if index == 0 {
            Some(Feat::NoHardwareImpl)
        } else if index == 1 {
            Some(Feat::HardwareImplNotManufactured)
        } else if index == 2 {
            Some(Feat::NoFreeSim)
        } else if index == 3 {
            Some(Feat::IntRegsLt32B)
        } else if index == 4 {
            Some(Feat::IntRegsGte64B)
        } else if index == 5 {
            Some(Feat::MemNotByteAddrOrNot8B)
        } else if index == 6 {
            Some(Feat::NoFloatInInstrSet)
        } else if index == 7 {
            Some(Feat::NoIeeeFloat)
        } else if index == 8 {
            Some(Feat::NoSingleCondCodeReg)
        } else if index == 9 {
            Some(Feat::HasDelaySlots)
        } else if index == 10 {
            Some(Feat::StackGrowsUp)
        } else if index == 11 {
            Some(Feat::Ignore)
        } else if index == 12 {
            Some(Feat::NoIlp32ModeIntArith)
        } else if index == 13 {
            Some(Feat::HasLp64ModeIntArith)
        } else if index == 14 {
            Some(Feat::SwitchIlp32AndLp64)
        } else if index == 15 {
            Some(Feat::HasDefinePeephole)
        } else if index == 16 {
            Some(Feat::StarDotsForOutputTemplates)
        } else if index == 17 {
            Some(Feat::NoPrologueEpilogueForRtlExpanders)
        } else if index == 18 {
            Some(Feat::NoDefineConstants)
        } else if index == 19 {
            Some(Feat::NoDefineTargetAsmFunctionPrologueEpilogue)
        } else if index == 20 {
            Some(Feat::MultiInheritanceThunksWithMacro)
        } else if index == 21 {
            Some(Feat::PortUsesLraByDefault)
        } else if index == 22 {
            Some(Feat::InstrsUseOneAsmInstrOrSplit)
        } else if index == 23 {
            Some(Feat::ElfNotSupportedTarget)
        } else if index == 24 {
            Some(Feat::ElfCorrectForSim)
        } else {
            None
        }
    }

    /// The features in the order of their positions, placeholder included.
    pub open spec fn all() -> Seq<Feat> {
        Seq::new(NUM_FIELDS as nat, |index: int| Feat::from_index(index).unwrap())
    }

    /// The features proper in the order of their positions: all but the
    /// placeholder.
    pub open spec fn spec_all_real() -> Seq<Feat> {
        Feat::all().filter(|feat: Feat| feat.is_real())
    }

    /// Whether this is a feature proper, and not the placeholder column.
    pub open spec fn is_real(self) -> bool {
        self != Feat::Ignore
    }

    /// The character that stands for the feature in the table's legend.
    pub open spec fn code(self) -> char {
        match self {
            Feat::NoHardwareImpl => 'H',
            Feat::HardwareImplNotManufactured => 'M',
            Feat::NoFreeSim => 'S',
            Feat::IntRegsLt32B => 'L',
            Feat::IntRegsGte64B => 'Q',
            Feat::MemNotByteAddrOrNot8B => 'N',
            Feat::NoFloatInInstrSet => 'F',
            Feat::NoIeeeFloat => 'I',
            Feat::NoSingleCondCodeReg => 'C',
            Feat::HasDelaySlots => 'B',
            Feat::StackGrowsUp => 'D',
            Feat::Ignore => ' ',
            Feat::NoIlp32ModeIntArith => 'l',
            Feat::HasLp64ModeIntArith => 'q',
            Feat::SwitchIlp32AndLp64 => 'r',
            Feat::HasDefinePeephole => 'p',
            Feat::StarDotsForOutputTemplates => 'b',
            Feat::NoPrologueEpilogueForRtlExpanders => 'f',
            Feat::NoDefineConstants => 'm',
            Feat::NoDefineTargetAsmFunctionPrologueEpilogue => 'g',
            Feat::MultiInheritanceThunksWithMacro => 'i',
            Feat::PortUsesLraByDefault => 'a',
            Feat::InstrsUseOneAsmInstrOrSplit => 't',
            Feat::ElfNotSupportedTarget => 'e',
            Feat::ElfCorrectForSim => 's',
        }
    }

    /// The short code of the feature: its character, as a string.
    pub open spec fn spec_short_code(self) -> Seq<char> {
        seq![self.code()]
    }

    /// The feature that a character of the legend stands for.
    pub open spec fn from_code(code: char) -> Option<Feat> {
        if code == 'H' {
            Some(Feat::NoHardwareImpl)
        } else if code == 'M' {
            Some(Feat::HardwareImplNotManufactured)
        } else if code == 'S' {
            Some(Feat::NoFreeSim)
        } else if code == 'L' {
            Some(Feat::IntRegsLt32B)
        } else if code == 'Q' {
            Some(Feat::IntRegsGte64B)
        } else if code == 'N' {
            Some(Feat::MemNotByteAddrOrNot8B)
        } else if code == 'F' {
            Some(Feat::NoFloatInInstrSet)
        } else if code == 'I' {
            Some(Feat::NoIeeeFloat)
        } else if code == 'C' {
            Some(Feat::NoSingleCondCodeReg)
        } else if code == 'B' {
            Some(Feat::HasDelaySlots)
        } else if code == 'D' {
            Some(Feat::StackGrowsUp)
        } else if code == 'l' {
            Some(Feat::NoIlp32ModeIntArith)
        } else if code == 'q' {
            Some(Feat::HasLp64ModeIntArith)
        } else if code == 'r' {
            Some(Feat::SwitchIlp32AndLp64)
        } else if code == 'p' {
            Some(Feat::HasDefinePeephole)
        } else if code == 'b' {
            Some(Feat::StarDotsForOutputTemplates)
        } else if code == 'f' {
            Some(Feat::NoPrologueEpilogueForRtlExpanders)
        } else if code == 'm' {
            Some(Feat::NoDefineConstants)
        } else if code == 'g' {
            Some(Feat::NoDefineTargetAsmFunctionPrologueEpilogue)
        } else if code == 'i' {
            Some(Feat::MultiInheritanceThunksWithMacro)
        } else if code == 'a' {
            Some(Feat::PortUsesLraByDefault)
        } else if code == 't' {
            Some(Feat::InstrsUseOneAsmInstrOrSplit)
        } else if code == 'e' {
            Some(Feat::ElfNotSupportedTarget)
        } else if code == 's' {
            Some(Feat::ElfCorrectForSim)
        } else {
            None
        }
    }

    /// The feature that a short code names: none unless the string is
    /// exactly one character of the legend.
    pub open spec fn spec_from_str(s: Seq<char>) -> Option<Feat> {
        if s.len() == 1 {
            Feat::from_code(s[0])
        } else {
            None
        }
    }

    /// The human-readable description of the feature.
    pub open spec fn spec_description(self) -> Seq<char> {
        match self {
            Feat::NoHardwareImpl => "a hardware implementation does not exist"@,
            Feat::HardwareImplNotManufactured => "a hardware implementation is not currently being manufactured"@,
            Feat::NoFreeSim => "a free simulator does not exist"@,
            Feat::IntRegsLt32B => "integer registers are narrower than 32 bits"@,
            Feat::IntRegsGte64B => "integer registers are at least 64 bits wide"@,
            Feat::MemNotByteAddrOrNot8B => "memory is not byte addressable, and/or bytes are not eight bits"@,
            Feat::NoFloatInInstrSet => "floating point arithmetic is not included in the instruction set"@,
            Feat::NoIeeeFloat => "architecture does not use IEEE format floating point numbers"@,
            Feat::NoSingleCondCodeReg => "architecture does not have a single condition code register"@,
            Feat::HasDelaySlots => "architecture has delay slots"@,
            Feat::StackGrowsUp => "architecture has a stack that grows upward"@,
            Feat::Ignore => ""@,
            Feat::NoIlp32ModeIntArith => "port cannot use ILP32 mode integer arithmetic"@,
            Feat::HasLp64ModeIntArith => "port can use LP64 mode integer arithmetic"@,
            Feat::SwitchIlp32AndLp64 => "port can switch between ILP32 and LP64 at runtime"@,
            Feat::HasDefinePeephole => "port uses `define_peephole` (as opposed to `define_peephole2`)"@,
            Feat::StarDotsForOutputTemplates => "port uses \"* ...\" notation for output template code"@,
            Feat::NoPrologueEpilogueForRtlExpanders => "port does not define prologue and/or epilogue RTL expanders"@,
            Feat::NoDefineConstants => "port does not use `define_constants`"@,
            Feat::NoDefineTargetAsmFunctionPrologueEpilogue => "port does not define `TARGET_ASM_FUNCTION_(PRO|EPI)LOGUE`"@,
            Feat::MultiInheritanceThunksWithMacro => "port generates multiple inheritance thunks using `TARGET_ASM_OUTPUT_MI(_VCALL)_THUNK`"@,
            Feat::PortUsesLraByDefault => "port uses LRA (by default, i.e. unless overriden by a switch)"@,
            Feat::InstrsUseOneAsmInstrOrSplit => "all instructions either produce exactly one assembly instructions, or trigger a `define_split`"@,
            Feat::ElfNotSupportedTarget => "`<arch>-elf` is not a supported target"@,
            Feat::ElfCorrectForSim => "`<arch>-elf` is the correct target to use with the simulator in `/cvs/src`"@,
        }
    }

    /// How the feature is displayed: its short code, a colon and a space,
    /// and its description.
    pub open spec fn spec_to_string(self) -> Seq<char> {
        self.spec_short_code() + ": "@ + self.spec_description()
    }

    /// Positions and features correspond one to one: the feature at the
    /// position of `self` is `self`.
    pub proof fn lemma_index_from_index(self)
        ensures
            0 <= self.index() < NUM_FIELDS,
            Feat::from_index(self.index()) == Some(self),
            Feat::all()[self.index()] == self,
    {
    }

    /// Positions and features correspond one to one: each column has a
    /// feature, whose position is that column.
    pub proof fn lemma_from_index_index(index: int)
        ensures
            Feat::from_index(index).is_some() <==> 0 <= index < NUM_FIELDS,
            Feat::from_index(index) matches Some(feat) ==> feat.index() == index,
    {
    }

    /// Looking a short code up is the inverse of [`Feat::short_code`] on
    /// the features proper, and fails on every other string: `s` names
    /// `feat` exactly if `feat` is a feature proper and `s` is its short
    /// code.
    pub proof fn lemma_from_str_inverts_short_code(s: Seq<char>, feat: Feat)
        ensures
            Feat::spec_from_str(s) == Some(feat) <==> feat.is_real() && s
                == feat.spec_short_code(),
    {
        if feat.is_real() && s == feat.spec_short_code() {
            assert(s.len() == 1 && s[0] == feat.code());
        }
        if Feat::spec_from_str(s) == Some(feat) {
            assert(s =~= seq![feat.code()]);
        }
    }

    /// No two features proper share a short code.
    pub proof fn lemma_short_codes_unique(a: Feat, b: Feat)
        requires
            a.is_real(),
            b.is_real(),
            a.spec_short_code() == b.spec_short_code(),
        ensures
            a == b,
    {
        Feat::lemma_from_str_inverts_short_code(a.spec_short_code(), a);
        Feat::lemma_from_str_inverts_short_code(a.spec_short_code(), b);
    }

    /// No string names the placeholder: neither the empty string nor a
    /// blank is a short code.
    pub proof fn lemma_placeholder_has_no_name(s: Seq<char>)
        ensures
            Feat::spec_from_str(s) != Some(Feat::Ignore),
            Feat::spec_from_str(Seq::empty()).is_none(),
            Feat::spec_from_str(seq![' ']).is_none(),
    {
    }

    /// There are exactly 24 features proper: all the features but the
    /// placeholder, in the order of their positions.
    pub proof fn lemma_all_real()
        ensures
            Feat::spec_all_real().len() == NUM_FIELDS - 1,
            Feat::spec_all_real() == Feat::all().take(IGNORE_INDEX as int) + Feat::all().skip(
                IGNORE_INDEX + 1,
            ),
            !Feat::spec_all_real().contains(Feat::Ignore),
            forall|feat: Feat| feat.is_real() ==> Feat::spec_all_real().contains(feat),
    {
        let is_real = |feat: Feat| feat.is_real();
        lemma_filter_all_but_one(Feat::all(), is_real, IGNORE_INDEX as int);
        assert forall|feat: Feat| feat.is_real() implies Feat::spec_all_real().contains(feat) by {
            feat.lemma_index_from_index();
            Feat::all().lemma_filter_contains(is_real, feat.index());
        }
        if Feat::spec_all_real().contains(Feat::Ignore) {
            let i = choose|i: int|
                0 <= i < Feat::spec_all_real().len() && Feat::spec_all_real()[i] == Feat::Ignore;
            Feat::all().lemma_filter_pred(is_real, i);
        }
    }

    /// The position of the feature, as a number.
    pub fn to_index(self) -> (index: usize)
        ensures
            index == self.index(),
            index < NUM_FIELDS,
    {
        match self {
            Feat::NoHardwareImpl => 0,
            Feat::HardwareImplNotManufactured => 1,
            Feat::NoFreeSim => 2,
            Feat::IntRegsLt32B => 3,
            Feat::IntRegsGte64B => 4,
            Feat::MemNotByteAddrOrNot8B => 5,
            Feat::NoFloatInInstrSet => 6,
            Feat::NoIeeeFloat => 7,
            Feat::NoSingleCondCodeReg => 8,
            Feat::HasDelaySlots => 9,
            Feat::StackGrowsUp => 10,
            Feat::Ignore => 11,
            Feat::NoIlp32ModeIntArith => 12,
            Feat::HasLp64ModeIntArith => 13,
            Feat::SwitchIlp32AndLp64 => 14,
            Feat::HasDefinePeephole => 15,
            Feat::StarDotsForOutputTemplates => 16,
            Feat::NoPrologueEpilogueForRtlExpanders => 17,
            Feat::NoDefineConstants => 18,
            Feat::NoDefineTargetAsmFunctionPrologueEpilogue => 19,
            Feat::MultiInheritanceThunksWithMacro => 20,
            Feat::PortUsesLraByDefault => 21,
            Feat::InstrsUseOneAsmInstrOrSplit => 22,
            Feat::ElfNotSupportedTarget => 23,
            Feat::ElfCorrectForSim => 24,
        }
    }

    /// The feature at the position `number`, or `BadFeatConversion` if
    /// `number` is not the position of any feature.
    pub fn try_from(number: u8) -> (feat: Result<Feat, Error>)
        ensures
            match feat {
                Ok(f) => Feat::from_index(number as int) == Some(f),
                Err(e) => Feat::from_index(number as int).is_none() && e@ == (
                ErrorView::BadFeatConversion { number }),
            },
    {
        match number {
            0 => Ok(Feat::NoHardwareImpl),
            1 => Ok(Feat::HardwareImplNotManufactured),
            2 => Ok(Feat::NoFreeSim),
            3 => Ok(Feat::IntRegsLt32B),
            4 => Ok(Feat::IntRegsGte64B),
            5 => Ok(Feat::MemNotByteAddrOrNot8B),
            6 => Ok(Feat::NoFloatInInstrSet),
            7 => Ok(Feat::NoIeeeFloat),
            8 => Ok(Feat::NoSingleCondCodeReg),
            9 => Ok(Feat::HasDelaySlots),
            10 => Ok(Feat::StackGrowsUp),
            11 => Ok(Feat::Ignore),
            12 => Ok(Feat::NoIlp32ModeIntArith),
            13 => Ok(Feat::HasLp64ModeIntArith),
            14 => Ok(Feat::SwitchIlp32AndLp64),
            15 => Ok(Feat::HasDefinePeephole),
            16 => Ok(Feat::StarDotsForOutputTemplates),
            17 => Ok(Feat::NoPrologueEpilogueForRtlExpanders),
            18 => Ok(Feat::NoDefineConstants),
            19 => Ok(Feat::NoDefineTargetAsmFunctionPrologueEpilogue),
            20 => Ok(Feat::MultiInheritanceThunksWithMacro),
            21 => Ok(Feat::PortUsesLraByDefault),
            22 => Ok(Feat::InstrsUseOneAsmInstrOrSplit),
            23 => Ok(Feat::ElfNotSupportedTarget),
            24 => Ok(Feat::ElfCorrectForSim),
            _ => Err(Error::BadFeatConversion { number }),
        }
    }

    /// The short code of the feature.
    pub fn short_code(&self) -> (code: &'static str)
        ensures
            code@ == self.spec_short_code(),
    {
        proof {
            reveal_strlit("H");
            reveal_strlit("M");
            reveal_strlit("S");
            reveal_strlit("L");
            reveal_strlit("Q");
            reveal_strlit("N");
            reveal_strlit("F");
            reveal_strlit("I");
            reveal_strlit("C");
            reveal_strlit("B");
            reveal_strlit("D");
            reveal_strlit(" ");
            reveal_strlit("l");
            reveal_strlit("q");
            reveal_strlit("r");
            reveal_strlit("p");
            reveal_strlit("b");
            reveal_strlit("f");
            reveal_strlit("m");
            reveal_strlit("g");
            reveal_strlit("i");
            reveal_strlit("a");
            reveal_strlit("t");
            reveal_strlit("e");
            reveal_strlit("s");
        }
        match self {
            Feat::NoHardwareImpl => "H",
            Feat::HardwareImplNotManufactured => "M",
            Feat::NoFreeSim => "S",
            Feat::IntRegsLt32B => "L",
            Feat::IntRegsGte64B => "Q",
            Feat::MemNotByteAddrOrNot8B => "N",
            Feat::NoFloatInInstrSet => "F",
            Feat::NoIeeeFloat => "I",
            Feat::NoSingleCondCodeReg => "C",
            Feat::HasDelaySlots => "B",
            Feat::StackGrowsUp => "D",
            Feat::Ignore => " ",
            Feat::NoIlp32ModeIntArith => "l",
            Feat::HasLp64ModeIntArith => "q",
            Feat::SwitchIlp32AndLp64 => "r",
            Feat::HasDefinePeephole => "p",
            Feat::StarDotsForOutputTemplates => "b",
            Feat::NoPrologueEpilogueForRtlExpanders => "f",
            Feat::NoDefineConstants => "m",
            Feat::NoDefineTargetAsmFunctionPrologueEpilogue => "g",
            Feat::MultiInheritanceThunksWithMacro => "i",
            Feat::PortUsesLraByDefault => "a",
            Feat::InstrsUseOneAsmInstrOrSplit => "t",
            Feat::ElfNotSupportedTarget => "e",
            Feat::ElfCorrectForSim => "s",
        }
    }

    /// The description of the feature.
    pub fn description(&self) -> (description: &'static str)
        ensures
            description@ == self.spec_description(),
    {
        match self {
            Feat::NoHardwareImpl => "a hardware implementation does not exist",
            Feat::HardwareImplNotManufactured => "a hardware implementation is not currently being manufactured",
            Feat::NoFreeSim => "a free simulator does not exist",
            Feat::IntRegsLt32B => "integer registers are narrower than 32 bits",
            Feat::IntRegsGte64B => "integer registers are at least 64 bits wide",
            Feat::MemNotByteAddrOrNot8B => "memory is not byte addressable, and/or bytes are not eight bits",
            Feat::NoFloatInInstrSet => "floating point arithmetic is not included in the instruction set",
            Feat::NoIeeeFloat => "architecture does not use IEEE format floating point numbers",
            Feat::NoSingleCondCodeReg => "architecture does not have a single condition code register",
            Feat::HasDelaySlots => "architecture has delay slots",
            Feat::StackGrowsUp => "architecture has a stack that grows upward",
            Feat::Ignore => "",
            Feat::NoIlp32ModeIntArith => "port cannot use ILP32 mode integer arithmetic",
            Feat::HasLp64ModeIntArith => "port can use LP64 mode integer arithmetic",
            Feat::SwitchIlp32AndLp64 => "port can switch between ILP32 and LP64 at runtime",
            Feat::HasDefinePeephole => "port uses `define_peephole` (as opposed to `define_peephole2`)",
            Feat::StarDotsForOutputTemplates => "port uses \"* ...\" notation for output template code",
            Feat::NoPrologueEpilogueForRtlExpanders => "port does not define prologue and/or epilogue RTL expanders",
            Feat::NoDefineConstants => "port does not use `define_constants`",
            Feat::NoDefineTargetAsmFunctionPrologueEpilogue => "port does not define `TARGET_ASM_FUNCTION_(PRO|EPI)LOGUE`",
            Feat::MultiInheritanceThunksWithMacro => "port generates multiple inheritance thunks using `TARGET_ASM_OUTPUT_MI(_VCALL)_THUNK`",
            Feat::PortUsesLraByDefault => "port uses LRA (by default, i.e. unless overriden by a switch)",
            Feat::InstrsUseOneAsmInstrOrSplit => "all instructions either produce exactly one assembly instructions, or trigger a `define_split`",
            Feat::ElfNotSupportedTarget => "`<arch>-elf` is not a supported target",
            Feat::ElfCorrectForSim => "`<arch>-elf` is the correct target to use with the simulator in `/cvs/src`",
        }
    }

    /// The feature that the short code `s` names, or `UnknownFeat` with
    /// `s` itself if it names none. The match is exact and case-sensitive;
    /// the placeholder is named by no string.
    pub fn from_str(s: &str) -> (feat: Result<Feat, Error>)
        ensures
            match feat {
                Ok(f) => Feat::spec_from_str(s@) == Some(f),
                Err(e) => Feat::spec_from_str(s@).is_none() && e@ == (ErrorView::UnknownFeat {
                    feat_name: s@,
                }),
            },
    {
        if s.unicode_len() != 1 {
            return Err(Error::unknown_feat(s));
        }
        let code: char = s.get_char(0);
        match code {
            'H' => Ok(Feat::NoHardwareImpl),
            'M' => Ok(Feat::HardwareImplNotManufactured),
            'S' => Ok(Feat::NoFreeSim),
            'L' => Ok(Feat::IntRegsLt32B),
            'Q' => Ok(Feat::IntRegsGte64B),
            'N' => Ok(Feat::MemNotByteAddrOrNot8B),
            'F' => Ok(Feat::NoFloatInInstrSet),
            'I' => Ok(Feat::NoIeeeFloat),
            'C' => Ok(Feat::NoSingleCondCodeReg),
            'B' => Ok(Feat::HasDelaySlots),
            'D' => Ok(Feat::StackGrowsUp),
            'l' => Ok(Feat::NoIlp32ModeIntArith),
            'q' => Ok(Feat::HasLp64ModeIntArith),
            'r' => Ok(Feat::SwitchIlp32AndLp64),
            'p' => Ok(Feat::HasDefinePeephole),
            'b' => Ok(Feat::StarDotsForOutputTemplates),
            'f' => Ok(Feat::NoPrologueEpilogueForRtlExpanders),
            'm' => Ok(Feat::NoDefineConstants),
            'g' => Ok(Feat::NoDefineTargetAsmFunctionPrologueEpilogue),
            'i' => Ok(Feat::MultiInheritanceThunksWithMacro),
            'a' => Ok(Feat::PortUsesLraByDefault),
            't' => Ok(Feat::InstrsUseOneAsmInstrOrSplit),
            'e' => Ok(Feat::ElfNotSupportedTarget),
            's' => Ok(Feat::ElfCorrectForSim),
            _ => Err(Error::unknown_feat(s)),
        }
    }

    /// The feature as it is displayed: `<short code>: <description>`.
    pub fn to_string(&self) -> (text: String)
        ensures
            text@ == self.spec_to_string(),
    {
        String::from_str(self.short_code()).concat(": ").concat(self.description())
    }

    /// All the features proper, in the order of their positions.
    pub fn all_real() -> (feats: Vec<Feat>)
        ensures
            feats@ == Feat::spec_all_real(),
            feats.len() == NUM_FIELDS - 1,
    {
        proof {
            Feat::lemma_all_real();
        }
        let mut feats: Vec<Feat> = Vec::new();
        let mut idx: u8 = 0;
        assert(Feat::all().take(0).filter(|feat: Feat| feat.is_real()) == Seq::<Feat>::empty()) by {
            reveal(Seq::filter);
        }
        while idx < NUM_FIELDS as u8
            invariant
                idx <= NUM_FIELDS,
                feats@ == Feat::all().take(idx as int).filter(|feat: Feat| feat.is_real()),
            decreases NUM_FIELDS - idx,
        {
            proof {
                Feat::all().lemma_take_succ_push(idx as int);
                Feat::all().take(idx as int).lemma_filter_push(
                    Feat::all()[idx as int],
                    |feat: Feat| feat.is_real(),
                );
            }
            match Feat::try_from(idx) {
                Ok(feat) => {
                    if feat != Feat::Ignore {
                        feats.push(feat);
                    }
                },
                Err(_) => {
                    assert(false);
                },
            }
            idx += 1;
        }
        assert(Feat::all().take(NUM_FIELDS as int) == Feat::all());
        feats
    }
}

} // verus!
