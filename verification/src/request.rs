//! A request, as the command line spells it, and its answer: the lines to
//! write out, or the error to report.

use crate::arch::{Arch, ArchView};
use crate::error::{Error, ErrorView};
use crate::feat::Feat;
use crate::load::{load_arch_info, spec_load_arch_info};
use crate::report::{
    print_all_archs, print_all_feats, report_arch, report_feat, spec_all_archs, spec_report_arch,
    spec_report_feat,
};
use vstd::prelude::*;
use vstd::string::StringExecFns;

verus! {

/// What was requested. The four queries exclude each other.
#[derive(Debug)]
pub struct Args {
    /// The architecture to ask about; empty if none was given.
    pub arch: String,
    /// Print all the architectures.
    pub archs: bool,
    /// The feature to request architectures that match; empty if none was given.
    pub feat: String,
    /// Print all the features.
    pub feats: bool,
}

/// What an [`Args`] holds, with each string as its sequence of characters.
pub struct ArgsView {
    pub arch: Seq<char>,
    pub archs: bool,
    pub feat: Seq<char>,
    pub feats: bool,
}

impl View for Args {
    type V = ArgsView;

    open spec fn view(&self) -> ArgsView {
        ArgsView { arch: self.arch@, archs: self.archs, feat: self.feat@, feats: self.feats }
    }
}

/// The options that `args` gives, in the order `--arch`, `--feat`,
/// `--archs`, `--feats`.
pub open spec fn offenders(args: ArgsView) -> Seq<Seq<char>> {
    let given = Seq::<Seq<char>>::empty();
    let given = if args.arch.len() > 0 {
        given.push("--arch"@)
    } else {
        given
    };
    let given = if args.feat.len() > 0 {
        given.push("--feat"@)
    } else {
        given
    };
    let given = if args.archs {
        given.push("--archs"@)
    } else {
        given
    };
    let given = if args.feats {
        given.push("--feats"@)
    } else {
        given
    };
    given
}

/// The `parts` in a row, with `sep` between each two neighbours.
pub open spec fn spec_join(parts: Seq<Seq<char>>, sep: Seq<char>) -> Seq<char>
    decreases parts.len(),
{
    if parts.len() == 0 {
        Seq::empty()
    } else if parts.len() == 1 {
        parts[0]
    } else {
        spec_join(parts.drop_last(), sep) + sep + parts.last()
    }
}

/// More than one query at once is refused, with the options that clash.
pub open spec fn spec_exclusion_check(args: ArgsView) -> Result<(), ErrorView> {
    if offenders(args).len() > 1 {
        Err(ErrorView::ConflictingArgs { offenders: spec_join(offenders(args), ", "@) })
    } else {
        Ok(())
    }
}

/// The lines that answer `args` from the database `arch_db`.
///
/// Of the queries, the first one given counts, in the order `arch`, `feat`,
/// `archs`, `feats`.
pub open spec fn spec_answer(args: ArgsView, arch_db: Seq<ArchView>) -> Result<
    Seq<Seq<char>>,
    ErrorView,
> {
    if args.arch.len() > 0 {
        match spec_report_arch(args.arch, arch_db) {
            Ok(feats) => Ok(feats.map_values(|feat: Feat| feat.spec_to_string())),
            Err(e) => Err(e),
        }
    } else if args.feat.len() > 0 {
        spec_report_feat(args.feat, arch_db)
    } else if args.archs {
        Ok(spec_all_archs(arch_db))
    } else if args.feats {
        Ok(Feat::spec_all_real().map_values(|feat: Feat| feat.spec_to_string()))
    } else {
        Err(ErrorView::NothingRequested)
    }
}

/// The outcome of a run on the request `args` and the table text `table`.
///
/// A malformed table is reported before a clash of options, and a clash of
/// options before anything that the query itself finds.
pub open spec fn spec_run(args: ArgsView, table: Seq<char>) -> Result<Seq<Seq<char>>, ErrorView> {
    match spec_load_arch_info(table) {
        Err(e) => Err(e),
        Ok(arch_db) => match spec_exclusion_check(args) {
            Err(e) => Err(e),
            Ok(_) => spec_answer(args, arch_db),
        },
    }
}

/// What an outcome stands for: its lines as sequences of characters, or
/// what its error holds.
pub open spec fn outcome_view(outcome: Result<Vec<String>, Error>) -> Result<
    Seq<Seq<char>>,
    ErrorView,
> {
    match outcome {
        Ok(lines) => Ok(lines.deep_view()),
        Err(e) => Err(e@),
    }
}

/// Asking again changes nothing: two outcomes of the same request on the
/// same database are both answers or both errors, and two answers hold the
/// same lines in the same order.
pub proof fn lemma_answer_repeatable(
    args: ArgsView,
    arch_db: Seq<ArchView>,
    first: Result<Vec<String>, Error>,
    second: Result<Vec<String>, Error>,
)
    requires
        outcome_view(first) == spec_answer(args, arch_db),
        outcome_view(second) == spec_answer(args, arch_db),
    ensures
        outcome_view(first) == outcome_view(second),
        first is Ok <==> second is Ok,
        first matches Ok(a) ==> second matches Ok(b) ==> a.len() == b.len() && forall|i: int|
            0 <= i < a.len() ==> a[i]@ == b[i]@,
{
    if let Ok(a) = first {
        if let Ok(b) = second {
            assert(a.deep_view() == b.deep_view());
            assert(a.deep_view().len() == a.len() && b.deep_view().len() == b.len());
            assert forall|i: int| 0 <= i < a.len() implies a[i]@ == b[i]@ by {
                assert(a.deep_view()[i] == a[i]@);
                assert(b.deep_view()[i] == b[i]@);
            }
        }
    }
}

/// Join `parts` into one string, with `sep` between each two neighbours.
pub fn join(parts: &Vec<&str>, sep: &str) -> (joined: String)
    ensures
        joined@ == spec_join(parts.deep_view(), sep@),
{
    let ghost texts = parts.deep_view();
    let mut joined = String::new();
    let mut i: usize = 0;
    while i < parts.len()
        invariant
            i <= parts.len(),
            texts == parts.deep_view(),
            joined@ == spec_join(texts.take(i as int), sep@),
        decreases parts.len() - i,
    {
        proof {
            assert(texts.take(i + 1).drop_last() == texts.take(i as int));
            assert(texts[i as int] == parts[i as int]@);
        }
        if i > 0 {
            joined.append(sep);
        }
        joined.append(parts[i]);
        i += 1;
    }
    assert(texts.take(i as int) == texts);
    joined
}

/// Check that at most one query was requested.
///
/// With two or more, the answer is `ConflictingArgs`, which holds their
/// options, separated by `", "`.
pub fn exclusion_check(args: &Args) -> (checked: Result<(), Error>)
    ensures
        match checked {
            Ok(_) => spec_exclusion_check(args@).is_ok(),
            Err(e) => spec_exclusion_check(args@) == Err::<(), ErrorView>(e@),
        },
{
    let mut count: usize = 0;
    let mut offenders: Vec<&'static str> = Vec::new();
    let ghost mut given = Seq::<Seq<char>>::empty();

    if !args.arch.as_str().is_empty() {
        count += 1;
        offenders.push("--arch");
        proof {
            given = given.push("--arch"@);
        }
        assert(offenders.deep_view() == given);
    }
    if !args.feat.as_str().is_empty() {
        count += 1;
        offenders.push("--feat");
        proof {
            given = given.push("--feat"@);
        }
        assert(offenders.deep_view() == given);
    }
    if args.archs {
        count += 1;
        offenders.push("--archs");
        proof {
            given = given.push("--archs"@);
        }
        assert(offenders.deep_view() == given);
    }
    if args.feats {
        count += 1;
        offenders.push("--feats");
        proof {
            given = given.push("--feats"@);
        }
        assert(offenders.deep_view() == given);
    }
    assert(offenders.deep_view() == given);
    assert(given == self::offenders(args@));
    assert(count == given.len());

    if count > 1 {
        return Err(Error::ConflictingArgs { offenders: join(&offenders, ", ") });
    }
    Ok(())
}

/// The features as they are displayed, one line each.
pub fn feat_lines(feats: &Vec<Feat>) -> (lines: Vec<String>)
    ensures
        lines.deep_view() == feats@.map_values(|feat: Feat| feat.spec_to_string()),
{
    let mut lines: Vec<String> = Vec::new();
    let mut i: usize = 0;
    while i < feats.len()
        invariant
            i <= feats.len(),
            lines.len() == i,
            forall|j: int| 0 <= j < i ==> (#[trigger] lines[j])@ == feats[j].spec_to_string(),
        decreases feats.len() - i,
    {
        lines.push(feats[i].to_string());
        i += 1;
    }
    assert(lines.deep_view() == feats@.map_values(|feat: Feat| feat.spec_to_string()));
    lines
}

/// The names, one line each.
pub fn name_lines(names: &Vec<&str>) -> (lines: Vec<String>)
    ensures
        lines.deep_view() == names.deep_view(),
{
    let mut lines: Vec<String> = Vec::new();
    let mut i: usize = 0;
    while i < names.len()
        invariant
            i <= names.len(),
            lines.len() == i,
            forall|j: int| 0 <= j < i ==> (#[trigger] lines[j])@ == names[j]@,
        decreases names.len() - i,
    {
        lines.push(String::from_str(names[i]));
        i += 1;
    }
    assert(lines.deep_view() == names.deep_view());
    lines
}

/// Answer the request `args` from the database `arch_db`: the lines to
/// write out, in their order, or the error to report.
///
/// Of the queries, the first one given counts, in the order `arch`, `feat`,
/// `archs`, `feats`; with none, the answer is `NothingRequested`.
pub fn answer(args: &Args, arch_db: &[Arch]) -> (outcome: Result<Vec<String>, Error>)
    ensures
        outcome_view(outcome) == spec_answer(args@, arch_db.deep_view()),
{
    if !args.arch.as_str().is_empty() {
        return match report_arch(args.arch.as_str(), arch_db) {
            Ok(feats) => Ok(feat_lines(&feats)),
            Err(e) => Err(e),
        };
    }

    if !args.feat.as_str().is_empty() {
        return match report_feat(args.feat.as_str(), arch_db) {
            Ok(names) => Ok(name_lines(&names)),
            Err(e) => Err(e),
        };
    }

    if args.archs {
        return Ok(name_lines(&print_all_archs(arch_db)));
    }

    if args.feats {
        return Ok(feat_lines(&print_all_feats(arch_db)));
    }

    Err(Error::NothingRequested)
}

/// Run a request against the table text `table`: load the database, check
/// the request, and answer it.
///
/// A malformed table is reported before a clash of options, and a clash of
/// options before anything that the query itself finds.
pub fn run(args: &Args, table: &str) -> (outcome: Result<Vec<String>, Error>)
    ensures
        outcome_view(outcome) == spec_run(args@, table@),
{
    // Load the architecture database.
    let arch_db = match load_arch_info(table) {
        Ok(arch_db) => arch_db,
        Err(e) => { return Err(e); },
    };

    match exclusion_check(args) {
        Ok(_) => {},
        Err(e) => { return Err(e); },
    }

    answer(args, arch_db.as_slice())
}

} // verus!
