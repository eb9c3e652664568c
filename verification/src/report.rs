//! The queries: the features of an architecture, the architectures with a
//! feature, and the two listings.
//!
//! Each answer is a function of the database and of the request alone, and
//! comes in a fixed order: features by their positions, architectures by
//! their places in the database.

use crate::arch::{Arch, ArchView};
use crate::error::{Error, ErrorView};
use crate::feat::{Feat, NUM_FIELDS};
use vstd::prelude::*;
use vstd::string::StrSliceExecFns;

verus! {

/// The features proper whose flag is set in `info`, in the order of their
/// positions. The flag of the placeholder column is not consulted.
pub open spec fn set_feats(info: Seq<bool>) -> Seq<Feat> {
    Feat::all().filter(|feat: Feat| feat.is_real() && info[feat.index()])
}

/// The part of [`set_feats`] that comes from the first `n` positions.
pub open spec fn set_feats_upto(info: Seq<bool>, n: int) -> Seq<Feat> {
    Feat::all().take(n).filter(|feat: Feat| feat.is_real() && info[feat.index()])
}

/// Whether `arch_db[i]` is the first entry with the name `name`.
pub open spec fn is_first_named(arch_db: Seq<ArchView>, name: Seq<char>, i: int) -> bool {
    &&& 0 <= i < arch_db.len()
    &&& arch_db[i].name == name
    &&& forall|j: int| 0 <= j < i ==> (#[trigger] arch_db[j]).name != name
}

/// The answer to "which features does the architecture `arch_name` have":
/// the set features of the first entry with that name, or `UnknownArch`
/// with the name if no entry has it.
pub open spec fn spec_report_arch(arch_name: Seq<char>, arch_db: Seq<ArchView>) -> Result<
    Seq<Feat>,
    ErrorView,
> {
    if exists|i: int| is_first_named(arch_db, arch_name, i) {
        let first = choose|i: int| is_first_named(arch_db, arch_name, i);
        Ok(set_feats(arch_db[first].info))
    } else {
        Err(ErrorView::UnknownArch { arch_name })
    }
}

/// The names of the entries of `arch_db` that have the feature `feat`, in
/// the order of the database.
pub open spec fn archs_with(arch_db: Seq<ArchView>, feat: Feat) -> Seq<Seq<char>> {
    arch_db.filter(|arch: ArchView| arch.has_feature(feat)).map_values(|arch: ArchView| arch.name)
}

/// The answer to "which architectures have the feature with the short code
/// `feat_name`": their names in the order of the database, or `UnknownFeat`
/// with the code if it names no feature.
pub open spec fn spec_report_feat(feat_name: Seq<char>, arch_db: Seq<ArchView>) -> Result<
    Seq<Seq<char>>,
    ErrorView,
> {
    match Feat::spec_from_str(feat_name) {
        Some(feat) => Ok(archs_with(arch_db, feat)),
        None => Err(ErrorView::UnknownFeat { feat_name }),
    }
}

/// The names of all the entries of `arch_db`, in the order of the database.
pub open spec fn spec_all_archs(arch_db: Seq<ArchView>) -> Seq<Seq<char>> {
    arch_db.map_values(|arch: ArchView| arch.name)
}

/// Position `n` adds its feature to the set features exactly if its flag
/// is set and it is not the placeholder column.
pub proof fn lemma_set_feats_step(info: Seq<bool>, n: int)
    requires
        0 <= n < NUM_FIELDS,
    ensures
        Feat::from_index(n) matches Some(feat) && feat.index() == n && set_feats_upto(info, n + 1)
            == if info[n] && feat.is_real() {
            set_feats_upto(info, n).push(feat)
        } else {
            set_feats_upto(info, n)
        },
{
    let pred = |feat: Feat| feat.is_real() && info[feat.index()];
    Feat::all().lemma_take_succ_push(n);
    Feat::all().take(n).lemma_filter_push(Feat::all()[n], pred);
}

/// Positions whose flags are unset add nothing to the set features.
pub proof fn lemma_set_feats_gap(info: Seq<bool>, from: int, to: int)
    requires
        0 <= from <= to <= NUM_FIELDS,
        forall|i: int| from <= i < to ==> !#[trigger] info[i],
    ensures
        set_feats_upto(info, to) == set_feats_upto(info, from),
    decreases to - from,
{
    if from < to {
        lemma_set_feats_gap(info, from, to - 1);
        lemma_set_feats_step(info, to - 1);
    }
}

/// Taking all the positions gives all the set features.
pub proof fn lemma_set_feats_upto_all(info: Seq<bool>)
    ensures
        set_feats_upto(info, NUM_FIELDS as int) == set_feats(info),
{
    assert(Feat::all().take(NUM_FIELDS as int) == Feat::all());
}

/// The set features are exactly the features proper whose flag is set:
/// the placeholder is never among them, whatever its flag.
pub proof fn lemma_set_feats_members(info: Seq<bool>, feat: Feat)
    ensures
        set_feats(info).contains(feat) <==> feat.is_real() && info[feat.index()],
{
    let pred = |feat: Feat| feat.is_real() && info[feat.index()];
    if set_feats(info).contains(feat) {
        let i = choose|i: int| 0 <= i < set_feats(info).len() && set_feats(info)[i] == feat;
        Feat::all().lemma_filter_pred(pred, i);
    }
    if feat.is_real() && info[feat.index()] {
        feat.lemma_index_from_index();
        Feat::all().lemma_filter_contains(pred, feat.index());
    }
}

/// The set features from the first `n` positions come in the order of
/// their positions, all of which are below `n`.
pub proof fn lemma_set_feats_upto_ordered(info: Seq<bool>, n: int)
    requires
        0 <= n <= NUM_FIELDS,
    ensures
        forall|k: int|
            0 <= k < set_feats_upto(info, n).len() ==> (#[trigger] set_feats_upto(
                info,
                n,
            )[k]).index() < n,
        forall|j: int, k: int|
            0 <= j < k < set_feats_upto(info, n).len() ==> (#[trigger] set_feats_upto(
                info,
                n,
            )[j]).index() < (#[trigger] set_feats_upto(info, n)[k]).index(),
    decreases n,
{
    if n == 0 {
        assert(Feat::all().take(0) == Seq::<Feat>::empty());
        assert(set_feats_upto(info, 0).len() == 0) by {
            reveal(Seq::filter);
        }
    } else {
        lemma_set_feats_upto_ordered(info, n - 1);
        lemma_set_feats_step(info, n - 1);
    }
}

/// The set features come in the order of their positions.
pub proof fn lemma_set_feats_ordered(info: Seq<bool>)
    ensures
        forall|j: int, k: int|
            0 <= j < k < set_feats(info).len() ==> (#[trigger] set_feats(info)[j]).index() < (
            #[trigger] set_feats(info)[k]).index(),
{
    lemma_set_feats_upto_ordered(info, NUM_FIELDS as int);
    lemma_set_feats_upto_all(info);
}

/// Where several entries share a name, the first one in the database
/// answers for it.
pub proof fn lemma_report_arch_first_match(arch_name: Seq<char>, arch_db: Seq<ArchView>, i: int)
    requires
        is_first_named(arch_db, arch_name, i),
    ensures
        spec_report_arch(arch_name, arch_db) == Ok::<Seq<Feat>, ErrorView>(
            set_feats(arch_db[i].info),
        ),
{
    let first = choose|k: int| is_first_named(arch_db, arch_name, k);
    assert(first == i);
}

/// A name that no entry has is unknown, and the error holds the name.
pub proof fn lemma_report_arch_unknown(arch_name: Seq<char>, arch_db: Seq<ArchView>)
    requires
        forall|i: int| 0 <= i < arch_db.len() ==> (#[trigger] arch_db[i]).name != arch_name,
    ensures
        spec_report_arch(arch_name, arch_db) == Err::<Seq<Feat>, ErrorView>(
            ErrorView::UnknownArch { arch_name },
        ),
{
}

/// No report on an architecture holds the placeholder, even if the flag of
/// its column is set.
pub proof fn lemma_report_arch_excludes_placeholder(arch_name: Seq<char>, arch_db: Seq<ArchView>)
    ensures
        spec_report_arch(arch_name, arch_db) matches Ok(feats) ==> !feats.contains(Feat::Ignore),
{
    if spec_report_arch(arch_name, arch_db) is Ok {
        let first = choose|i: int| is_first_named(arch_db, arch_name, i);
        lemma_set_feats_members(arch_db[first].info, Feat::Ignore);
    }
}

/// No report on a feature is about the placeholder: a short code that is
/// known names a feature proper.
pub proof fn lemma_report_feat_excludes_placeholder(feat_name: Seq<char>, arch_db: Seq<ArchView>)
    ensures
        Feat::spec_from_str(feat_name) != Some(Feat::Ignore),
        spec_report_feat(feat_name, arch_db) is Ok ==> (Feat::spec_from_str(feat_name) matches Some(
            feat,
        ) && feat.is_real()),
{
}

/// Whether two strings hold the same characters.
pub fn same_text(a: &str, b: &str) -> (same: bool)
    ensures
        same == (a@ == b@),
{
    let len: usize = a.unicode_len();
    if b.unicode_len() != len {
        return false;
    }
    let mut i: usize = 0;
    while i < len
        invariant
            i <= len == a@.len() == b@.len(),
            forall|k: int| 0 <= k < i ==> a@[k] == b@[k],
        decreases len - i,
    {
        if a.get_char(i) != b.get_char(i) {
            return false;
        }
        i += 1;
    }
    assert(a@ =~= b@);
    true
}

/// Adding an entry to the database adds its name to the answer exactly if
/// it has the feature.
pub proof fn lemma_archs_with_push(arch_db: Seq<ArchView>, arch: ArchView, feat: Feat)
    ensures
        archs_with(arch_db.push(arch), feat) == if arch.has_feature(feat) {
            archs_with(arch_db, feat).push(arch.name)
        } else {
            archs_with(arch_db, feat)
        },
{
    let has = |arch: ArchView| arch.has_feature(feat);
    let name = |arch: ArchView| arch.name;
    arch_db.lemma_filter_push(arch, has);
    arch_db.filter(has).lemma_push_map_commute(name, arch);
}

/// Report on the selected architecture: its features proper, in the order
/// of their positions.
///
/// The entry is the first one of `arch_db` whose name is exactly
/// `arch_name`. If there is none, the answer is `UnknownArch` with the name.
pub fn report_arch(arch_name: &str, arch_db: &[Arch]) -> (report: Result<Vec<Feat>, Error>)
    ensures
        match report {
            Ok(feats) => spec_report_arch(arch_name@, arch_db.deep_view()) == Ok::<
                Seq<Feat>,
                ErrorView,
            >(feats@),
            Err(e) => spec_report_arch(arch_name@, arch_db.deep_view()) == Err::<
                Seq<Feat>,
                ErrorView,
            >(e@),
        },
        report matches Ok(feats) ==> !feats@.contains(Feat::Ignore),
{
    let ghost db = arch_db.deep_view();
    proof {
        lemma_report_arch_excludes_placeholder(arch_name@, db);
    }
    // Get the info for the selected architecture.
    let mut found: usize = 0;
    while found < arch_db.len() && !same_text(arch_db[found].name, arch_name)
        invariant
            found <= arch_db.len(),
            db == arch_db.deep_view(),
            forall|j: int| 0 <= j < found ==> (#[trigger] db[j]).name != arch_name@,
        decreases arch_db.len() - found,
    {
        assert(db[found as int] == arch_db[found as int]@);
        found += 1;
    }
    if found == arch_db.len() {
        proof {
            lemma_report_arch_unknown(arch_name@, db);
        }
        return Err(Error::unknown_arch(arch_name));
    }
    let arch = &arch_db[found];
    let ghost info = arch.info@;
    proof {
        assert(db[found as int] == arch@);
        lemma_report_arch_first_match(arch_name@, db, found as int);
        arch.info.lemma_len();
    }

    let columns = arch.info.iter_ones();
    let mut feats: Vec<Feat> = Vec::new();
    let ghost mut done: int = 0;
    let mut k: usize = 0;
    while k < columns.len()
        invariant
            k <= columns.len(),
            info.len() == NUM_FIELDS,
            0 <= done <= NUM_FIELDS,
            k == 0 ==> done == 0,
            k > 0 ==> done == columns[k - 1] + 1,
            feats@ == set_feats_upto(info, done),
            forall|m: int|
                0 <= m < columns@.len() ==> (#[trigger] columns@[m]) < NUM_FIELDS
                    && info[columns@[m] as int],
            forall|m: int, n: int| 0 <= m < n < columns@.len() ==> columns@[m] < columns@[n],
            forall|i: int|
                0 <= i < NUM_FIELDS && #[trigger] info[i] ==> columns@.contains(i as usize),
        decreases columns.len() - k,
    {
        let idx: usize = columns[k];
        proof {
            assert forall|i: int| done <= i < idx implies !#[trigger] info[i] by {
                if info[i] {
                    let m = choose|m: int| 0 <= m < columns@.len() && columns@[m] == i as usize;
                    if m < k {
                        assert(k > 0);
                        assert(columns@[m] <= columns@[k - 1]);
                    } else {
                        assert(columns@[k as int] <= columns@[m]);
                    }
                }
            }
            lemma_set_feats_gap(info, done, idx as int);
            lemma_set_feats_step(info, idx as int);
        }
        match Feat::try_from(idx as u8) {
            Ok(feat) => {
                if feat != Feat::Ignore {
                    feats.push(feat);
                }
            },
            Err(e) => {
                // Every set column is below `NUM_FIELDS`, so it holds a feature.
                assert(false);
                return Err(e);
            },
        }
        proof {
            done = idx + 1;
        }
        k += 1;
    }
    proof {
        assert forall|i: int| done <= i < NUM_FIELDS implies !#[trigger] info[i] by {
            if info[i] {
                let m = choose|m: int| 0 <= m < columns@.len() && columns@[m] == i as usize;
                assert(k > 0);
                assert(columns@[m] <= columns@[k - 1]);
            }
        }
        lemma_set_feats_gap(info, done, NUM_FIELDS as int);
        lemma_set_feats_upto_all(info);
    }
    Ok(feats)
}

/// Report on the selected feature: the names of the architectures that
/// have it, in the order of the database.
///
/// `feat_name` is the short code of the feature. If it names none, the
/// answer is `UnknownFeat` with the code.
pub fn report_feat<'a>(feat_name: &str, arch_db: &[Arch<'a>]) -> (report: Result<
    Vec<&'a str>,
    Error,
>)
    ensures
        match report {
            Ok(names) => spec_report_feat(feat_name@, arch_db.deep_view()) == Ok::<
                Seq<Seq<char>>,
                ErrorView,
            >(names.deep_view()),
            Err(e) => spec_report_feat(feat_name@, arch_db.deep_view()) == Err::<
                Seq<Seq<char>>,
                ErrorView,
            >(e@),
        },
{
    let feat = match Feat::from_str(feat_name) {
        Ok(feat) => feat,
        Err(e) => { return Err(e); },
    };
    let ghost db = arch_db.deep_view();
    let mut names: Vec<&'a str> = Vec::new();
    let mut i: usize = 0;
    assert(db.take(0) == Seq::<ArchView>::empty());
    assert(archs_with(Seq::<ArchView>::empty(), feat) == Seq::<Seq<char>>::empty()) by {
        reveal(Seq::filter);
    }
    while i < arch_db.len()
        invariant
            i <= arch_db.len(),
            db == arch_db.deep_view(),
            names.deep_view() == archs_with(db.take(i as int), feat),
        decreases arch_db.len() - i,
    {
        let arch = &arch_db[i];
        proof {
            assert(db[i as int] == arch@);
            db.lemma_take_succ_push(i as int);
            lemma_archs_with_push(db.take(i as int), arch@, feat);
        }
        if arch.has_feature(feat) {
            let ghost before = names.deep_view();
            names.push(arch.name);
            assert(names.deep_view() == before.push(arch.name@));
        }
        i += 1;
    }
    assert(db.take(i as int) == db);
    Ok(names)
}

/// List all the known architectures: their names, in the order of the
/// database.
pub fn print_all_archs<'a>(arch_db: &[Arch<'a>]) -> (names: Vec<&'a str>)
    ensures
        names.deep_view() == spec_all_archs(arch_db.deep_view()),
        names.len() == arch_db.len(),
{
    let mut names: Vec<&'a str> = Vec::new();
    let mut i: usize = 0;
    while i < arch_db.len()
        invariant
            i <= arch_db.len(),
            names.len() == i,
            forall|j: int| 0 <= j < i ==> (#[trigger] names[j])@ == arch_db[j].name@,
        decreases arch_db.len() - i,
    {
        names.push(arch_db[i].name);
        i += 1;
    }
    assert(names.deep_view() == spec_all_archs(arch_db.deep_view()));
    names
}

/// List all the known features: the features proper, in the order of their
/// positions. The database plays no part in the answer.
pub fn print_all_feats(_arch_db: &[Arch]) -> (feats: Vec<Feat>)
    ensures
        feats@ == Feat::spec_all_real(),
        feats.len() == NUM_FIELDS - 1,
{
    Feat::all_real()
}

} // verus!
