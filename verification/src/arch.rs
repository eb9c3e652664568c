//! An entry of the architecture table.

use crate::feat::Feat;
use crate::info::ArchInfo;
use vstd::prelude::*;

verus! {

/// The name of the architecture, as the table spells it.
pub type ArchName<'a> = &'a str;

/// An entry in the architecture table.
#[derive(Debug)]
pub struct Arch<'a> {
    /// The name of the architecture.
    pub name: ArchName<'a>,
    /// The feature information for the architecture.
    pub info: ArchInfo,
}

/// What an [`Arch`] stands for: the characters of its name, and one flag
/// for each column of the table.
pub struct ArchView {
    pub name: Seq<char>,
    pub info: Seq<bool>,
}

impl<'a> View for Arch<'a> {
    type V = ArchView;

    open spec fn view(&self) -> ArchView {
        ArchView { name: self.name@, info: self.info@ }
    }
}

impl<'a> DeepView for Arch<'a> {
    type V = ArchView;

    open spec fn deep_view(&self) -> ArchView {
        self@
    }
}

impl ArchView {
    /// Whether the architecture has the feature `feat`.
    pub open spec fn has_feature(self, feat: Feat) -> bool {
        self.info[feat.index()]
    }
}

impl<'a> Arch<'a> {
    /// Get if an architecture supports a feature.
    pub fn has_feature(&self, feat: Feat) -> (has: bool)
        ensures
            has == self@.has_feature(feat),
    {
        match self.info.get(feat.to_index()) {
            Some(flag) => flag,
            None => false,
        }
    }
}

} // verus!
