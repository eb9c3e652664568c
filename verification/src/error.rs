//! The ways a load or a query can fail.

use vstd::prelude::*;
use vstd::string::StringExecFns;

verus! {

/// Represents the types of error that can go wrong in the library.
#[derive(Debug, PartialEq, Eq)]
pub enum Error {
    /// A line of the architecture table does not have the expected shape.
    BadParse { line: String },
    /// An unknown architecture name was requested.
    UnknownArch { arch_name: String },
    /// More than one query was requested at once.
    ConflictingArgs { offenders: String },
    /// No query was requested.
    NothingRequested,
    /// The short code of the feature isn't recognized.
    UnknownFeat { feat_name: String },
    /// The number is not the position of any feature.
    BadFeatConversion { number: u8 },
}

/// What an [`Error`] holds, with each string as its sequence of characters.
pub enum ErrorView {
    BadParse { line: Seq<char> },
    UnknownArch { arch_name: Seq<char> },
    ConflictingArgs { offenders: Seq<char> },
    NothingRequested,
    UnknownFeat { feat_name: Seq<char> },
    BadFeatConversion { number: u8 },
}

impl ErrorView {
    /// The one-line diagnostic shown for this error.
    pub open spec fn message(self) -> Seq<char> {
        match self {
            ErrorView::BadParse { line } => "a parse error occurred"@,
            ErrorView::UnknownArch { arch_name } => "'"@ + arch_name
                + "' is not a known architecture"@,
            ErrorView::ConflictingArgs { offenders } => "can't specify "@ + offenders
                + " together"@,
            ErrorView::NothingRequested => "must specify either --arch or --feat"@,
            ErrorView::UnknownFeat { feat_name } => "'"@ + feat_name + "' is not a known feature"@,
            ErrorView::BadFeatConversion { number } => "bad feat conversion"@,
        }
    }
}

impl View for Error {
    type V = ErrorView;

    open spec fn view(&self) -> ErrorView {
        match self {
            Error::BadParse { line } => ErrorView::BadParse { line: line@ },
            Error::UnknownArch { arch_name } => ErrorView::UnknownArch { arch_name: arch_name@ },
            Error::ConflictingArgs { offenders } => ErrorView::ConflictingArgs {
                offenders: offenders@,
            },
            Error::NothingRequested => ErrorView::NothingRequested,
            Error::UnknownFeat { feat_name } => ErrorView::UnknownFeat { feat_name: feat_name@ },
            Error::BadFeatConversion { number } => ErrorView::BadFeatConversion { number: *number },
        }
    }
}

impl Error {
    /// Make an error for a malformed line of the table.
    pub fn bad_parse(line: &str) -> (error: Error)
        ensures
            error@ == (ErrorView::BadParse { line: line@ }),
    {
        Error::BadParse { line: String::from_str(line) }
    }

    /// Make an error for an unknown architecture.
    pub fn unknown_arch(arch_name: &str) -> (error: Error)
        ensures
            error@ == (ErrorView::UnknownArch { arch_name: arch_name@ }),
    {
        Error::UnknownArch { arch_name: String::from_str(arch_name) }
    }

    /// Make an error for an unknown feature.
    pub fn unknown_feat(feat_name: &str) -> (error: Error)
        ensures
            error@ == (ErrorView::UnknownFeat { feat_name: feat_name@ }),
    {
        Error::UnknownFeat { feat_name: String::from_str(feat_name) }
    }

    /// The one-line diagnostic for this error.
    pub fn to_string(&self) -> (message: String)
        ensures
            message@ == self@.message(),
    {
        match self {
            Error::BadParse { line } => String::from_str("a parse error occurred"),
            Error::UnknownArch { arch_name } => String::from_str("'").concat(
                arch_name.as_str(),
            ).concat("' is not a known architecture"),
            Error::ConflictingArgs { offenders } => String::from_str("can't specify ").concat(
                offenders.as_str(),
            ).concat(" together"),
            Error::NothingRequested => String::from_str("must specify either --arch or --feat"),
            Error::UnknownFeat { feat_name } => String::from_str("'").concat(
                feat_name.as_str(),
            ).concat("' is not a known feature"),
            Error::BadFeatConversion { number } => String::from_str("bad feat conversion"),
        }
    }
}

} // verus!
