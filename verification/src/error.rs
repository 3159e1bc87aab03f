//! What can stop a build, and what a finished build may still report.

use crate::stage::Stage;
use vstd::prelude::*;

verus! {

/// A request that cannot be run as it stands.
#[derive(Clone, Copy, Debug, PartialEq, Eq, Structural)]
pub enum ConfigurationError {
    /// No thread was asked for.
    NonPositiveThreads,
    /// More threads were asked for than the machine has logical CPUs.
    TooManyThreads,
    /// The minimizer is not shorter than the k-mer.
    MinimizerTooLong,
    /// The references were not given in exactly one of the three forms.
    ReferenceInput,
}

impl ConfigurationError {
    /// The reason in words.
    pub open spec fn reason_text(self) -> Seq<char> {
        match self {
            ConfigurationError::NonPositiveThreads => "non-positive thread count"@,
            ConfigurationError::TooManyThreads => "thread count exceeds available CPUs"@,
            ConfigurationError::MinimizerTooLong =>
                "minimizer length must be smaller than k-mer length"@,
            ConfigurationError::ReferenceInput =>
                "exactly one form of reference input must be given"@,
        }
    }

    /// The reason in words.
    pub fn reason(self) -> (text: &'static str)
        ensures
            text@ == self.reason_text(),
    {
        match self {
            ConfigurationError::NonPositiveThreads => "non-positive thread count",
            ConfigurationError::TooManyThreads => "thread count exceeds available CPUs",
            ConfigurationError::MinimizerTooLong =>
                "minimizer length must be smaller than k-mer length",
            ConfigurationError::ReferenceInput =>
                "exactly one form of reference input must be given",
        }
    }
}

/// Why a build did not run to its end.
#[derive(Debug, PartialEq, Eq)]
#[allow(inconsistent_fields)]
pub enum BuildError {
    /// The request is invalid.
    Configuration(ConfigurationError),
    /// A file that the request names is missing (no cause), or could not be
    /// looked at (the cause says why).
    Input { path: String, cause: Option<String> },
    /// The structure file of an earlier build stands at the output prefix
    /// without its segment and sequence files, and overwriting was not asked
    /// for. Delete that file, choose another prefix, or ask to overwrite.
    Conflict { structure: String },
    /// A stale file could not be deleted or a directory could not be made.
    Filesystem { path: String, cause: String },
    /// The signatures of the references could not be computed.
    Signature { cause: String },
    /// A token of the stage's command line holds a NUL character.
    Marshal { stage: Stage },
    /// The stage's engine returned a code other than zero.
    StageFailure { stage: Stage, exit_code: i32 },
    /// An answer arrived that does not fit what was asked.
    OutOfTurn,
}

/// A [`BuildError`] with its texts as sequences.
#[allow(inconsistent_fields)]
pub enum BuildErrorView {
    Configuration(ConfigurationError),
    Input { path: Seq<char>, cause: Option<Seq<char>> },
    Conflict { structure: Seq<char> },
    Filesystem { path: Seq<char>, cause: Seq<char> },
    Signature { cause: Seq<char> },
    Marshal { stage: Stage },
    StageFailure { stage: Stage, exit_code: i32 },
    OutOfTurn,
}

impl View for BuildError {
    type V = BuildErrorView;

    open spec fn view(&self) -> BuildErrorView {
        match *self {
            BuildError::Configuration(e) => BuildErrorView::Configuration(e),
            BuildError::Input { path, cause } => BuildErrorView::Input {
                path: path@,
                cause: match cause {
                    Some(c) => Some(c@),
                    None => None,
                },
            },
            BuildError::Conflict { structure } => BuildErrorView::Conflict {
                structure: structure@,
            },
            BuildError::Filesystem { path, cause } => BuildErrorView::Filesystem {
                path: path@,
                cause: cause@,
            },
            BuildError::Signature { cause } => BuildErrorView::Signature { cause: cause@ },
            BuildError::Marshal { stage } => BuildErrorView::Marshal { stage },
            BuildError::StageFailure { stage, exit_code } => BuildErrorView::StageFailure {
                stage,
                exit_code,
            },
            BuildError::OutOfTurn => BuildErrorView::OutOfTurn,
        }
    }
}

/// An intermediate file that could not be deleted after the build. The
/// build succeeded all the same.
#[derive(Debug, PartialEq, Eq)]
pub struct CleanupWarning {
    pub path: String,
    pub cause: String,
}

/// A [`CleanupWarning`] with its texts as sequences.
pub struct CleanupWarningView {
    pub path: Seq<char>,
    pub cause: Seq<char>,
}

impl View for CleanupWarning {
    type V = CleanupWarningView;

    open spec fn view(&self) -> CleanupWarningView {
        CleanupWarningView { path: self.path@, cause: self.cause@ }
    }
}

impl DeepView for CleanupWarning {
    type V = CleanupWarningView;

    open spec fn deep_view(&self) -> CleanupWarningView {
        self@
    }
}

} // verus!
