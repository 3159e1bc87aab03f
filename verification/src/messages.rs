//! What is said to the user when something is refused or fails.

use crate::error::{BuildError, BuildErrorView, CleanupWarning, ConfigurationError};
use crate::klen::KlenError;
use crate::mapping::MapError;
use crate::request::{BuildRequest, BuildRequestView};
use crate::stage::Stage;
use crate::text::{decimal, signed_decimal, to_decimal, to_signed_decimal};
use vstd::prelude::*;

verus! {

/// The three texts one after another.
pub open spec fn around(before: Seq<char>, middle: Seq<char>, after: Seq<char>) -> Seq<char> {
    before + middle + after
}

/// The five texts one after another.
pub open spec fn around_two(
    before: Seq<char>,
    first: Seq<char>,
    between: Seq<char>,
    second: Seq<char>,
    after: Seq<char>,
) -> Seq<char> {
    before + first + between + second + after
}

fn fill(before: &str, middle: &str, after: &str) -> (out: String)
    ensures
        out@ == around(before@, middle@, after@),
{
    let mut out = before.to_owned();
    out.append(middle);
    out.append(after);
    out
}

fn fill_two(before: &str, first: &str, between: &str, second: &str, after: &str) -> (out: String)
    ensures
        out@ == around_two(before@, first@, between@, second@, after@),
{
    let mut out = before.to_owned();
    out.append(first);
    out.append(between);
    out.append(second);
    out.append(after);
    out
}

/// Why a thread count, or a pair of lengths, is refused.
pub open spec fn configuration_text(
    error: ConfigurationError,
    request: BuildRequestView,
    ncpus: usize,
) -> Seq<char> {
    match error {
        ConfigurationError::NonPositiveThreads | ConfigurationError::TooManyThreads => thread_text(
            error,
            request.threads,
            ncpus,
        ),
        ConfigurationError::MinimizerTooLong => around_two(
            "minimizer length ("@,
            decimal(request.mlen as nat),
            ") must be < k-mer length ("@,
            decimal(request.klen as nat),
            ")"@,
        ),
        ConfigurationError::ReferenceInput =>
            "Input (via --ref-seqs, --ref-lists, or --ref-dirs) must be provided."@,
    }
}

/// Why a thread count is refused on a machine with `ncpus` logical CPUs.
pub open spec fn thread_text(error: ConfigurationError, threads: usize, ncpus: usize) -> Seq<
    char,
> {
    if error == ConfigurationError::NonPositiveThreads {
        around(
            "the number of provided threads ("@,
            decimal(threads as nat),
            ") must be greater than 0."@,
        )
    } else {
        around_two(
            "the number of provided threads ("@,
            decimal(threads as nat),
            ") should be <= the number of logical CPUs ("@,
            decimal(ncpus as nat),
            ")."@,
        )
    }
}

/// Says in words why a thread count is refused on a machine with `ncpus`
/// logical CPUs.
pub fn thread_message(error: ConfigurationError, threads: usize, ncpus: usize) -> (out: String)
    ensures
        out@ == thread_text(error, threads, ncpus),
{
    match error {
        ConfigurationError::NonPositiveThreads => fill(
            "the number of provided threads (",
            to_decimal(threads as u64).as_str(),
            ") must be greater than 0.",
        ),
        _ => fill_two(
            "the number of provided threads (",
            to_decimal(threads as u64).as_str(),
            ") should be <= the number of logical CPUs (",
            to_decimal(ncpus as u64).as_str(),
            ").",
        ),
    }
}

/// What an engine that failed is called in a message.
pub open spec fn engine_title(stage: Stage) -> Seq<char> {
    match stage {
        Stage::Graph => "cDBG constructor"@,
        Stage::Index => "indexer"@,
        Stage::Poison => "building poison table"@,
    }
}

/// Why a build of `request` on a machine with `ncpus` logical CPUs did not
/// run to its end, in words.
pub open spec fn build_text(error: BuildErrorView, request: BuildRequestView, ncpus: usize) -> Seq<
    char,
> {
    match error {
        BuildErrorView::Configuration(e) => configuration_text(e, request, ncpus),
        BuildErrorView::Input { path, cause: None } => around(
            "Path for decoy file "@,
            path,
            " seems not to point to a valid file"@,
        ),
        BuildErrorView::Input { path, cause: Some(cause) } => around_two(
            "Error "@,
            cause,
            " when checking the existence of decoy file "@,
            path,
            ""@,
        ),
        BuildErrorView::Conflict { structure } => around(
            "Cannot write over existing index without the --overwrite flag: the structure file "@,
            structure,
            " exists without its segment and sequence files. Delete it, choose another output prefix, or pass --overwrite."@,
        ),
        BuildErrorView::Filesystem { path, cause } => around_two(
            "Failed to prepare "@,
            path,
            " for index construction : "@,
            cause,
            ""@,
        ),
        BuildErrorView::Signature { cause } => around(
            "Failed to compute the signatures of the references : "@,
            cause,
            ""@,
        ),
        BuildErrorView::Marshal { stage } => around(
            "An argument of "@,
            stage.program(),
            " holds a NUL character and cannot be passed on."@,
        ),
        BuildErrorView::StageFailure { stage, exit_code } => around_two(
            ""@,
            engine_title(stage),
            " returned exit code "@,
            signed_decimal(exit_code as int),
            "; failure."@,
        ),
        BuildErrorView::OutOfTurn => "The build was told something that it had not asked for."@,
    }
}

fn configuration_message(error: ConfigurationError, request: &BuildRequest, ncpus: usize) -> (out:
    String)
    ensures
        out@ == configuration_text(error, request@, ncpus),
{
    match error {
        ConfigurationError::NonPositiveThreads | ConfigurationError::TooManyThreads => {
            thread_message(error, request.threads, ncpus)
        },
        ConfigurationError::MinimizerTooLong => fill_two(
            "minimizer length (",
            to_decimal(request.mlen as u64).as_str(),
            ") must be < k-mer length (",
            to_decimal(request.klen as u64).as_str(),
            ")",
        ),
        ConfigurationError::ReferenceInput =>
            "Input (via --ref-seqs, --ref-lists, or --ref-dirs) must be provided.".to_owned(),
    }
}

fn engine_name(stage: Stage) -> (name: &'static str)
    ensures
        name@ == engine_title(stage),
{
    match stage {
        Stage::Graph => "cDBG constructor",
        Stage::Index => "indexer",
        Stage::Poison => "building poison table",
    }
}

/// Says in words why a build of `request` on a machine with `ncpus` logical
/// CPUs did not run to its end.
pub fn build_message(error: &BuildError, request: &BuildRequest, ncpus: usize) -> (out: String)
    ensures
        out@ == build_text(error@, request@, ncpus),
{
    match error {
        BuildError::Configuration(e) => configuration_message(*e, request, ncpus),
        BuildError::Input { path, cause: None } => fill(
            "Path for decoy file ",
            path.as_str(),
            " seems not to point to a valid file",
        ),
        BuildError::Input { path, cause: Some(cause) } => fill_two(
            "Error ",
            cause.as_str(),
            " when checking the existence of decoy file ",
            path.as_str(),
            "",
        ),
        BuildError::Conflict { structure } => fill(
            "Cannot write over existing index without the --overwrite flag: the structure file ",
            structure.as_str(),
            " exists without its segment and sequence files. Delete it, choose another output prefix, or pass --overwrite.",
        ),
        BuildError::Filesystem { path, cause } => fill_two(
            "Failed to prepare ",
            path.as_str(),
            " for index construction : ",
            cause.as_str(),
            "",
        ),
        BuildError::Signature { cause } => fill(
            "Failed to compute the signatures of the references : ",
            cause.as_str(),
            "",
        ),
        BuildError::Marshal { stage } => fill(
            "An argument of ",
            stage.program_name(),
            " holds a NUL character and cannot be passed on.",
        ),
        BuildError::StageFailure { stage, exit_code } => fill_two(
            "",
            engine_name(*stage),
            " returned exit code ",
            to_signed_decimal(*exit_code).as_str(),
            "; failure.",
        ),
        BuildError::OutOfTurn =>
            "The build was told something that it had not asked for.".to_owned(),
    }
}

/// That an intermediate file could not be deleted, in words.
pub open spec fn warning_text(path: Seq<char>, cause: Seq<char>) -> Seq<char> {
    around_two("cannot remove "@, path, ", encountered error "@, cause, "!"@)
}

/// Says in words that an intermediate file could not be deleted.
pub fn warning_message(warning: &CleanupWarning) -> (out: String)
    ensures
        out@ == warning_text(warning@.path, warning@.cause),
{
    fill_two(
        "cannot remove ",
        warning.path.as_str(),
        ", encountered error ",
        warning.cause.as_str(),
        "!",
    )
}

/// Why the text `input` is refused as a k-mer length, in words.
pub open spec fn klen_text(error: KlenError, input: Seq<char>) -> Seq<char> {
    match error {
        KlenError::NotANumber => around("`"@, input, "` can't be parsed as a number"@),
        KlenError::TooLarge(k) => around("klen = "@, decimal(k as nat), " must be <= 31"@),
        KlenError::Even(k) => around("klen = "@, decimal(k as nat), " must be odd"@),
    }
}

/// Says in words why the text `input` is refused as a k-mer length.
pub fn klen_message(error: KlenError, input: &str) -> (out: String)
    ensures
        out@ == klen_text(error, input@),
{
    match error {
        KlenError::NotANumber => fill("`", input, "` can't be parsed as a number"),
        KlenError::TooLarge(k) => fill("klen = ", to_decimal(k as u64).as_str(), " must be <= 31"),
        KlenError::Even(k) => fill("klen = ", to_decimal(k as u64).as_str(), " must be odd"),
    }
}

/// Why reads cannot be mapped against the index with prefix `index`, in
/// words. `file` is the missing index file, where one is missing.
pub open spec fn map_text(error: MapError, index: Seq<char>, file: Seq<char>) -> Seq<char> {
    match error {
        MapError::ExistingIndexFile => around(
            "The path "@,
            index,
            " was provided as the base path for the index, but this corresponds to a specific existing file. The provided path should be the file stem (e.g. without the extension)."@,
        ),
        MapError::MissingIndexFile(_) => around_two(
            "To load the index with the specified prefix "@,
            index,
            ", piscem expects the file "@,
            file,
            " to exist, but it does not!"@,
        ),
        MapError::Marshal =>
            "An argument of the mapper holds a NUL character and cannot be passed on."@,
    }
}

/// Says in words why reads cannot be mapped against the index with prefix
/// `index`. `file` is the missing index file, where one is missing.
pub fn map_message(error: MapError, index: &str, file: &str) -> (out: String)
    ensures
        out@ == map_text(error, index@, file@),
{
    match error {
        MapError::ExistingIndexFile => fill(
            "The path ",
            index,
            " was provided as the base path for the index, but this corresponds to a specific existing file. The provided path should be the file stem (e.g. without the extension).",
        ),
        MapError::MissingIndexFile(_) => fill_two(
            "To load the index with the specified prefix ",
            index,
            ", piscem expects the file ",
            file,
            " to exist, but it does not!",
        ),
        MapError::Marshal =>
            "An argument of the mapper holds a NUL character and cannot be passed on.".to_owned(),
    }
}

/// That a mapper returned a code other than zero, in words.
pub open spec fn mapper_failure_text(exit_code: i32) -> Seq<char> {
    around("mapper returned exit code "@, signed_decimal(exit_code as int), "; failure"@)
}

/// Says in words that a mapper returned a code other than zero.
pub fn mapper_failure_message(exit_code: i32) -> (out: String)
    ensures
        out@ == mapper_failure_text(exit_code),
{
    fill("mapper returned exit code ", to_signed_decimal(exit_code).as_str(), "; failure")
}

} // verus!
