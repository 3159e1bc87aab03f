use piscem::error::{BuildError, CleanupWarning, ConfigurationError};
use piscem::klen::{klen_is_good, KlenError};
use piscem::mapping::MapError;
use piscem::messages::{
    build_message, klen_message, map_message, mapper_failure_message, thread_message,
    warning_message,
};
use piscem::request::BuildRequest;
use piscem::stage::Stage;
use piscem::text::to_signed_decimal;

fn request() -> BuildRequest {
    BuildRequest {
        ref_seqs: vec!["a.fa".to_string()],
        ref_lists: vec![],
        ref_dirs: vec![],
        klen: 31,
        mlen: 19,
        threads: 4,
        output_prefix: "idx/out".to_string(),
        work_dir: "work".to_string(),
        overwrite: false,
        keep_intermediate: false,
        build_ec_table: true,
        decoy_paths: None,
        seed: 1,
    }
}

#[test]
fn signed_numbers_are_written_with_their_sign() {
    assert_eq!(to_signed_decimal(0), "0");
    assert_eq!(to_signed_decimal(7), "7");
    assert_eq!(to_signed_decimal(-1), "-1");
    assert_eq!(to_signed_decimal(-11), "-11");
    assert_eq!(to_signed_decimal(i32::MAX), i32::MAX.to_string());
    assert_eq!(to_signed_decimal(i32::MIN), i32::MIN.to_string());
}

#[test]
fn thread_messages_name_the_numbers() {
    let mut req = request();
    req.threads = 0;
    assert_eq!(
        build_message(
            &BuildError::Configuration(ConfigurationError::NonPositiveThreads),
            &req,
            8
        ),
        "the number of provided threads (0) must be greater than 0."
    );
    req.threads = 12;
    assert_eq!(
        build_message(&BuildError::Configuration(ConfigurationError::TooManyThreads), &req, 8),
        "the number of provided threads (12) should be <= the number of logical CPUs (8)."
    );
    assert_eq!(
        thread_message(ConfigurationError::TooManyThreads, 17, 16),
        "the number of provided threads (17) should be <= the number of logical CPUs (16)."
    );
    assert_eq!(
        thread_message(ConfigurationError::NonPositiveThreads, 0, 16),
        "the number of provided threads (0) must be greater than 0."
    );
}

#[test]
fn length_message_names_both_lengths() {
    let mut req = request();
    req.klen = 19;
    req.mlen = 21;
    assert_eq!(
        build_message(&BuildError::Configuration(ConfigurationError::MinimizerTooLong), &req, 8),
        "minimizer length (21) must be < k-mer length (19)"
    );
}

#[test]
fn reference_message() {
    assert_eq!(
        build_message(
            &BuildError::Configuration(ConfigurationError::ReferenceInput),
            &request(),
            8
        ),
        "Input (via --ref-seqs, --ref-lists, or --ref-dirs) must be provided."
    );
}

#[test]
fn decoy_messages_name_the_path() {
    assert_eq!(
        build_message(
            &BuildError::Input { path: "d.fa".to_string(), cause: None },
            &request(),
            8
        ),
        "Path for decoy file d.fa seems not to point to a valid file"
    );
    assert_eq!(
        build_message(
            &BuildError::Input {
                path: "d.fa".to_string(),
                cause: Some("permission denied".to_string())
            },
            &request(),
            8
        ),
        "Error permission denied when checking the existence of decoy file d.fa"
    );
}

#[test]
fn conflict_message_says_what_to_do() {
    let message = build_message(
        &BuildError::Conflict { structure: "idx/out_cfish.json".to_string() },
        &request(),
        8,
    );
    assert!(message.starts_with("Cannot write over existing index without the --overwrite flag"));
    assert!(message.contains("idx/out_cfish.json"));
    assert!(message.contains("Delete it"));
    assert!(message.contains("another output prefix"));
    assert!(message.contains("--overwrite"));
}

#[test]
fn stage_failure_messages_name_the_engine_and_the_code() {
    let req = request();
    assert_eq!(
        build_message(&BuildError::StageFailure { stage: Stage::Graph, exit_code: 3 }, &req, 8),
        "cDBG constructor returned exit code 3; failure."
    );
    assert_eq!(
        build_message(&BuildError::StageFailure { stage: Stage::Index, exit_code: -11 }, &req, 8),
        "indexer returned exit code -11; failure."
    );
    assert_eq!(
        build_message(&BuildError::StageFailure { stage: Stage::Poison, exit_code: 255 }, &req, 8),
        "building poison table returned exit code 255; failure."
    );
}

#[test]
fn other_build_messages() {
    let req = request();
    assert_eq!(
        build_message(
            &BuildError::Filesystem { path: "work".to_string(), cause: "read-only".to_string() },
            &req,
            8
        ),
        "Failed to prepare work for index construction : read-only"
    );
    assert_eq!(
        build_message(&BuildError::Signature { cause: "bad record".to_string() }, &req, 8),
        "Failed to compute the signatures of the references : bad record"
    );
    assert_eq!(
        build_message(&BuildError::Marshal { stage: Stage::Index }, &req, 8),
        "An argument of ref_index_builder holds a NUL character and cannot be passed on."
    );
    assert_eq!(
        build_message(&BuildError::OutOfTurn, &req, 8),
        "The build was told something that it had not asked for."
    );
}

#[test]
fn warning_message_names_path_and_cause() {
    let warning = CleanupWarning {
        path: "idx/out_cfish.cf_seg".to_string(),
        cause: "permission denied".to_string(),
    };
    assert_eq!(
        warning_message(&warning),
        "cannot remove idx/out_cfish.cf_seg, encountered error permission denied!"
    );
}

#[test]
fn klen_messages() {
    assert_eq!(klen_message(KlenError::NotANumber, "k"), "`k` can't be parsed as a number");
    assert_eq!(klen_message(KlenError::TooLarge(33), "33"), "klen = 33 must be <= 31");
    assert_eq!(klen_message(KlenError::Even(30), "30"), "klen = 30 must be odd");
    let refused = klen_is_good("64").unwrap_err();
    assert_eq!(klen_message(refused, "64"), "klen = 64 must be <= 31");
}

#[test]
fn map_messages() {
    assert_eq!(
        map_message(MapError::ExistingIndexFile, "idx/out.sshash", ""),
        "The path idx/out.sshash was provided as the base path for the index, but this corresponds to a specific existing file. The provided path should be the file stem (e.g. without the extension)."
    );
    assert_eq!(
        map_message(MapError::MissingIndexFile(1), "idx/out", "idx/out.ctab"),
        "To load the index with the specified prefix idx/out, piscem expects the file idx/out.ctab to exist, but it does not!"
    );
    assert_eq!(
        map_message(MapError::Marshal, "idx/out", ""),
        "An argument of the mapper holds a NUL character and cannot be passed on."
    );
    assert_eq!(mapper_failure_message(1), "mapper returned exit code 1; failure");
    assert_eq!(mapper_failure_message(-6), "mapper returned exit code -6; failure");
}
