use piscem::error::{BuildError, ConfigurationError};
use piscem::request::{check_decoy, BuildRequest, Probe};

fn request() -> BuildRequest {
    BuildRequest {
        ref_seqs: vec!["a.fa".to_string()],
        ref_lists: vec![],
        ref_dirs: vec![],
        klen: 31,
        mlen: 19,
        threads: 4,
        output_prefix: "idx/out".to_string(),
        work_dir: "./workdir.noindex".to_string(),
        overwrite: false,
        keep_intermediate: false,
        build_ec_table: true,
        decoy_paths: None,
        seed: 1,
    }
}

fn with_decoys(paths: &[&str]) -> BuildRequest {
    let mut req = request();
    req.decoy_paths = Some(paths.iter().map(|s| s.to_string()).collect());
    req
}

#[test]
fn a_valid_request_is_accepted() {
    assert_eq!(request().validate(8, &vec![]), Ok(()));
}

#[test]
fn every_odd_klen_with_a_shorter_minimizer_is_accepted() {
    let mut klen = 1;
    while klen <= 31 {
        for mlen in 0..klen {
            let mut req = request();
            req.klen = klen;
            req.mlen = mlen;
            assert_eq!(req.validate(4, &vec![]), Ok(()), "klen {} mlen {}", klen, mlen);
        }
        klen += 2;
    }
}

#[test]
fn as_many_threads_as_cpus_are_accepted() {
    let mut req = request();
    req.threads = 8;
    assert_eq!(req.validate(8, &vec![]), Ok(()));
    req.threads = 1;
    assert_eq!(req.validate(1, &vec![]), Ok(()));
}

#[test]
fn no_thread_is_refused() {
    let mut req = request();
    req.threads = 0;
    assert_eq!(
        req.validate(8, &vec![]),
        Err(BuildError::Configuration(ConfigurationError::NonPositiveThreads))
    );
}

#[test]
fn more_threads_than_cpus_are_refused() {
    let mut req = request();
    req.threads = 9;
    assert_eq!(
        req.validate(8, &vec![]),
        Err(BuildError::Configuration(ConfigurationError::TooManyThreads))
    );
}

#[test]
fn a_minimizer_as_long_as_the_kmer_is_refused() {
    let mut req = request();
    req.klen = 19;
    req.mlen = 19;
    assert_eq!(
        req.validate(8, &vec![]),
        Err(BuildError::Configuration(ConfigurationError::MinimizerTooLong))
    );
    req.mlen = 31;
    assert_eq!(
        req.validate(8, &vec![]),
        Err(BuildError::Configuration(ConfigurationError::MinimizerTooLong))
    );
}

#[test]
fn the_thread_rule_comes_before_the_length_rule() {
    let mut req = request();
    req.threads = 0;
    req.mlen = 40;
    assert_eq!(
        req.validate(8, &vec![]),
        Err(BuildError::Configuration(ConfigurationError::NonPositiveThreads))
    );
    req.threads = 100;
    assert_eq!(
        req.validate(8, &vec![]),
        Err(BuildError::Configuration(ConfigurationError::TooManyThreads))
    );
}

#[test]
fn decoys_in_place_are_accepted() {
    let req = with_decoys(&["d1.fa", "d2.fa"]);
    assert_eq!(req.decoy_count(), 2);
    assert_eq!(req.validate(8, &vec![Probe::Present, Probe::Present]), Ok(()));
}

#[test]
fn a_missing_decoy_is_named() {
    let req = with_decoys(&["d1.fa", "d2.fa"]);
    assert_eq!(
        req.validate(8, &vec![Probe::Present, Probe::Absent]),
        Err(BuildError::Input { path: "d2.fa".to_string(), cause: None })
    );
}

#[test]
fn a_decoy_that_cannot_be_looked_at_carries_the_cause() {
    let req = with_decoys(&["d1.fa", "d2.fa"]);
    assert_eq!(
        req.validate(8, &vec![Probe::Failed("permission denied".to_string()), Probe::Absent]),
        Err(BuildError::Input {
            path: "d1.fa".to_string(),
            cause: Some("permission denied".to_string())
        })
    );
}

#[test]
fn the_first_bad_decoy_is_reported() {
    let req = with_decoys(&["d1.fa", "d2.fa", "d3.fa"]);
    assert_eq!(
        req.validate(8, &vec![Probe::Present, Probe::Absent, Probe::Failed("x".to_string())]),
        Err(BuildError::Input { path: "d2.fa".to_string(), cause: None })
    );
}

#[test]
fn the_length_rule_comes_before_the_decoys() {
    let mut req = with_decoys(&["d1.fa"]);
    req.mlen = 31;
    assert_eq!(
        req.validate(8, &vec![Probe::Absent]),
        Err(BuildError::Configuration(ConfigurationError::MinimizerTooLong))
    );
}

#[test]
fn no_reference_is_refused() {
    let mut req = request();
    req.ref_seqs = vec![];
    assert_eq!(
        req.validate(8, &vec![]),
        Err(BuildError::Configuration(ConfigurationError::ReferenceInput))
    );
    assert_eq!(req.check_references(), Err(ConfigurationError::ReferenceInput));
}

#[test]
fn references_in_two_forms_are_refused() {
    let mut req = request();
    req.ref_dirs = vec!["refs".to_string()];
    assert_eq!(
        req.validate(8, &vec![]),
        Err(BuildError::Configuration(ConfigurationError::ReferenceInput))
    );
    req.ref_lists = vec!["list.txt".to_string()];
    assert_eq!(req.check_references(), Err(ConfigurationError::ReferenceInput));
}

#[test]
fn each_single_form_of_reference_is_accepted() {
    let mut req = request();
    assert_eq!(req.check_references(), Ok(()));
    req.ref_seqs = vec![];
    req.ref_lists = vec!["list.txt".to_string()];
    assert_eq!(req.check_references(), Ok(()));
    req.ref_lists = vec![];
    req.ref_dirs = vec!["refs".to_string(), "more".to_string()];
    assert_eq!(req.check_references(), Ok(()));
}

#[test]
fn the_decoys_come_before_the_references() {
    let mut req = with_decoys(&["d1.fa"]);
    req.ref_seqs = vec![];
    assert_eq!(
        req.validate(8, &vec![Probe::Absent]),
        Err(BuildError::Input { path: "d1.fa".to_string(), cause: None })
    );
}

#[test]
fn check_numbers_names_the_first_broken_rule() {
    let mut req = request();
    assert_eq!(req.check_numbers(4), Ok(()));
    assert_eq!(req.check_numbers(3), Err(ConfigurationError::TooManyThreads));
    req.threads = 0;
    assert_eq!(req.check_numbers(3), Err(ConfigurationError::NonPositiveThreads));
    req.threads = 2;
    req.mlen = 31;
    assert_eq!(req.check_numbers(3), Err(ConfigurationError::MinimizerTooLong));
}

#[test]
fn check_decoy_turns_a_look_into_a_verdict() {
    assert_eq!(check_decoy("d.fa", &Probe::Present), Ok(()));
    assert_eq!(
        check_decoy("d.fa", &Probe::Absent),
        Err(BuildError::Input { path: "d.fa".to_string(), cause: None })
    );
    assert_eq!(
        check_decoy("d.fa", &Probe::Failed("io".to_string())),
        Err(BuildError::Input { path: "d.fa".to_string(), cause: Some("io".to_string()) })
    );
}

#[test]
fn reasons_are_worded() {
    assert_eq!(ConfigurationError::NonPositiveThreads.reason(), "non-positive thread count");
    assert_eq!(ConfigurationError::TooManyThreads.reason(), "thread count exceeds available CPUs");
    assert_eq!(
        ConfigurationError::MinimizerTooLong.reason(),
        "minimizer length must be smaller than k-mer length"
    );
    assert_eq!(
        ConfigurationError::ReferenceInput.reason(),
        "exactly one form of reference input must be given"
    );
}
