use piscem::argv::{all_marshalable, marshal};
use piscem::error::{BuildError, ConfigurationError};
use piscem::request::BuildRequest;
use piscem::stage::Stage;

fn request() -> BuildRequest {
    BuildRequest {
        ref_seqs: vec!["a.fa".to_string()],
        ref_lists: vec![],
        ref_dirs: vec![],
        klen: 31,
        mlen: 19,
        threads: 4,
        output_prefix: "idx/out".to_string(),
        work_dir: "work".to_string(),
        overwrite: false,
        keep_intermediate: false,
        build_ec_table: true,
        decoy_paths: None,
        seed: 1,
    }
}

fn strings(items: &[&str]) -> Vec<String> {
    items.iter().map(|s| s.to_string()).collect()
}

fn reference_flags(argv: &[String]) -> usize {
    argv.iter().filter(|t| *t == "--seq" || *t == "--list" || *t == "--dir").count()
}

#[test]
fn graph_command_line_for_sequence_files() {
    let mut req = request();
    req.ref_seqs = strings(&["a.fa", "b.fa"]);
    assert_eq!(
        marshal(Stage::Graph, &req, false),
        Ok(strings(&[
            "cdbg_builder",
            "--seq",
            "a.fa,b.fa",
            "-k",
            "31",
            "--track-short-seqs",
            "--poly-N-stretch",
            "-o",
            "idx/out_cfish",
            "-t",
            "4",
            "-f",
            "3",
            "-w",
            "work",
        ]))
    );
}

#[test]
fn graph_command_line_for_lists() {
    let mut req = request();
    req.ref_seqs = vec![];
    req.ref_lists = strings(&["l1.txt", "l2.txt"]);
    let argv = marshal(Stage::Graph, &req, false).unwrap();
    assert_eq!(argv[1], "--list");
    assert_eq!(argv[2], "l1.txt,l2.txt");
    assert_eq!(argv.len(), 15);
}

#[test]
fn graph_command_line_for_directories() {
    let mut req = request();
    req.ref_seqs = vec![];
    req.ref_dirs = strings(&["refs"]);
    let argv = marshal(Stage::Graph, &req, true).unwrap();
    assert_eq!(argv[1], "--dir");
    assert_eq!(argv[2], "refs");
    assert!(!argv.contains(&"--quiet".to_string()));
}

#[test]
fn graph_command_line_announces_references_once() {
    for form in 0..3 {
        let mut req = request();
        req.ref_seqs = vec![];
        match form {
            0 => req.ref_seqs = strings(&["a.fa", "b.fa"]),
            1 => req.ref_lists = strings(&["l.txt"]),
            _ => req.ref_dirs = strings(&["d1", "d2", "d3"]),
        }
        let argv = marshal(Stage::Graph, &req, false).unwrap();
        assert_eq!(reference_flags(&argv), 1);
    }
}

#[test]
fn graph_command_line_names_klen_behind_its_flag() {
    for klen in [1usize, 7, 19, 31] {
        let mut req = request();
        req.klen = klen;
        let argv = marshal(Stage::Graph, &req, false).unwrap();
        let at = argv.iter().position(|t| t == "-k").unwrap();
        assert_eq!(at, 3);
        assert_eq!(argv[at + 1], klen.to_string());
    }
}

#[test]
fn a_reference_spelled_like_a_flag_is_handed_on() {
    let mut req = request();
    req.ref_seqs = strings(&["--seq"]);
    let argv = marshal(Stage::Graph, &req, false).unwrap();
    assert_eq!(argv[1], "--seq");
    assert_eq!(argv[2], "--seq");
    assert_eq!(reference_flags(&argv), 2);
}

#[test]
fn graph_stage_asks_again_for_one_form_of_reference() {
    let mut req = request();
    req.ref_seqs = vec![];
    assert_eq!(
        marshal(Stage::Graph, &req, false),
        Err(BuildError::Configuration(ConfigurationError::ReferenceInput))
    );
    req.ref_seqs = strings(&["a.fa"]);
    req.ref_lists = strings(&["l.txt"]);
    assert_eq!(
        marshal(Stage::Graph, &req, false),
        Err(BuildError::Configuration(ConfigurationError::ReferenceInput))
    );
}

#[test]
fn index_command_line() {
    assert_eq!(
        marshal(Stage::Index, &request(), false),
        Ok(strings(&[
            "ref_index_builder",
            "-i",
            "idx/out_cfish",
            "-k",
            "31",
            "-m",
            "19",
            "--canonical-parsing",
            "--build-ec-table",
            "-o",
            "idx/out",
            "-d",
            "work",
            "-t",
            "4",
        ]))
    );
}

#[test]
fn index_command_line_without_table_and_quiet() {
    let mut req = request();
    req.build_ec_table = false;
    assert_eq!(
        marshal(Stage::Index, &req, true),
        Ok(strings(&[
            "ref_index_builder",
            "-i",
            "idx/out_cfish",
            "-k",
            "31",
            "-m",
            "19",
            "--canonical-parsing",
            "-o",
            "idx/out",
            "-d",
            "work",
            "-t",
            "4",
            "--quiet",
        ]))
    );
}

#[test]
fn poison_command_line() {
    let mut req = request();
    req.decoy_paths = Some(strings(&["d1.fa", "d2.fa"]));
    assert_eq!(
        marshal(Stage::Poison, &req, false),
        Ok(strings(&["poison_table_builder", "-i", "idx/out", "-t", "4", "-d", "d1.fa,d2.fa"]))
    );
}

#[test]
fn poison_command_line_with_overwrite_and_quiet() {
    let mut req = request();
    req.decoy_paths = Some(strings(&["d1.fa"]));
    req.overwrite = true;
    assert_eq!(
        marshal(Stage::Poison, &req, true),
        Ok(strings(&[
            "poison_table_builder",
            "-i",
            "idx/out",
            "-t",
            "4",
            "--overwrite",
            "-d",
            "d1.fa",
            "--quiet",
        ]))
    );
}

#[test]
fn poison_command_line_without_decoys_has_an_empty_list() {
    assert_eq!(
        marshal(Stage::Poison, &request(), false),
        Ok(strings(&["poison_table_builder", "-i", "idx/out", "-t", "4", "-d", ""]))
    );
}

#[test]
fn nul_in_a_reference_stops_the_graph_stage() {
    let mut req = request();
    req.ref_seqs = strings(&["a.fa", "b\0.fa"]);
    assert_eq!(marshal(Stage::Graph, &req, false), Err(BuildError::Marshal { stage: Stage::Graph }));
    assert!(marshal(Stage::Index, &req, false).is_ok());
}

#[test]
fn nul_in_the_prefix_stops_every_stage() {
    let mut req = request();
    req.output_prefix = "idx/\0out".to_string();
    assert_eq!(marshal(Stage::Graph, &req, false), Err(BuildError::Marshal { stage: Stage::Graph }));
    assert_eq!(marshal(Stage::Index, &req, false), Err(BuildError::Marshal { stage: Stage::Index }));
    assert_eq!(
        marshal(Stage::Poison, &req, false),
        Err(BuildError::Marshal { stage: Stage::Poison })
    );
}

#[test]
fn nul_in_the_work_dir_stops_the_stages_that_name_it() {
    let mut req = request();
    req.work_dir = "\0".to_string();
    assert_eq!(marshal(Stage::Graph, &req, false), Err(BuildError::Marshal { stage: Stage::Graph }));
    assert_eq!(marshal(Stage::Index, &req, false), Err(BuildError::Marshal { stage: Stage::Index }));
    assert!(marshal(Stage::Poison, &req, false).is_ok());
}

#[test]
fn nul_in_a_decoy_stops_the_poison_stage() {
    let mut req = request();
    req.decoy_paths = Some(strings(&["d\0.fa"]));
    assert!(marshal(Stage::Graph, &req, false).is_ok());
    assert_eq!(
        marshal(Stage::Poison, &req, false),
        Err(BuildError::Marshal { stage: Stage::Poison })
    );
}

#[test]
fn all_marshalable_looks_at_every_token() {
    assert!(all_marshalable(&strings(&[])));
    assert!(all_marshalable(&strings(&["a", "", "b"])));
    assert!(!all_marshalable(&strings(&["\0", "b"])));
    assert!(!all_marshalable(&strings(&["a", "b", "c\0"])));
}

#[test]
fn program_names() {
    assert_eq!(Stage::Graph.program_name(), "cdbg_builder");
    assert_eq!(Stage::Index.program_name(), "ref_index_builder");
    assert_eq!(Stage::Poison.program_name(), "poison_table_builder");
}
