use piscem::artifacts::resolve;
use piscem::error::{BuildError, CleanupWarning, ConfigurationError};
use piscem::pipeline::{Directive, Event, GraphFile, Orchestrator, Phase, Step};
use piscem::request::{BuildRequest, Probe};
use piscem::stage::Stage;
use std::collections::BTreeSet;

fn strings(items: &[&str]) -> Vec<String> {
    items.iter().map(|s| s.to_string()).collect()
}

fn request() -> BuildRequest {
    BuildRequest {
        ref_seqs: strings(&["a.fa"]),
        ref_lists: vec![],
        ref_dirs: vec![],
        klen: 31,
        mlen: 19,
        threads: 4,
        output_prefix: "idx/out".to_string(),
        work_dir: "./workdir.noindex".to_string(),
        overwrite: false,
        keep_intermediate: false,
        build_ec_table: true,
        decoy_paths: None,
        seed: 1,
    }
}

/// A file system and three engines that exist in memory only and keep a
/// record of what they were asked to do.
struct World {
    present: BTreeSet<String>,
    unreadable: BTreeSet<String>,
    locked: BTreeSet<String>,
    exit_codes: [i32; 3],
    signing_fails: bool,
    probed: Vec<String>,
    removed: Vec<String>,
    created: Vec<String>,
    signed: Vec<(Vec<String>, String)>,
    invoked: Vec<(Stage, Vec<String>)>,
}

impl World {
    fn new(present: &[&str]) -> World {
        World {
            present: present.iter().map(|s| s.to_string()).collect(),
            unreadable: BTreeSet::new(),
            locked: BTreeSet::new(),
            exit_codes: [0, 0, 0],
            signing_fails: false,
            probed: vec![],
            removed: vec![],
            created: vec![],
            signed: vec![],
            invoked: vec![],
        }
    }

    fn has(&self, path: &str) -> bool {
        self.present.contains(path)
    }

    fn mutations(&self) -> usize {
        self.removed.len() + self.created.len() + self.signed.len()
    }

    fn answer(&mut self, directive: &Directive) -> Option<Event> {
        match directive {
            Directive::Probe(path) => {
                self.probed.push(path.clone());
                if self.unreadable.contains(path) {
                    Some(Event::Probed(Probe::Failed("permission denied".to_string())))
                } else if self.present.contains(path) {
                    Some(Event::Probed(Probe::Present))
                } else {
                    Some(Event::Probed(Probe::Absent))
                }
            }
            Directive::Remove(path) => {
                if self.locked.contains(path) {
                    Some(Event::Failed("permission denied".to_string()))
                } else if self.present.remove(path) {
                    self.removed.push(path.clone());
                    Some(Event::Succeeded)
                } else {
                    Some(Event::Failed("no such file".to_string()))
                }
            }
            Directive::CreateDirs(path) => {
                if self.locked.contains(path) {
                    Some(Event::Failed("read-only file system".to_string()))
                } else {
                    self.present.insert(path.clone());
                    self.created.push(path.clone());
                    Some(Event::Succeeded)
                }
            }
            Directive::Sign { inputs, stem } => {
                if self.signing_fails {
                    Some(Event::Failed("invalid input path/file".to_string()))
                } else {
                    self.signed.push((inputs.clone(), stem.clone()));
                    Some(Event::Succeeded)
                }
            }
            Directive::Invoke { stage, argv } => {
                self.invoked.push((*stage, argv.clone()));
                let (code, made) = match stage {
                    Stage::Graph => {
                        let at = argv.iter().position(|t| t == "-o").unwrap();
                        let prefix = argv[at + 1].clone();
                        (
                            self.exit_codes[0],
                            vec![
                                format!("{}.cf_seg", prefix),
                                format!("{}.cf_seq", prefix),
                                format!("{}.json", prefix),
                            ],
                        )
                    }
                    Stage::Index => {
                        let at = argv.iter().position(|t| t == "-o").unwrap();
                        let prefix = argv[at + 1].clone();
                        let mut made = vec![
                            format!("{}.sshash", prefix),
                            format!("{}.ctab", prefix),
                            format!("{}.refinfo", prefix),
                        ];
                        if argv.iter().any(|t| t == "--build-ec-table") {
                            made.push(format!("{}.ectab", prefix));
                        }
                        (self.exit_codes[1], made)
                    }
                    Stage::Poison => {
                        let at = argv.iter().position(|t| t == "-i").unwrap();
                        (self.exit_codes[2], vec![format!("{}.poison", argv[at + 1])])
                    }
                };
                if code == 0 {
                    for path in made {
                        self.present.insert(path);
                    }
                }
                Some(Event::Exited(code))
            }
            Directive::Finish { version_manifest } => {
                self.present.insert(version_manifest.clone());
                None
            }
            Directive::Abort(_) | Directive::Halt => None,
        }
    }
}

/// Runs the build in the world until nothing is left to do; gives every
/// directive that came.
fn drive(o: &mut Orchestrator, world: &mut World) -> Vec<Directive> {
    let mut directives = vec![];
    let mut event = Event::Start;
    loop {
        let directive = o.step(event);
        let answer = world.answer(&directive);
        directives.push(directive);
        match answer {
            Some(e) => event = e,
            None => return directives,
        }
        assert!(directives.len() < 1000);
    }
}

fn build(req: BuildRequest, world: &mut World) -> (Orchestrator, Vec<Directive>) {
    let mut o = Orchestrator::new(req, false, 8, Some("idx".to_string()));
    let directives = drive(&mut o, world);
    (o, directives)
}

fn stages(world: &World) -> Vec<Stage> {
    world.invoked.iter().map(|(s, _)| *s).collect()
}

#[test]
fn a_build_from_start_to_end() {
    let mut world = World::new(&["a.fa"]);
    let (o, directives) = build(request(), &mut world);
    assert_eq!(
        directives,
        vec![
            Directive::Probe("idx/out_cfish.json".to_string()),
            Directive::Sign { inputs: strings(&["a.fa"]), stem: "idx/out.sigs".to_string() },
            Directive::Probe("./workdir.noindex".to_string()),
            Directive::CreateDirs("./workdir.noindex".to_string()),
            Directive::Probe("idx".to_string()),
            Directive::CreateDirs("idx".to_string()),
            Directive::Invoke {
                stage: Stage::Graph,
                argv: strings(&[
                    "cdbg_builder",
                    "--seq",
                    "a.fa",
                    "-k",
                    "31",
                    "--track-short-seqs",
                    "--poly-N-stretch",
                    "-o",
                    "idx/out_cfish",
                    "-t",
                    "4",
                    "-f",
                    "3",
                    "-w",
                    "./workdir.noindex",
                ]),
            },
            Directive::Invoke {
                stage: Stage::Index,
                argv: strings(&[
                    "ref_index_builder",
                    "-i",
                    "idx/out_cfish",
                    "-k",
                    "31",
                    "-m",
                    "19",
                    "--canonical-parsing",
                    "--build-ec-table",
                    "-o",
                    "idx/out",
                    "-d",
                    "./workdir.noindex",
                    "-t",
                    "4",
                ]),
            },
            Directive::Remove("idx/out_cfish.cf_seg".to_string()),
            Directive::Remove("idx/out_cfish.cf_seq".to_string()),
            Directive::Finish { version_manifest: "idx/out_ver.json".to_string() },
        ]
    );
    assert!(world.has("idx/out.sshash"));
    assert!(world.has("idx/out.ctab"));
    assert!(world.has("idx/out.refinfo"));
    assert!(world.has("idx/out.ectab"));
    assert!(world.has("idx/out_ver.json"));
    assert!(!world.has("idx/out_cfish.cf_seg"));
    assert!(!world.has("idx/out_cfish.cf_seq"));
    assert!(world.has("idx/out_cfish.json"));
    assert_eq!(o.phase(), Phase::Done);
    assert_eq!(o.current(), Step::Done);
    assert!(o.ended());
    assert!(o.warnings().is_empty());
    assert_eq!(o.request(), &request());
}

#[test]
fn the_files_of_a_build_are_those_that_resolve_names() {
    let mut world = World::new(&[]);
    build(request(), &mut world);
    let set = resolve("idx/out");
    assert!(world.has(&set.index));
    assert!(world.has(&set.color_table));
    assert!(world.has(&set.ref_info));
    assert!(world.has(&set.ec_table));
    assert!(world.has(&set.version_manifest));
    assert!(world.has(&set.structure));
    assert!(!world.has(&set.segment));
    assert!(!world.has(&set.sequence));
}

#[test]
fn a_long_minimizer_runs_no_engine() {
    for (klen, mlen) in [(19, 19), (19, 20), (31, 31), (1, 1), (5, 200)] {
        let mut req = request();
        req.klen = klen;
        req.mlen = mlen;
        let mut world = World::new(&[]);
        let (o, directives) = build(req, &mut world);
        assert_eq!(
            directives,
            vec![Directive::Abort(BuildError::Configuration(ConfigurationError::MinimizerTooLong))]
        );
        assert!(world.invoked.is_empty());
        assert!(world.probed.is_empty());
        assert_eq!(world.mutations(), 0);
        assert_eq!(o.phase(), Phase::Aborted);
    }
}

#[test]
fn a_bad_thread_count_touches_nothing() {
    for (threads, error) in [
        (0, ConfigurationError::NonPositiveThreads),
        (9, ConfigurationError::TooManyThreads),
        (usize::MAX, ConfigurationError::TooManyThreads),
    ] {
        let mut req = request();
        req.threads = threads;
        req.overwrite = true;
        let mut world = World::new(&["idx/out_cfish.json", "idx/out_cfish.cf_seg"]);
        let (_, directives) = build(req, &mut world);
        assert_eq!(directives, vec![Directive::Abort(BuildError::Configuration(error))]);
        assert_eq!(world.mutations(), 0);
        assert!(world.invoked.is_empty());
        assert!(world.has("idx/out_cfish.json"));
        assert!(world.has("idx/out_cfish.cf_seg"));
    }
}

#[test]
fn a_structure_file_without_its_companions_is_a_conflict() {
    for present in [
        vec!["idx/out_cfish.json"],
        vec!["idx/out_cfish.json", "idx/out_cfish.cf_seg"],
        vec!["idx/out_cfish.json", "idx/out_cfish.cf_seq"],
    ] {
        let mut world = World::new(&present);
        let (o, directives) = build(request(), &mut world);
        assert_eq!(
            directives.last().unwrap(),
            &Directive::Abort(BuildError::Conflict { structure: "idx/out_cfish.json".to_string() })
        );
        assert!(world.invoked.is_empty());
        assert_eq!(world.mutations(), 0);
        assert!(world.has("idx/out_cfish.json"));
        assert_eq!(o.phase(), Phase::Aborted);
    }
}

#[test]
fn the_conflict_check_looks_at_structure_then_sequence_then_segment() {
    let mut world = World::new(&["idx/out_cfish.json", "idx/out_cfish.cf_seq"]);
    build(request(), &mut world);
    assert_eq!(
        world.probed,
        strings(&["idx/out_cfish.json", "idx/out_cfish.cf_seq", "idx/out_cfish.cf_seg"])
    );
    let mut world = World::new(&["idx/out_cfish.json"]);
    build(request(), &mut world);
    assert_eq!(world.probed, strings(&["idx/out_cfish.json", "idx/out_cfish.cf_seq"]));
}

#[test]
fn a_whole_earlier_build_is_no_conflict() {
    let mut world =
        World::new(&["idx/out_cfish.json", "idx/out_cfish.cf_seq", "idx/out_cfish.cf_seg"]);
    let (o, directives) = build(request(), &mut world);
    assert!(matches!(directives.last().unwrap(), Directive::Finish { .. }));
    assert_eq!(stages(&world), vec![Stage::Graph, Stage::Index]);
    assert_eq!(o.phase(), Phase::Done);
}

#[test]
fn companions_without_a_structure_file_are_no_conflict() {
    let mut world = World::new(&["idx/out_cfish.cf_seq"]);
    let (_, directives) = build(request(), &mut world);
    assert!(matches!(directives.last().unwrap(), Directive::Finish { .. }));
    assert_eq!(world.probed[0], "idx/out_cfish.json");
    assert_eq!(world.probed[1], "./workdir.noindex");
}

#[test]
fn overwriting_removes_the_stale_files_before_the_first_engine() {
    let mut req = request();
    req.overwrite = true;
    let mut world = World::new(&["idx/out_cfish.json", "idx/out_cfish.cf_seg", "idx/out_cfish.cf_seq", "idx"]);
    let (_, directives) = build(req, &mut world);
    assert_eq!(
        directives[..6],
        [
            Directive::Probe("idx/out_cfish.json".to_string()),
            Directive::Remove("idx/out_cfish.json".to_string()),
            Directive::Probe("idx/out_cfish.cf_seg".to_string()),
            Directive::Remove("idx/out_cfish.cf_seg".to_string()),
            Directive::Probe("idx/out_cfish.cf_seq".to_string()),
            Directive::Remove("idx/out_cfish.cf_seq".to_string()),
        ]
    );
    let first_engine = directives.iter().position(|d| matches!(d, Directive::Invoke { .. })).unwrap();
    assert!(first_engine > 5);
    assert!(matches!(directives.last().unwrap(), Directive::Finish { .. }));
}

#[test]
fn overwriting_removes_only_what_is_there() {
    let mut req = request();
    req.overwrite = true;
    let mut world = World::new(&["idx/out_cfish.json"]);
    let (_, directives) = build(req, &mut world);
    assert_eq!(
        directives[..4],
        [
            Directive::Probe("idx/out_cfish.json".to_string()),
            Directive::Remove("idx/out_cfish.json".to_string()),
            Directive::Probe("idx/out_cfish.cf_seg".to_string()),
            Directive::Probe("idx/out_cfish.cf_seq".to_string()),
        ]
    );
    assert_eq!(world.removed[0], "idx/out_cfish.json");
    assert_eq!(stages(&world), vec![Stage::Graph, Stage::Index]);
}

#[test]
fn a_stale_file_that_cannot_be_deleted_stops_the_build() {
    let mut req = request();
    req.overwrite = true;
    let mut world = World::new(&["idx/out_cfish.json", "idx/out_cfish.cf_seg"]);
    world.locked.insert("idx/out_cfish.cf_seg".to_string());
    let (_, directives) = build(req, &mut world);
    assert_eq!(
        directives.last().unwrap(),
        &Directive::Abort(BuildError::Filesystem {
            path: "idx/out_cfish.cf_seg".to_string(),
            cause: "permission denied".to_string()
        })
    );
    assert!(world.invoked.is_empty());
}

#[test]
fn a_failing_graph_engine_ends_the_build() {
    let mut world = World::new(&[]);
    world.exit_codes = [3, 0, 0];
    let mut req = request();
    req.decoy_paths = Some(strings(&["d.fa"]));
    world.present.insert("d.fa".to_string());
    let (o, directives) = build(req, &mut world);
    assert_eq!(
        directives.last().unwrap(),
        &Directive::Abort(BuildError::StageFailure { stage: Stage::Graph, exit_code: 3 })
    );
    assert_eq!(stages(&world), vec![Stage::Graph]);
    assert_eq!(o.phase(), Phase::Aborted);
    assert!(world.removed.is_empty());
}

#[test]
fn a_failing_index_engine_ends_the_build_and_leaves_the_graph() {
    let mut world = World::new(&["d.fa"]);
    world.exit_codes = [0, -11, 0];
    let mut req = request();
    req.decoy_paths = Some(strings(&["d.fa"]));
    let (_, directives) = build(req, &mut world);
    assert_eq!(
        directives.last().unwrap(),
        &Directive::Abort(BuildError::StageFailure { stage: Stage::Index, exit_code: -11 })
    );
    assert_eq!(stages(&world), vec![Stage::Graph, Stage::Index]);
    assert!(world.has("idx/out_cfish.cf_seg"));
    assert!(world.has("idx/out_cfish.cf_seq"));
    assert!(world.has("idx/out_cfish.json"));
    assert!(!world.has("idx/out_ver.json"));
}

#[test]
fn a_failing_poison_engine_ends_the_build() {
    let mut world = World::new(&["d.fa"]);
    world.exit_codes = [0, 0, 1];
    let mut req = request();
    req.decoy_paths = Some(strings(&["d.fa"]));
    let (_, directives) = build(req, &mut world);
    assert_eq!(
        directives.last().unwrap(),
        &Directive::Abort(BuildError::StageFailure { stage: Stage::Poison, exit_code: 1 })
    );
    assert_eq!(stages(&world), vec![Stage::Graph, Stage::Index, Stage::Poison]);
    assert!(world.removed.is_empty());
    assert!(!world.has("idx/out_ver.json"));
}

#[test]
fn decoys_add_the_poison_stage() {
    let mut world = World::new(&["d1.fa", "d2.fa"]);
    let mut req = request();
    req.decoy_paths = Some(strings(&["d1.fa", "d2.fa"]));
    let (o, directives) = build(req, &mut world);
    assert_eq!(directives[0], Directive::Probe("d1.fa".to_string()));
    assert_eq!(directives[1], Directive::Probe("d2.fa".to_string()));
    assert_eq!(directives[2], Directive::Probe("idx/out_cfish.json".to_string()));
    assert_eq!(stages(&world), vec![Stage::Graph, Stage::Index, Stage::Poison]);
    assert_eq!(
        world.invoked[2].1,
        strings(&["poison_table_builder", "-i", "idx/out", "-t", "4", "-d", "d1.fa,d2.fa"])
    );
    assert!(matches!(directives.last().unwrap(), Directive::Finish { .. }));
    assert_eq!(o.phase(), Phase::Done);
}

#[test]
fn a_missing_decoy_stops_the_build_before_anything_changes() {
    let mut world = World::new(&["d1.fa"]);
    let mut req = request();
    req.overwrite = true;
    req.decoy_paths = Some(strings(&["d1.fa", "d2.fa", "d3.fa"]));
    let (_, directives) = build(req, &mut world);
    assert_eq!(
        directives,
        vec![
            Directive::Probe("d1.fa".to_string()),
            Directive::Probe("d2.fa".to_string()),
            Directive::Abort(BuildError::Input { path: "d2.fa".to_string(), cause: None }),
        ]
    );
    assert_eq!(world.mutations(), 0);
    assert!(world.invoked.is_empty());
}

#[test]
fn a_decoy_that_cannot_be_looked_at_stops_the_build() {
    let mut world = World::new(&["d1.fa"]);
    world.unreadable.insert("d1.fa".to_string());
    let mut req = request();
    req.decoy_paths = Some(strings(&["d1.fa"]));
    let (_, directives) = build(req, &mut world);
    assert_eq!(
        directives.last().unwrap(),
        &Directive::Abort(BuildError::Input {
            path: "d1.fa".to_string(),
            cause: Some("permission denied".to_string())
        })
    );
    assert!(world.invoked.is_empty());
}

#[test]
fn references_in_no_form_stop_the_build_before_anything_changes() {
    let mut req = request();
    req.ref_seqs = vec![];
    req.overwrite = true;
    let mut world = World::new(&["idx/out_cfish.json"]);
    let (_, directives) = build(req, &mut world);
    assert_eq!(
        directives,
        vec![Directive::Abort(BuildError::Configuration(ConfigurationError::ReferenceInput))]
    );
    assert_eq!(world.mutations(), 0);
    assert!(world.has("idx/out_cfish.json"));
}

#[test]
fn a_segment_file_that_cannot_be_deleted_is_only_a_warning() {
    let mut world = World::new(&[]);
    world.locked.insert("idx/out_cfish.cf_seg".to_string());
    let (o, directives) = build(request(), &mut world);
    assert_eq!(
        directives.last().unwrap(),
        &Directive::Finish { version_manifest: "idx/out_ver.json".to_string() }
    );
    assert_eq!(o.phase(), Phase::Done);
    assert_eq!(
        o.warnings(),
        &vec![CleanupWarning {
            path: "idx/out_cfish.cf_seg".to_string(),
            cause: "permission denied".to_string()
        }]
    );
    assert!(world.has("idx/out_cfish.cf_seg"));
    assert!(!world.has("idx/out_cfish.cf_seq"));
    assert!(world.has("idx/out_ver.json"));
}

#[test]
fn both_intermediate_files_may_fail_to_go() {
    let mut world = World::new(&[]);
    world.locked.insert("idx/out_cfish.cf_seg".to_string());
    world.locked.insert("idx/out_cfish.cf_seq".to_string());
    let (o, directives) = build(request(), &mut world);
    assert!(matches!(directives.last().unwrap(), Directive::Finish { .. }));
    assert_eq!(o.warnings().len(), 2);
    assert_eq!(o.warnings()[0].path, "idx/out_cfish.cf_seg");
    assert_eq!(o.warnings()[1].path, "idx/out_cfish.cf_seq");
}

#[test]
fn intermediate_files_stay_when_asked_to() {
    let mut req = request();
    req.keep_intermediate = true;
    let mut world = World::new(&[]);
    let (_, directives) = build(req, &mut world);
    assert!(matches!(directives.last().unwrap(), Directive::Finish { .. }));
    assert!(world.removed.is_empty());
    assert!(world.has("idx/out_cfish.cf_seg"));
    assert!(world.has("idx/out_cfish.cf_seq"));
    assert!(world.has("idx/out_cfish.json"));
}

#[test]
fn the_structure_file_is_never_tidied_away() {
    let mut world = World::new(&[]);
    let (_, directives) = build(request(), &mut world);
    assert!(!directives.contains(&Directive::Remove("idx/out_cfish.json".to_string())));
}

#[test]
fn directories_that_exist_are_not_made() {
    let mut world = World::new(&["./workdir.noindex", "idx"]);
    let (_, directives) = build(request(), &mut world);
    assert!(world.created.is_empty());
    assert!(matches!(directives.last().unwrap(), Directive::Finish { .. }));
}

#[test]
fn a_work_dir_that_cannot_be_made_stops_the_build() {
    let mut world = World::new(&[]);
    world.locked.insert("./workdir.noindex".to_string());
    let (_, directives) = build(request(), &mut world);
    assert_eq!(
        directives.last().unwrap(),
        &Directive::Abort(BuildError::Filesystem {
            path: "./workdir.noindex".to_string(),
            cause: "read-only file system".to_string()
        })
    );
    assert!(world.invoked.is_empty());
}

#[test]
fn a_work_dir_that_cannot_be_looked_at_stops_the_build() {
    let mut world = World::new(&[]);
    world.unreadable.insert("./workdir.noindex".to_string());
    let (_, directives) = build(request(), &mut world);
    assert_eq!(
        directives.last().unwrap(),
        &Directive::Abort(BuildError::Filesystem {
            path: "./workdir.noindex".to_string(),
            cause: "permission denied".to_string()
        })
    );
    assert!(world.created.is_empty());
    assert!(world.invoked.is_empty());
}

#[test]
fn an_output_dir_that_cannot_be_made_stops_the_build() {
    let mut world = World::new(&[]);
    world.locked.insert("idx".to_string());
    let (_, directives) = build(request(), &mut world);
    assert_eq!(
        directives.last().unwrap(),
        &Directive::Abort(BuildError::Filesystem {
            path: "idx".to_string(),
            cause: "read-only file system".to_string()
        })
    );
    assert!(world.invoked.is_empty());
}

#[test]
fn an_output_dir_that_cannot_be_looked_at_is_made() {
    let mut world = World::new(&[]);
    world.unreadable.insert("idx".to_string());
    let (_, directives) = build(request(), &mut world);
    assert!(directives.contains(&Directive::CreateDirs("idx".to_string())));
    assert!(matches!(directives.last().unwrap(), Directive::Finish { .. }));
}

#[test]
fn a_prefix_without_directory_asks_for_none() {
    let mut req = request();
    req.output_prefix = "out".to_string();
    let mut o = Orchestrator::new(req, false, 8, None);
    let mut world = World::new(&[]);
    let directives = drive(&mut o, &mut world);
    assert_eq!(world.created, strings(&["./workdir.noindex"]));
    assert!(matches!(directives.last().unwrap(), Directive::Finish { .. }));
}

#[test]
fn signatures_are_written_for_sequence_files_only() {
    let mut req = request();
    req.ref_seqs = vec![];
    req.ref_dirs = strings(&["refs"]);
    let mut world = World::new(&[]);
    let (_, directives) = build(req, &mut world);
    assert!(world.signed.is_empty());
    assert!(matches!(directives.last().unwrap(), Directive::Finish { .. }));
    let mut world = World::new(&[]);
    let mut req = request();
    req.ref_seqs = strings(&["a.fa", "b.fa"]);
    build(req, &mut world);
    assert_eq!(world.signed, vec![(strings(&["a.fa", "b.fa"]), "idx/out.sigs".to_string())]);
}

#[test]
fn signatures_that_cannot_be_written_stop_the_build() {
    let mut world = World::new(&[]);
    world.signing_fails = true;
    let (_, directives) = build(request(), &mut world);
    assert_eq!(
        directives.last().unwrap(),
        &Directive::Abort(BuildError::Signature { cause: "invalid input path/file".to_string() })
    );
    assert!(world.invoked.is_empty());
    assert!(world.created.is_empty());
}

#[test]
fn a_token_with_nul_stops_the_build_before_anything_changes() {
    let mut req = request();
    req.work_dir = "work\0dir".to_string();
    req.overwrite = true;
    let mut world = World::new(&["idx/out_cfish.json"]);
    let (_, directives) = build(req, &mut world);
    assert_eq!(directives, vec![Directive::Abort(BuildError::Marshal { stage: Stage::Graph })]);
    assert!(world.invoked.is_empty());
    assert_eq!(world.mutations(), 0);
}

#[test]
fn a_decoy_with_nul_stops_the_build_before_the_first_engine() {
    let mut req = request();
    req.decoy_paths = Some(strings(&["d\0.fa"]));
    let mut world = World::new(&["d\0.fa"]);
    let (_, directives) = build(req, &mut world);
    assert_eq!(
        directives.last().unwrap(),
        &Directive::Abort(BuildError::Marshal { stage: Stage::Poison })
    );
    assert!(world.invoked.is_empty());
    assert_eq!(world.mutations(), 0);
}

#[test]
fn a_reference_with_nul_stops_the_build() {
    let mut req = request();
    req.ref_seqs = strings(&["a.fa", "b\0.fa"]);
    let mut world = World::new(&[]);
    let (o, directives) = build(req, &mut world);
    assert_eq!(directives, vec![Directive::Abort(BuildError::Marshal { stage: Stage::Graph })]);
    assert_eq!(o.phase(), Phase::Aborted);
}

#[test]
fn quiet_reaches_the_index_and_poison_engines() {
    let mut req = request();
    req.decoy_paths = Some(strings(&["d.fa"]));
    let mut o = Orchestrator::new(req, true, 8, Some("idx".to_string()));
    let mut world = World::new(&["d.fa"]);
    drive(&mut o, &mut world);
    assert!(!world.invoked[0].1.contains(&"--quiet".to_string()));
    assert_eq!(world.invoked[1].1.last().unwrap(), "--quiet");
    assert_eq!(world.invoked[2].1.last().unwrap(), "--quiet");
}

#[test]
fn phases_follow_the_stages() {
    let mut req = request();
    req.decoy_paths = Some(strings(&["d.fa"]));
    req.ref_seqs = vec![];
    req.ref_lists = strings(&["l.txt"]);
    let mut o = Orchestrator::new(req, false, 8, None);
    assert_eq!(o.phase(), Phase::Idle);
    assert_eq!(o.current(), Step::Idle);
    assert_eq!(o.step(Event::Start), Directive::Probe("d.fa".to_string()));
    assert_eq!(o.current(), Step::Decoy(0));
    assert_eq!(o.step(Event::Probed(Probe::Present)), Directive::Probe("idx/out_cfish.json".to_string()));
    assert_eq!(o.current(), Step::Conflict(GraphFile::Structure));
    assert_eq!(o.step(Event::Probed(Probe::Absent)), Directive::Probe("./workdir.noindex".to_string()));
    assert_eq!(o.current(), Step::WorkDirProbe);
    assert!(matches!(o.step(Event::Probed(Probe::Present)), Directive::Invoke { stage: Stage::Graph, .. }));
    assert_eq!(o.current(), Step::Engine(Stage::Graph));
    assert_eq!(o.phase(), Phase::Idle);
    assert!(matches!(o.step(Event::Exited(0)), Directive::Invoke { stage: Stage::Index, .. }));
    assert_eq!(o.phase(), Phase::GraphBuilt);
    assert!(matches!(o.step(Event::Exited(0)), Directive::Invoke { stage: Stage::Poison, .. }));
    assert_eq!(o.phase(), Phase::IndexBuilt);
    assert_eq!(o.step(Event::Exited(0)), Directive::Remove("idx/out_cfish.cf_seg".to_string()));
    assert_eq!(o.phase(), Phase::PoisonBuilt);
    assert_eq!(o.step(Event::Succeeded), Directive::Remove("idx/out_cfish.cf_seq".to_string()));
    assert_eq!(o.phase(), Phase::PoisonBuilt);
    assert!(!o.ended());
    assert_eq!(
        o.step(Event::Succeeded),
        Directive::Finish { version_manifest: "idx/out_ver.json".to_string() }
    );
    assert_eq!(o.phase(), Phase::Done);
    assert!(o.ended());
}

#[test]
fn without_decoys_the_tidying_up_follows_the_index() {
    let mut o = Orchestrator::new(request(), false, 8, None);
    let mut world = World::new(&["./workdir.noindex"]);
    let mut event = Event::Start;
    loop {
        let d = o.step(event);
        if let Directive::Remove(_) = d {
            break;
        }
        event = world.answer(&d).unwrap();
    }
    assert_eq!(o.current(), Step::CleanupSegment);
    assert_eq!(o.phase(), Phase::IndexBuilt);
}

#[test]
fn an_answer_out_of_turn_ends_the_build() {
    let mut o = Orchestrator::new(request(), false, 8, None);
    assert_eq!(o.step(Event::Exited(0)), Directive::Abort(BuildError::OutOfTurn));
    assert_eq!(o.phase(), Phase::Aborted);

    let mut o = Orchestrator::new(request(), false, 8, None);
    o.step(Event::Start);
    assert_eq!(o.step(Event::Start), Directive::Abort(BuildError::OutOfTurn));

    let mut o = Orchestrator::new(request(), false, 8, None);
    o.step(Event::Start);
    assert_eq!(o.step(Event::Succeeded), Directive::Abort(BuildError::OutOfTurn));
}

#[test]
fn a_build_that_has_ended_only_halts() {
    let mut world = World::new(&[]);
    let (mut o, _) = build(request(), &mut world);
    let invoked = world.invoked.len();
    for event in [
        Event::Start,
        Event::Exited(0),
        Event::Succeeded,
        Event::Failed("x".to_string()),
        Event::Probed(Probe::Present),
    ] {
        assert_eq!(o.step(event), Directive::Halt);
        assert_eq!(o.phase(), Phase::Done);
    }
    assert_eq!(world.invoked.len(), invoked);

    let mut req = request();
    req.threads = 0;
    let mut o = Orchestrator::new(req, false, 8, None);
    o.step(Event::Start);
    assert_eq!(o.step(Event::Start), Directive::Halt);
    assert_eq!(o.step(Event::Exited(0)), Directive::Halt);
    assert_eq!(o.phase(), Phase::Aborted);
}

#[test]
fn the_machine_at_hand_gives_cpus_and_output_dir() {
    let mut o = Orchestrator::on_this_machine(request(), false);
    let mut world = World::new(&[]);
    let mut req = request();
    req.threads = 1;
    let mut one = Orchestrator::on_this_machine(req, false);
    let directives = drive(&mut one, &mut world);
    assert!(matches!(directives.last().unwrap(), Directive::Finish { .. }));
    assert!(directives.contains(&Directive::Probe("idx".to_string())));
    assert!(!directives.contains(&Directive::Probe("idx/out_cfish".to_string())));
    let first = o.step(Event::Start);
    assert!(
        first == Directive::Probe("idx/out_cfish.json".to_string())
            || first == Directive::Abort(BuildError::Configuration(ConfigurationError::TooManyThreads))
    );
}

#[test]
fn the_machine_at_hand_has_fewer_cpus_than_usize_holds() {
    let mut req = request();
    req.threads = usize::MAX;
    let mut o = Orchestrator::on_this_machine(req, false);
    let first = o.step(Event::Start);
    assert!(
        first == Directive::Abort(BuildError::Configuration(ConfigurationError::TooManyThreads))
            || first == Directive::Probe("idx/out_cfish.json".to_string())
    );
}

#[test]
fn a_bare_prefix_on_the_machine_at_hand_has_an_empty_output_dir() {
    let mut req = request();
    req.output_prefix = "out".to_string();
    req.threads = 1;
    let mut o = Orchestrator::on_this_machine(req, false);
    let mut world = World::new(&[]);
    let directives = drive(&mut o, &mut world);
    assert!(directives.contains(&Directive::Probe("".to_string())));
    assert!(matches!(directives.last().unwrap(), Directive::Finish { .. }));
}

#[test]
fn a_build_is_over_after_a_bounded_number_of_events() {
    let mut req = request();
    req.overwrite = true;
    req.decoy_paths = Some(strings(&["d1.fa", "d2.fa"]));
    let mut world = World::new(&[
        "d1.fa",
        "d2.fa",
        "idx/out_cfish.json",
        "idx/out_cfish.cf_seg",
        "idx/out_cfish.cf_seq",
    ]);
    let (o, directives) = build(req, &mut world);
    assert!(o.ended());
    assert!(directives.len() <= 2 + 18);
    assert_eq!(directives.len(), 19);
}

#[test]
fn a_build_ends_well_whatever_the_request_leaves_open() {
    for overwrite in [false, true] {
        for build_ec_table in [false, true] {
            for quiet in [false, true] {
                for earlier_build in [false, true] {
                    for work_dir in ["./workdir.noindex", "tmp/w"] {
                        let mut req = request();
                        req.overwrite = overwrite;
                        req.build_ec_table = build_ec_table;
                        req.work_dir = work_dir.to_string();
                        let mut world = World::new(&["a.fa"]);
                        if earlier_build {
                            world.present.insert("idx/out_cfish.json".to_string());
                            world.present.insert("idx/out_cfish.cf_seg".to_string());
                            world.present.insert("idx/out_cfish.cf_seq".to_string());
                            world.present.insert("idx".to_string());
                        }
                        let mut o = Orchestrator::new(req, quiet, 4, Some("idx".to_string()));
                        let directives = drive(&mut o, &mut world);
                        assert_eq!(
                            directives.last().unwrap(),
                            &Directive::Finish { version_manifest: "idx/out_ver.json".to_string() }
                        );
                        assert_eq!(stages(&world), vec![Stage::Graph, Stage::Index]);
                        assert!(world.has("idx/out.sshash"));
                        assert!(world.has("idx/out.ctab"));
                        assert!(world.has("idx/out.refinfo"));
                        assert_eq!(world.has("idx/out.ectab"), build_ec_table);
                        assert!(world.has("idx/out_ver.json"));
                        assert!(world.has("idx/out_cfish.json"));
                        assert!(!world.has("idx/out_cfish.cf_seg"));
                        assert!(!world.has("idx/out_cfish.cf_seq"));
                        let n = directives.len();
                        assert_eq!(directives[n - 2], Directive::Remove("idx/out_cfish.cf_seq".to_string()));
                        assert_eq!(directives[n - 3], Directive::Remove("idx/out_cfish.cf_seg".to_string()));
                        if !overwrite {
                            assert!(!directives
                                .contains(&Directive::Remove("idx/out_cfish.json".to_string())));
                        }
                        assert_eq!(world.invoked[0].1[14], work_dir);
                        assert!(o.warnings().is_empty());
                    }
                }
            }
        }
    }
}
