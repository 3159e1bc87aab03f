use piscem::artifacts::{resolve, with_ending, Artifact, ArtifactSet};

const KINDS: [Artifact; 8] = [
    Artifact::Segment,
    Artifact::Sequence,
    Artifact::Structure,
    Artifact::Index,
    Artifact::ColorTable,
    Artifact::RefInfo,
    Artifact::EcTable,
    Artifact::VersionManifest,
];

#[test]
fn graph_files_carry_the_tag() {
    let set = resolve("idx/out");
    assert_eq!(set.graph_prefix, "idx/out_cfish");
    assert_eq!(set.segment, "idx/out_cfish.cf_seg");
    assert_eq!(set.sequence, "idx/out_cfish.cf_seq");
    assert_eq!(set.structure, "idx/out_cfish.json");
}

#[test]
fn index_files_stand_on_the_prefix() {
    let set = resolve("idx/out");
    assert_eq!(set.index, "idx/out.sshash");
    assert_eq!(set.color_table, "idx/out.ctab");
    assert_eq!(set.ref_info, "idx/out.refinfo");
    assert_eq!(set.ec_table, "idx/out.ectab");
    assert_eq!(set.version_manifest, "idx/out_ver.json");
}

#[test]
fn an_empty_prefix_leaves_the_endings() {
    let set = resolve("");
    assert_eq!(set.graph_prefix, "_cfish");
    assert_eq!(set.structure, "_cfish.json");
    assert_eq!(set.index, ".sshash");
}

#[test]
fn path_picks_the_field_of_its_kind() {
    let set = resolve("p");
    assert_eq!(set.path(Artifact::Segment), "p_cfish.cf_seg");
    assert_eq!(set.path(Artifact::Sequence), "p_cfish.cf_seq");
    assert_eq!(set.path(Artifact::Structure), "p_cfish.json");
    assert_eq!(set.path(Artifact::Index), "p.sshash");
    assert_eq!(set.path(Artifact::ColorTable), "p.ctab");
    assert_eq!(set.path(Artifact::RefInfo), "p.refinfo");
    assert_eq!(set.path(Artifact::EcTable), "p.ectab");
    assert_eq!(set.path(Artifact::VersionManifest), "p_ver.json");
}

#[test]
fn resolving_twice_gives_the_same_set() {
    let first: ArtifactSet = resolve("some/where/ref");
    let second: ArtifactSet = resolve("some/where/ref");
    assert_eq!(first, second);
}

#[test]
fn the_files_of_one_build_are_all_different() {
    let set = resolve("out");
    for (i, a) in KINDS.iter().enumerate() {
        for (j, b) in KINDS.iter().enumerate() {
            if i != j {
                assert_ne!(set.path(*a), set.path(*b));
            }
        }
    }
}

#[test]
fn different_prefixes_share_no_file() {
    let prefixes = ["a", "a_cfish", "a_ver", "a.json", "a_cfish.json", "a.sshash", "a.e", "a.c", ""];
    for p in prefixes {
        for q in prefixes {
            if p == q {
                continue;
            }
            let left = resolve(p);
            let right = resolve(q);
            for a in KINDS {
                for b in KINDS {
                    assert_ne!(left.path(a), right.path(b), "{:?} of {:?} and {:?} of {:?}", a, p, b, q);
                }
            }
        }
    }
}

#[test]
fn with_ending_appends() {
    assert_eq!(with_ending("idx/out", ".sigs"), "idx/out.sigs");
    assert_eq!(with_ending("", "x"), "x");
    assert_eq!(with_ending("x", ""), "x");
}
