//! Where a build puts its files.
//!
//! Every path is the output prefix with a fixed ending: the files of the
//! graph stage carry the tag `_cfish` before their own ending, the files of
//! the index stand directly on the prefix. Nothing here touches the file
//! system.

use vstd::prelude::*;

verus! {

/// One file of a build.
#[derive(Clone, Copy, Debug, PartialEq, Eq, Structural)]
pub enum Artifact {
    /// The segments of the compacted graph.
    Segment,
    /// The tiling of the references by segments.
    Sequence,
    /// The graph's structure file, its manifest.
    Structure,
    /// The primary index.
    Index,
    /// The colour table.
    ColorTable,
    /// The reference names and lengths.
    RefInfo,
    /// The equivalence-class table.
    EcTable,
    /// The versions of the components that built the index.
    VersionManifest,
}

/// What is appended to the output prefix to name the graph stage's output.
pub open spec fn graph_tag() -> Seq<char> {
    "_cfish"@
}

/// What is appended to the output prefix to get the path of `kind`.
pub open spec fn ending(kind: Artifact) -> Seq<char> {
    match kind {
        Artifact::Segment => graph_tag() + ".cf_seg"@,
        Artifact::Sequence => graph_tag() + ".cf_seq"@,
        Artifact::Structure => graph_tag() + ".json"@,
        Artifact::Index => ".sshash"@,
        Artifact::ColorTable => ".ctab"@,
        Artifact::RefInfo => ".refinfo"@,
        Artifact::EcTable => ".ectab"@,
        Artifact::VersionManifest => "_ver.json"@,
    }
}

/// The path of `kind` in the build with output prefix `prefix`.
pub open spec fn path_of(prefix: Seq<char>, kind: Artifact) -> Seq<char> {
    prefix + ending(kind)
}

/// The paths of one build.
#[derive(Debug, PartialEq, Eq)]
pub struct ArtifactSet {
    /// The prefix that the graph engine writes under.
    pub graph_prefix: String,
    pub segment: String,
    pub sequence: String,
    pub structure: String,
    pub index: String,
    pub color_table: String,
    pub ref_info: String,
    pub ec_table: String,
    pub version_manifest: String,
}

/// The paths of one build, as text.
pub struct ArtifactPaths {
    pub graph_prefix: Seq<char>,
    pub segment: Seq<char>,
    pub sequence: Seq<char>,
    pub structure: Seq<char>,
    pub index: Seq<char>,
    pub color_table: Seq<char>,
    pub ref_info: Seq<char>,
    pub ec_table: Seq<char>,
    pub version_manifest: Seq<char>,
}

impl View for ArtifactSet {
    type V = ArtifactPaths;

    open spec fn view(&self) -> ArtifactPaths {
        ArtifactPaths {
            graph_prefix: self.graph_prefix@,
            segment: self.segment@,
            sequence: self.sequence@,
            structure: self.structure@,
            index: self.index@,
            color_table: self.color_table@,
            ref_info: self.ref_info@,
            ec_table: self.ec_table@,
            version_manifest: self.version_manifest@,
        }
    }
}

impl ArtifactPaths {
    /// The path of `kind` in this set.
    pub open spec fn path(self, kind: Artifact) -> Seq<char> {
        match kind {
            Artifact::Segment => self.segment,
            Artifact::Sequence => self.sequence,
            Artifact::Structure => self.structure,
            Artifact::Index => self.index,
            Artifact::ColorTable => self.color_table,
            Artifact::RefInfo => self.ref_info,
            Artifact::EcTable => self.ec_table,
            Artifact::VersionManifest => self.version_manifest,
        }
    }
}

/// The paths of the build with output prefix `prefix`.
pub open spec fn artifacts_of(prefix: Seq<char>) -> ArtifactPaths {
    ArtifactPaths {
        graph_prefix: prefix + graph_tag(),
        segment: path_of(prefix, Artifact::Segment),
        sequence: path_of(prefix, Artifact::Sequence),
        structure: path_of(prefix, Artifact::Structure),
        index: path_of(prefix, Artifact::Index),
        color_table: path_of(prefix, Artifact::ColorTable),
        ref_info: path_of(prefix, Artifact::RefInfo),
        ec_table: path_of(prefix, Artifact::EcTable),
        version_manifest: path_of(prefix, Artifact::VersionManifest),
    }
}

/// `stem` with `tail` appended.
pub fn with_ending(stem: &str, tail: &str) -> (path: String)
    ensures
        path@ == stem@ + tail@,
{
    let mut path = stem.to_owned();
    path.append(tail);
    path
}

/// Derives every path of a build from its output prefix.
pub fn resolve(output_prefix: &str) -> (set: ArtifactSet)
    ensures
        set@ == artifacts_of(output_prefix@),
{
    let graph_prefix = with_ending(output_prefix, "_cfish");
    let segment = with_ending(graph_prefix.as_str(), ".cf_seg");
    let sequence = with_ending(graph_prefix.as_str(), ".cf_seq");
    let structure = with_ending(graph_prefix.as_str(), ".json");
    let set = ArtifactSet {
        segment,
        sequence,
        structure,
        index: with_ending(output_prefix, ".sshash"),
        color_table: with_ending(output_prefix, ".ctab"),
        ref_info: with_ending(output_prefix, ".refinfo"),
        ec_table: with_ending(output_prefix, ".ectab"),
        version_manifest: with_ending(output_prefix, "_ver.json"),
        graph_prefix,
    };
    proof {
        let p = output_prefix@;
        assert(p + graph_tag() + ".cf_seg"@ =~= p + (graph_tag() + ".cf_seg"@));
        assert(p + graph_tag() + ".cf_seq"@ =~= p + (graph_tag() + ".cf_seq"@));
        assert(p + graph_tag() + ".json"@ =~= p + (graph_tag() + ".json"@));
    }
    set
}

impl ArtifactSet {
    /// The path of `kind` in this set.
    pub fn path(&self, kind: Artifact) -> (p: &String)
        ensures
            p@ == self@.path(kind),
    {
        match kind {
            Artifact::Segment => &self.segment,
            Artifact::Sequence => &self.sequence,
            Artifact::Structure => &self.structure,
            Artifact::Index => &self.index,
            Artifact::ColorTable => &self.color_table,
            Artifact::RefInfo => &self.ref_info,
            Artifact::EcTable => &self.ec_table,
            Artifact::VersionManifest => &self.version_manifest,
        }
    }
}

/// Two texts that agree after something was put in front of each agree on
/// their last characters, as far as both reach.
proof fn lemma_common_tail(a: Seq<char>, s: Seq<char>, b: Seq<char>, t: Seq<char>, k: int)
    requires
        a + s == b + t,
        0 <= k < s.len(),
        k < t.len(),
    ensures
        s[s.len() - 1 - k] == t[t.len() - 1 - k],
{
    let whole = a + s;
    assert(whole[whole.len() - 1 - k] == s[s.len() - 1 - k]);
    assert((b + t)[(b + t).len() - 1 - k] == t[t.len() - 1 - k]);
}

/// Taking the same ending off two equal texts leaves equal texts.
proof fn lemma_same_ending(a: Seq<char>, b: Seq<char>, s: Seq<char>)
    requires
        a + s == b + s,
    ensures
        a == b,
{
    assert((a + s).len() == (b + s).len());
    assert(a =~= (a + s).take(a.len() as int));
    assert(b =~= (b + s).take(b.len() as int));
}

/// No two endings are the same, and none ends with another.
proof fn lemma_endings_differ(kind: Artifact, other: Artifact)
    requires
        kind != other,
    ensures
        ({
            let s = ending(kind);
            let t = ending(other);
            &&& s.len() >= 5
            &&& t.len() >= 5
            &&& (s[s.len() - 1] != t[t.len() - 1] || s[s.len() - 5] != t[t.len() - 5] || (s.len()
                >= 6 && t.len() >= 6 && s[s.len() - 6] != t[t.len() - 6]))
        }),
{
    reveal_strlit("_cfish");
    reveal_strlit(".cf_seg");
    reveal_strlit(".cf_seq");
    reveal_strlit(".json");
    reveal_strlit(".sshash");
    reveal_strlit(".ctab");
    reveal_strlit(".refinfo");
    reveal_strlit(".ectab");
    reveal_strlit("_ver.json");
}

/// Paths never collide: two artifacts have the same path only if they are
/// the same kind of file of builds with the same output prefix. So the
/// files of one build are all different, and builds with different prefixes
/// share no file.
pub proof fn law_paths_never_collide(
    prefix: Seq<char>,
    kind: Artifact,
    other_prefix: Seq<char>,
    other_kind: Artifact,
)
    requires
        path_of(prefix, kind) == path_of(other_prefix, other_kind),
    ensures
        prefix == other_prefix,
        kind == other_kind,
{
    if kind != other_kind {
        let s = ending(kind);
        let t = ending(other_kind);
        lemma_endings_differ(kind, other_kind);
        lemma_common_tail(prefix, s, other_prefix, t, 0);
        lemma_common_tail(prefix, s, other_prefix, t, 4);
        if s.len() >= 6 && t.len() >= 6 {
            lemma_common_tail(prefix, s, other_prefix, t, 5);
        }
    }
    lemma_same_ending(prefix, other_prefix, ending(kind));
}

/// Resolving is a function of the prefix alone, and different prefixes give
/// sets that have no path in common.
pub proof fn law_resolve_is_injective(
    prefix: Seq<char>,
    other_prefix: Seq<char>,
    kind: Artifact,
    other_kind: Artifact,
)
    ensures
        prefix == other_prefix ==> artifacts_of(prefix) == artifacts_of(other_prefix),
        prefix != other_prefix ==> artifacts_of(prefix).path(kind) != artifacts_of(
            other_prefix,
        ).path(other_kind),
        kind != other_kind ==> artifacts_of(prefix).path(kind) != artifacts_of(prefix).path(
            other_kind,
        ),
{
    if artifacts_of(prefix).path(kind) == artifacts_of(other_prefix).path(other_kind) {
        law_paths_never_collide(prefix, kind, other_prefix, other_kind);
    }
    if artifacts_of(prefix).path(kind) == artifacts_of(prefix).path(other_kind) {
        law_paths_never_collide(prefix, kind, prefix, other_kind);
    }
}

} // verus!
