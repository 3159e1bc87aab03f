//! The command lines of the read mappers, and the look at the index that
//! comes before them.

use crate::argv::{
    all_marshalable, marshalable, push_list, push_number, push_pair, push_switch, push_token,
    switch,
};
use crate::error::ConfigurationError;
use crate::platform::{
    extension_of, logical_cpus, path_extension, path_with_extension, with_extension,
};
use crate::text::{decimal, join, joined, to_decimal};
use vstd::prelude::*;

verus! {

/// The largest equivalence class that is looked at, unless told otherwise.
pub const MAX_EC_CARD: u32 = 4096;

/// How often a k-mer may occur to count in the first pass, unless told
/// otherwise.
pub const MAX_HIT_OCC: u32 = 256;

/// How often a k-mer may occur to count in the second pass, unless told
/// otherwise.
pub const MAX_HIT_OCC_RECOVER: u32 = 1024;

/// How many mappings a read may have and still be reported, unless told
/// otherwise.
pub const MAX_READ_OCC: u32 = 2500;

/// The size of a virtual colour, unless told otherwise.
pub const BIN_SIZE: u32 = 1000;

/// The overlap of neighbouring bins, unless told otherwise.
pub const BIN_OVERLAP: u32 = 300;

/// The length of a barcode, unless told otherwise.
pub const BCLEN: u16 = 16;

/// The capacity of the cache for k-mers at unitig ends, unless told
/// otherwise.
pub const END_CACHE_CAPACITY: usize = 5_000_000;

/// Why reads cannot be mapped as asked.
#[derive(Clone, Copy, Debug, PartialEq, Eq, Structural)]
pub enum MapError {
    /// The index prefix names a file that exists. It should be the stem that
    /// the index files share, without an extension.
    ExistingIndexFile,
    /// A file of the index is missing: the one at this place in the list of
    /// required files.
    MissingIndexFile(usize),
    /// A token of the command line holds a NUL character.
    Marshal,
}

/// Produces the command line of a mapper from its filled-in options: the
/// tokens in the mapper's order, the mapper's name first. The options also
/// say which index the mapper reads and whether it reads the
/// equivalence-class table of that index.
pub trait AsArgv {
    /// The command line that these options stand for.
    spec fn tokens(&self) -> Seq<Seq<char>>;

    /// The prefix of the index that the mapper reads.
    spec fn index_prefix(&self) -> Seq<char>;

    /// Whether the mapper reads the equivalence-class table of the index.
    spec fn wants_ec_table(&self) -> bool;

    /// Builds the command line. There is none where a token holds a NUL
    /// character.
    fn as_argv(&self) -> (r: Result<Vec<String>, MapError>)
        ensures
            marshalable(self.tokens()) ==> (r matches Ok(argv) && argv.deep_view()
                == self.tokens()),
            !marshalable(self.tokens()) ==> r == Err::<Vec<String>, MapError>(MapError::Marshal),
    ;

    /// The prefix of the index that the mapper reads.
    fn index(&self) -> (prefix: &str)
        ensures
            prefix@ == self.index_prefix(),
    ;

    /// Whether the mapper needs the equivalence-class table of the index.
    fn needs_ec_table(&self) -> (needed: bool)
        ensures
            needed == self.wants_ec_table(),
    ;
}

/// The path on which index files are found by replacing the extension:
/// `base` itself where it has no extension, `base` with the placeholder
/// extension `dummy` where it has one.
pub open spec fn stem_of(base: Seq<char>, has_extension: bool) -> Seq<char> {
    if has_extension {
        base + ".dummy"@
    } else {
        base
    }
}

/// The stem for an index prefix `base`, given whether `base` has an
/// extension.
pub fn index_stem(base: &str, has_extension: bool) -> (stem: String)
    ensures
        stem@ == stem_of(base@, has_extension),
{
    let mut stem = base.to_owned();
    if has_extension {
        stem.append(".dummy");
    }
    stem
}

/// Turns an index prefix into the path from which the index files are
/// named. `base_exists` says whether something exists at `base` itself: an
/// index prefix that names an existing file is refused.
pub fn get_index_path(base: &str, base_exists: bool) -> (r: Result<String, MapError>)
    ensures
        base_exists ==> r == Err::<String, MapError>(MapError::ExistingIndexFile),
        !base_exists ==> (r matches Ok(stem) && stem@ == stem_of(
            base@,
            path_extension(base@) is Some,
        )),
{
    if base_exists {
        return Err(MapError::ExistingIndexFile);
    }
    let extension = extension_of(base);
    Ok(index_stem(base, extension.is_some()))
}

/// The extensions of the index files that a mapper needs: the
/// equivalence-class table only where asked for.
pub open spec fn index_extensions(with_ec_table: bool) -> Seq<Seq<char>> {
    seq!["sshash"@, "ctab"@, "refinfo"@] + switch(with_ec_table, "ectab"@)
}

/// The extensions of the index files that a mapper needs.
pub fn required_extensions(with_ec_table: bool) -> (list: Vec<&'static str>)
    ensures
        list@.map_values(|s: &'static str| s@) == index_extensions(with_ec_table),
{
    let mut list: Vec<&'static str> = Vec::new();
    list.push("sshash");
    list.push("ctab");
    list.push("refinfo");
    if with_ec_table {
        list.push("ectab");
    }
    assert(list@.map_values(|s: &'static str| s@) =~= index_extensions(with_ec_table));
    list
}

/// Whether `extension` holds no path separator.
pub open spec fn plain(extension: Seq<char>) -> bool {
    !extension.contains('/') && !extension.contains('\\')
}

/// None of the extensions of the index files holds a path separator.
proof fn lemma_index_extensions_are_plain(with_ec_table: bool)
    ensures
        forall|i: int|
            0 <= i < index_extensions(with_ec_table).len() ==> plain(
                #[trigger] index_extensions(with_ec_table)[i],
            ),
{
    reveal_strlit("sshash");
    reveal_strlit("ctab");
    reveal_strlit("refinfo");
    reveal_strlit("ectab");
    assert(plain("sshash"@));
    assert(plain("ctab"@));
    assert(plain("refinfo"@));
    assert(plain("ectab"@));
}

/// The index files that a mapper needs: `stem` with its extension replaced
/// by each of the [`index_extensions`], in their order.
pub open spec fn index_files(stem: Seq<char>, with_ec_table: bool) -> Seq<Seq<char>> {
    index_extensions(with_ec_table).map_values(
        |extension: Seq<char>| path_with_extension(stem, extension),
    )
}

/// Names the index files that a mapper needs from `stem`.
pub fn required_index_files(stem: &str, with_ec_table: bool) -> (files: Vec<String>)
    ensures
        files.deep_view() == index_files(stem@, with_ec_table),
{
    let extensions = required_extensions(with_ec_table);
    let ghost wanted = index_extensions(with_ec_table);
    assert(extensions@.len() == wanted.len());
    proof {
        lemma_index_extensions_are_plain(with_ec_table);
    }
    let mut files: Vec<String> = Vec::new();
    let mut i: usize = 0;
    while i < extensions.len()
        invariant
            i <= extensions.len(),
            files.len() == i,
            extensions@.map_values(|s: &'static str| s@) == wanted,
            forall|j: int| 0 <= j < wanted.len() ==> plain(#[trigger] wanted[j]),
            forall|j: int| 0 <= j < i ==> files[j]@ == path_with_extension(stem@, wanted[j]),
        decreases extensions.len() - i,
    {
        assert(extensions@.map_values(|s: &'static str| s@)[i as int] == extensions[i as int]@);
        assert(plain(wanted[i as int]));
        files.push(with_extension(stem, extensions[i]));
        i += 1;
    }
    assert(files.deep_view() =~= index_files(stem@, with_ec_table));
    files
}

/// The index files that the mapper of `opts` needs, named from the prefix
/// of its index.
pub open spec fn required_files<T: AsArgv>(opts: &T) -> Seq<Seq<char>> {
    index_files(
        stem_of(opts.index_prefix(), path_extension(opts.index_prefix()) is Some),
        opts.wants_ec_table(),
    )
}

/// Names the index files that the mapper of `opts` needs, so that they can
/// be looked for: from the path that [`get_index_path`] gives for its index
/// prefix where nothing exists at the prefix itself.
pub fn files_to_look_for<T: AsArgv>(opts: &T) -> (files: Vec<String>)
    ensures
        files.deep_view() == required_files(opts),
{
    match get_index_path(opts.index(), false) {
        Ok(stem) => required_index_files(stem.as_str(), opts.needs_ec_table()),
        Err(_) => Vec::new(),
    }
}

/// Whether the file at place `k` is reported as there. A file of which
/// nothing is reported counts as missing.
pub open spec fn reported(present: Seq<bool>, k: int) -> bool {
    0 <= k < present.len() && present[k]
}

/// The place of the first of `count` files, from the one at `from` on, that
/// is not reported as there.
pub open spec fn first_missing(present: Seq<bool>, count: nat, from: nat) -> Option<nat>
    decreases count - from,
{
    if from >= count {
        None
    } else if !reported(present, from as int) {
        Some(from)
    } else {
        first_missing(present, count, from + 1)
    }
}

/// What stands against mapping with an index: that its prefix names an
/// existing file, or else the first of its `count` files that is missing.
pub open spec fn index_verdict(index_exists: bool, present: Seq<bool>, count: nat) -> Option<
    MapError,
> {
    if index_exists {
        Some(MapError::ExistingIndexFile)
    } else {
        match first_missing(present, count, 0) {
            Some(k) => Some(MapError::MissingIndexFile(k as usize)),
            None => None,
        }
    }
}

/// Nothing stands against mapping with an index exactly if its prefix names
/// no existing file and each of its files is reported as there.
pub proof fn law_index_must_be_whole(index_exists: bool, present: Seq<bool>, count: nat)
    ensures
        index_verdict(index_exists, present, count) is None <==> !index_exists && forall|k: int|
            0 <= k < count ==> reported(present, k),
{
    lemma_none_missing(present, count, 0);
}

/// No file from `from` on is missing exactly if each is reported as there.
proof fn lemma_none_missing(present: Seq<bool>, count: nat, from: nat)
    ensures
        first_missing(present, count, from) is None <==> forall|k: int|
            from <= k < count ==> reported(present, k),
        first_missing(present, count, from) matches Some(k) ==> from <= k < count,
    decreases count - from,
{
    if from < count {
        lemma_none_missing(present, count, from + 1);
        if first_missing(present, count, from) is None {
            assert forall|k: int| from <= k < count implies reported(present, k) by {
                if k > from {
                    assert(reported(present, k));
                }
            }
        }
    }
}

/// Builds the command line of a mapper, if its index can be used.
/// `index_exists` says whether something exists at the index prefix itself,
/// `present` whether each of the files of [`files_to_look_for`] is there, in
/// their order. An index prefix that names an existing file is refused, then
/// the first missing file is reported, and only a whole index gives what
/// [`AsArgv::as_argv`] gives.
pub fn mapping_argv<T: AsArgv>(opts: &T, index_exists: bool, present: &Vec<bool>) -> (r: Result<
    Vec<String>,
    MapError,
>)
    ensures
        match index_verdict(
            index_exists,
            present@,
            index_extensions(opts.wants_ec_table()).len(),
        ) {
            Some(e) => r == Err::<Vec<String>, MapError>(e),
            None => {
                &&& marshalable(opts.tokens()) ==> (r matches Ok(argv) && argv.deep_view()
                    == opts.tokens())
                &&& !marshalable(opts.tokens()) ==> r == Err::<Vec<String>, MapError>(
                    MapError::Marshal,
                )
            },
        },
        r is Ok <==> !index_exists && marshalable(opts.tokens()) && forall|k: int|
            0 <= k < index_extensions(opts.wants_ec_table()).len() ==> reported(present@, k),
{
    let count: usize = if opts.needs_ec_table() {
        4
    } else {
        3
    };
    let ghost wanted = index_extensions(opts.wants_ec_table()).len();
    assert(wanted == count);
    proof {
        law_index_must_be_whole(index_exists, present@, wanted);
    }
    if index_exists {
        return Err(MapError::ExistingIndexFile);
    }
    let mut k: usize = 0;
    while k < count
        invariant
            k <= count,
            count == wanted,
            count <= 4,
            !index_exists,
            wanted == index_extensions(opts.wants_ec_table()).len(),
            first_missing(present@, wanted, 0) == first_missing(present@, wanted, k as nat),
        decreases count - k,
    {
        if k >= present.len() || !present[k] {
            proof {
                law_index_must_be_whole(index_exists, present@, wanted);
            }
            return Err(MapError::MissingIndexFile(k));
        }
        k += 1;
    }
    opts.as_argv()
}

/// Checks the thread count of a mapping run against the machine.
pub fn check_threads(threads: usize, ncpus: usize) -> (r: Result<(), ConfigurationError>)
    ensures
        threads == 0 ==> r == Err::<(), ConfigurationError>(
            ConfigurationError::NonPositiveThreads,
        ),
        threads > ncpus && threads != 0 ==> r == Err::<(), ConfigurationError>(
            ConfigurationError::TooManyThreads,
        ),
        1 <= threads <= ncpus ==> r is Ok,
{
    if threads == 0 {
        Err(ConfigurationError::NonPositiveThreads)
    } else if threads > ncpus {
        Err(ConfigurationError::TooManyThreads)
    } else {
        Ok(())
    }
}

/// Checks the thread count of a mapping run against the machine that this
/// runs on. The logical CPUs that the machine reported come back with the
/// verdict.
pub fn check_threads_here(threads: usize) -> (r: (usize, Result<(), ConfigurationError>))
    ensures
        r.0 >= 1,
        threads == 0 ==> r.1 == Err::<(), ConfigurationError>(
            ConfigurationError::NonPositiveThreads,
        ),
        threads > r.0 ==> r.1 == Err::<(), ConfigurationError>(ConfigurationError::TooManyThreads),
        1 <= threads <= r.0 ==> r.1 is Ok,
{
    let ncpus = logical_cpus();
    (ncpus, check_threads(threads, ncpus))
}

/// How ambiguous hits are treated: they are ignored, or equivalence classes
/// up to a size are looked at.
pub open spec fn ambiguity_tokens(ignore_ambig_hits: bool, max_ec_card: u32) -> Seq<Seq<char>> {
    if ignore_ambig_hits {
        seq!["--ignore-ambig-hits"@]
    } else {
        seq!["--max-ec-card"@, decimal(max_ec_card as nat)]
    }
}

/// The three occurrence limits with their flags.
pub open spec fn occurrence_tokens(
    max_hit_occ: u32,
    max_hit_occ_recover: u32,
    max_read_occ: u32,
) -> Seq<Seq<char>> {
    seq![
        "--max-hit-occ"@,
        decimal(max_hit_occ as nat),
        "--max-hit-occ-recover"@,
        decimal(max_hit_occ_recover as nat),
        "--max-read-occ"@,
        decimal(max_read_occ as nat),
    ]
}

/// The read files with their flags: unpaired reads where there are any,
/// else the two mates where both are given, else nothing.
pub open spec fn read_tokens(
    reads: Option<Vec<String>>,
    read1: Option<Vec<String>>,
    read2: Option<Vec<String>>,
) -> Seq<Seq<char>> {
    match (reads, read1, read2) {
        (Some(r), _, _) => seq!["-r"@, joined(r.deep_view(), ","@)],
        (None, Some(r1), Some(r2)) => seq![
            "-1"@,
            joined(r1.deep_view(), ","@),
            "-2"@,
            joined(r2.deep_view(), ","@),
        ],
        _ => Seq::empty(),
    }
}

fn push_ambiguity(argv: &mut Vec<String>, ignore_ambig_hits: bool, max_ec_card: u32)
    ensures
        final(argv).deep_view() == old(argv).deep_view() + ambiguity_tokens(
            ignore_ambig_hits,
            max_ec_card,
        ),
{
    if ignore_ambig_hits {
        push_token(argv, "--ignore-ambig-hits");
        assert(argv.deep_view() =~= old(argv).deep_view() + seq!["--ignore-ambig-hits"@]);
    } else {
        push_number(argv, "--max-ec-card", max_ec_card as u64);
    }
}

fn push_occurrences(
    argv: &mut Vec<String>,
    max_hit_occ: u32,
    max_hit_occ_recover: u32,
    max_read_occ: u32,
)
    ensures
        final(argv).deep_view() == old(argv).deep_view() + occurrence_tokens(
            max_hit_occ,
            max_hit_occ_recover,
            max_read_occ,
        ),
{
    push_number(argv, "--max-hit-occ", max_hit_occ as u64);
    push_number(argv, "--max-hit-occ-recover", max_hit_occ_recover as u64);
    push_number(argv, "--max-read-occ", max_read_occ as u64);
    assert(argv.deep_view() =~= old(argv).deep_view() + occurrence_tokens(
        max_hit_occ,
        max_hit_occ_recover,
        max_read_occ,
    ));
}

fn push_reads(
    argv: &mut Vec<String>,
    reads: &Option<Vec<String>>,
    read1: &Option<Vec<String>>,
    read2: &Option<Vec<String>>,
)
    ensures
        final(argv).deep_view() == old(argv).deep_view() + read_tokens(*reads, *read1, *read2),
{
    if let Some(r) = reads {
        push_list(argv, "-r", r);
    } else if let (Some(r1), Some(r2)) = (read1, read2) {
        push_list(argv, "-1", r1);
        push_list(argv, "-2", r2);
        assert(argv.deep_view() =~= old(argv).deep_view() + read_tokens(*reads, *read1, *read2));
    } else {
        assert(argv.deep_view() =~= old(argv).deep_view() + read_tokens(*reads, *read1, *read2));
    }
}

/// Hands `argv` on if it can be marshaled.
fn checked(argv: Vec<String>) -> (r: Result<Vec<String>, MapError>)
    ensures
        marshalable(argv.deep_view()) ==> r == Ok::<Vec<String>, MapError>(argv),
        !marshalable(argv.deep_view()) ==> r == Err::<Vec<String>, MapError>(MapError::Marshal),
{
    if all_marshalable(&argv) {
        Ok(argv)
    } else {
        Err(MapError::Marshal)
    }
}

/// What the single-cell mapper is asked to do.
#[derive(Debug, PartialEq, Eq)]
pub struct MapSCOpts {
    /// The index prefix.
    pub index: String,
    /// The geometry of barcode, UMI and read.
    pub geometry: String,
    /// Files of first mates.
    pub read1: Vec<String>,
    /// Files of second mates.
    pub read2: Vec<String>,
    /// How many threads the mapper may use.
    pub threads: usize,
    /// The output directory.
    pub output: String,
    /// Whether poison k-mers are left out of account.
    pub no_poison: bool,
    /// Whether structural constraints apply.
    pub struct_constraints: bool,
    /// How k-mers are skipped: `permissive` or `strict`.
    pub skipping_strategy: String,
    /// Whether k-mers that are too ambiguous are ignored.
    pub ignore_ambig_hits: bool,
    /// The largest equivalence class that is looked at.
    pub max_ec_card: u32,
    /// How often a k-mer may occur to count in the first pass.
    pub max_hit_occ: u32,
    /// How often a k-mer may occur to count in the second pass.
    pub max_hit_occ_recover: u32,
    /// How many mappings a read may have and still be reported.
    pub max_read_occ: u32,
}

impl AsArgv for MapSCOpts {
    open spec fn index_prefix(&self) -> Seq<char> {
        self.index@
    }

    open spec fn wants_ec_table(&self) -> bool {
        !self.ignore_ambig_hits
    }

    fn index(&self) -> (prefix: &str) {
        self.index.as_str()
    }

    fn needs_ec_table(&self) -> (needed: bool) {
        !self.ignore_ambig_hits
    }

    open spec fn tokens(&self) -> Seq<Seq<char>> {
        seq![
            "sc_ref_mapper"@,
            "-i"@,
            self.index@,
            "-g"@,
            self.geometry@,
            "-1"@,
            joined(self.read1.deep_view(), ","@),
            "-2"@,
            joined(self.read2.deep_view(), ","@),
            "-t"@,
            decimal(self.threads as nat),
            "-o"@,
            self.output@,
        ] + ambiguity_tokens(self.ignore_ambig_hits, self.max_ec_card) + switch(
            self.no_poison,
            "--no-poison"@,
        ) + seq!["--skipping-strategy"@, self.skipping_strategy@] + switch(
            self.struct_constraints,
            "--struct-constraints"@,
        ) + occurrence_tokens(self.max_hit_occ, self.max_hit_occ_recover, self.max_read_occ)
    }

    fn as_argv(&self) -> (r: Result<Vec<String>, MapError>) {
        let mut argv: Vec<String> = Vec::new();
        assert(argv.deep_view() =~= Seq::<Seq<char>>::empty());
        push_token(&mut argv, "sc_ref_mapper");
        push_pair(&mut argv, "-i", self.index.as_str());
        push_pair(&mut argv, "-g", self.geometry.as_str());
        push_list(&mut argv, "-1", &self.read1);
        push_list(&mut argv, "-2", &self.read2);
        push_number(&mut argv, "-t", self.threads as u64);
        push_pair(&mut argv, "-o", self.output.as_str());
        assert(argv.deep_view() =~= seq![
            "sc_ref_mapper"@,
            "-i"@,
            self.index@,
            "-g"@,
            self.geometry@,
            "-1"@,
            joined(self.read1.deep_view(), ","@),
            "-2"@,
            joined(self.read2.deep_view(), ","@),
            "-t"@,
            decimal(self.threads as nat),
            "-o"@,
            self.output@,
        ]);
        push_ambiguity(&mut argv, self.ignore_ambig_hits, self.max_ec_card);
        push_switch(&mut argv, self.no_poison, "--no-poison");
        push_pair(&mut argv, "--skipping-strategy", self.skipping_strategy.as_str());
        push_switch(&mut argv, self.struct_constraints, "--struct-constraints");
        push_occurrences(&mut argv, self.max_hit_occ, self.max_hit_occ_recover, self.max_read_occ);
        checked(argv)
    }
}

/// What the bulk mapper is asked to do.
#[derive(Debug, PartialEq, Eq)]
pub struct MapBulkOpts {
    /// The index prefix.
    pub index: String,
    /// Files of first mates.
    pub read1: Option<Vec<String>>,
    /// Files of second mates.
    pub read2: Option<Vec<String>>,
    /// Files of unpaired reads.
    pub reads: Option<Vec<String>>,
    /// How many threads the mapper may use.
    pub threads: usize,
    /// The output directory.
    pub output: String,
    /// Whether poison k-mers are left out of account.
    pub no_poison: bool,
    /// Whether structural constraints apply.
    pub struct_constraints: bool,
    /// How k-mers are skipped: `permissive` or `strict`.
    pub skipping_strategy: String,
    /// Whether k-mers that are too ambiguous are ignored.
    pub ignore_ambig_hits: bool,
    /// The largest equivalence class that is looked at.
    pub max_ec_card: u32,
    /// How often a k-mer may occur to count in the first pass.
    pub max_hit_occ: u32,
    /// How often a k-mer may occur to count in the second pass.
    pub max_hit_occ_recover: u32,
    /// How many mappings a read may have and still be reported.
    pub max_read_occ: u32,
}

impl AsArgv for MapBulkOpts {
    open spec fn index_prefix(&self) -> Seq<char> {
        self.index@
    }

    open spec fn wants_ec_table(&self) -> bool {
        !self.ignore_ambig_hits
    }

    fn index(&self) -> (prefix: &str) {
        self.index.as_str()
    }

    fn needs_ec_table(&self) -> (needed: bool) {
        !self.ignore_ambig_hits
    }

    open spec fn tokens(&self) -> Seq<Seq<char>> {
        seq![
            "bulk_ref_mapper"@,
            "-i"@,
            self.index@,
            "-t"@,
            decimal(self.threads as nat),
            "-o"@,
            self.output@,
        ] + read_tokens(self.reads, self.read1, self.read2) + ambiguity_tokens(
            self.ignore_ambig_hits,
            self.max_ec_card,
        ) + switch(self.no_poison, "--no-poison"@) + seq![
            "--skipping-strategy"@,
            self.skipping_strategy@,
        ] + switch(self.struct_constraints, "--struct-constraints"@) + occurrence_tokens(
            self.max_hit_occ,
            self.max_hit_occ_recover,
            self.max_read_occ,
        )
    }

    fn as_argv(&self) -> (r: Result<Vec<String>, MapError>) {
        let mut argv: Vec<String> = Vec::new();
        assert(argv.deep_view() =~= Seq::<Seq<char>>::empty());
        push_token(&mut argv, "bulk_ref_mapper");
        push_pair(&mut argv, "-i", self.index.as_str());
        push_number(&mut argv, "-t", self.threads as u64);
        push_pair(&mut argv, "-o", self.output.as_str());
        assert(argv.deep_view() =~= seq![
            "bulk_ref_mapper"@,
            "-i"@,
            self.index@,
            "-t"@,
            decimal(self.threads as nat),
            "-o"@,
            self.output@,
        ]);
        push_reads(&mut argv, &self.reads, &self.read1, &self.read2);
        push_ambiguity(&mut argv, self.ignore_ambig_hits, self.max_ec_card);
        push_switch(&mut argv, self.no_poison, "--no-poison");
        push_pair(&mut argv, "--skipping-strategy", self.skipping_strategy.as_str());
        push_switch(&mut argv, self.struct_constraints, "--struct-constraints");
        push_occurrences(&mut argv, self.max_hit_occ, self.max_hit_occ_recover, self.max_read_occ);
        checked(argv)
    }
}

/// What the single-cell ATAC mapper is asked to do.
#[derive(Debug, PartialEq, Eq)]
pub struct MapSCAtacOpts {
    /// The index prefix.
    pub index: String,
    /// Files of first mates.
    pub read1: Option<Vec<String>>,
    /// Files of second mates.
    pub read2: Option<Vec<String>>,
    /// Files of unpaired reads.
    pub reads: Option<Vec<String>>,
    /// Files of barcodes.
    pub barcode: Vec<String>,
    /// How many threads the mapper may use.
    pub threads: usize,
    /// The output directory.
    pub output: String,
    /// Whether k-mers that are too ambiguous are ignored. The mapper is not
    /// told.
    pub ignore_ambig_hits: bool,
    /// Whether poison k-mers are left out of account.
    pub no_poison: bool,
    /// Whether structural constraints apply.
    pub struct_constraints: bool,
    /// How k-mers are skipped: `permissive` or `strict`.
    pub skipping_strategy: String,
    /// Whether mappings are written in SAM format.
    pub sam_format: bool,
    /// Whether mappings are written in BED format.
    pub bed_format: bool,
    /// Whether chromosomes are the colours.
    pub use_chr: bool,
    /// The threshold of the pseudoalignment, as the mapper is to read it.
    pub thr: String,
    /// The size of a virtual colour.
    pub bin_size: u32,
    /// The overlap of neighbouring bins.
    pub bin_overlap: u32,
    /// Whether the Tn5 shift is left off the mapped positions.
    pub no_tn5_shift: bool,
    /// Whether a pair stays unmapped where the unmapped mate has a mapping
    /// k-mer.
    pub check_kmer_orphan: bool,
    /// The largest equivalence class that is looked at. The mapper is not
    /// told.
    pub max_ec_card: u32,
    /// How often a k-mer may occur to count in the first pass. The mapper is
    /// not told.
    pub max_hit_occ: u32,
    /// How often a k-mer may occur to count in the second pass. The mapper
    /// is not told.
    pub max_hit_occ_recover: u32,
    /// How many mappings a read may have and still be reported. The mapper
    /// is not told.
    pub max_read_occ: u32,
    /// The length of a barcode.
    pub bclen: u16,
    /// The capacity of the cache for k-mers at unitig ends.
    pub end_cache_capacity: usize,
}

/// The output formats and orphan handling of the ATAC mapper, each a switch.
pub open spec fn format_tokens(
    bed_format: bool,
    use_chr: bool,
    sam_format: bool,
    check_kmer_orphan: bool,
) -> Seq<Seq<char>> {
    switch(bed_format, "--bed-format"@) + switch(use_chr, "--use-chr"@) + switch(
        sam_format,
        "--sam-format"@,
    ) + switch(check_kmer_orphan, "--kmers-orphans"@)
}

/// The binning of the ATAC mapper: the Tn5 shift is switched off by an
/// explicit `false`, the sizes follow.
pub open spec fn binning_tokens(
    no_tn5_shift: bool,
    bin_size: u32,
    bin_overlap: u32,
    bclen: u16,
    end_cache_capacity: usize,
) -> Seq<Seq<char>> {
    (if no_tn5_shift {
        seq!["--tn5-shift"@, "false"@]
    } else {
        Seq::empty()
    }) + seq![
        "--bin-size"@,
        decimal(bin_size as nat),
        "--bin-overlap"@,
        decimal(bin_overlap as nat),
        "--bclen"@,
        decimal(bclen as nat),
        "--end-cache-capacity"@,
        decimal(end_cache_capacity as nat),
    ]
}

fn push_formats(
    argv: &mut Vec<String>,
    bed_format: bool,
    use_chr: bool,
    sam_format: bool,
    check_kmer_orphan: bool,
)
    ensures
        final(argv).deep_view() == old(argv).deep_view() + format_tokens(
            bed_format,
            use_chr,
            sam_format,
            check_kmer_orphan,
        ),
{
    push_switch(argv, bed_format, "--bed-format");
    push_switch(argv, use_chr, "--use-chr");
    push_switch(argv, sam_format, "--sam-format");
    push_switch(argv, check_kmer_orphan, "--kmers-orphans");
    assert(argv.deep_view() =~= old(argv).deep_view() + format_tokens(
        bed_format,
        use_chr,
        sam_format,
        check_kmer_orphan,
    ));
}

fn push_binning(
    argv: &mut Vec<String>,
    no_tn5_shift: bool,
    bin_size: u32,
    bin_overlap: u32,
    bclen: u16,
    end_cache_capacity: usize,
)
    ensures
        final(argv).deep_view() == old(argv).deep_view() + binning_tokens(
            no_tn5_shift,
            bin_size,
            bin_overlap,
            bclen,
            end_cache_capacity,
        ),
{
    if no_tn5_shift {
        push_pair(argv, "--tn5-shift", "false");
    }
    push_number(argv, "--bin-size", bin_size as u64);
    push_number(argv, "--bin-overlap", bin_overlap as u64);
    push_number(argv, "--bclen", bclen as u64);
    push_number(argv, "--end-cache-capacity", end_cache_capacity as u64);
    assert(argv.deep_view() =~= old(argv).deep_view() + binning_tokens(
        no_tn5_shift,
        bin_size,
        bin_overlap,
        bclen,
        end_cache_capacity,
    ));
}

impl AsArgv for MapSCAtacOpts {
    open spec fn index_prefix(&self) -> Seq<char> {
        self.index@
    }

    open spec fn wants_ec_table(&self) -> bool {
        false
    }

    fn index(&self) -> (prefix: &str) {
        self.index.as_str()
    }

    fn needs_ec_table(&self) -> (needed: bool) {
        false
    }

    open spec fn tokens(&self) -> Seq<Seq<char>> {
        seq![
            "scatac_ref_mapper"@,
            "-i"@,
            self.index@,
            "-t"@,
            decimal(self.threads as nat),
            "-o"@,
            self.output@,
        ] + read_tokens(self.reads, self.read1, self.read2) + seq![
            "-b"@,
            joined(self.barcode.deep_view(), ","@),
        ] + switch(self.no_poison, "--no-poison"@) + seq![
            "--skipping-strategy"@,
            self.skipping_strategy@,
        ] + switch(self.struct_constraints, "--struct-constraints"@) + format_tokens(
            self.bed_format,
            self.use_chr,
            self.sam_format,
            self.check_kmer_orphan,
        ) + seq!["--thr"@, self.thr@] + binning_tokens(
            self.no_tn5_shift,
            self.bin_size,
            self.bin_overlap,
            self.bclen,
            self.end_cache_capacity,
        )
    }

    fn as_argv(&self) -> (r: Result<Vec<String>, MapError>) {
        let mut argv: Vec<String> = Vec::new();
        assert(argv.deep_view() =~= Seq::<Seq<char>>::empty());
        push_token(&mut argv, "scatac_ref_mapper");
        push_pair(&mut argv, "-i", self.index.as_str());
        push_number(&mut argv, "-t", self.threads as u64);
        push_pair(&mut argv, "-o", self.output.as_str());
        assert(argv.deep_view() =~= seq![
            "scatac_ref_mapper"@,
            "-i"@,
            self.index@,
            "-t"@,
            decimal(self.threads as nat),
            "-o"@,
            self.output@,
        ]);
        push_reads(&mut argv, &self.reads, &self.read1, &self.read2);
        push_list(&mut argv, "-b", &self.barcode);
        push_switch(&mut argv, self.no_poison, "--no-poison");
        push_pair(&mut argv, "--skipping-strategy", self.skipping_strategy.as_str());
        push_switch(&mut argv, self.struct_constraints, "--struct-constraints");
        push_formats(
            &mut argv,
            self.bed_format,
            self.use_chr,
            self.sam_format,
            self.check_kmer_orphan,
        );
        push_pair(&mut argv, "--thr", self.thr.as_str());
        push_binning(
            &mut argv,
            self.no_tn5_shift,
            self.bin_size,
            self.bin_overlap,
            self.bclen,
            self.end_cache_capacity,
        );
        checked(argv)
    }
}

/// `argv` with the token that silences a mapper appended where `quiet`
/// asks for it.
pub fn with_quiet(argv: Vec<String>, quiet: bool) -> (out: Vec<String>)
    ensures
        out.deep_view() == argv.deep_view() + switch(quiet, "--quiet"@),
{
    let mut out = argv;
    push_switch(&mut out, quiet, "--quiet");
    out
}

} // verus!
