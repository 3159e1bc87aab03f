//! A build request and the rules that it must meet before anything runs.

use crate::error::{BuildError, BuildErrorView, ConfigurationError};
use vstd::prelude::*;

verus! {

/// What one build is asked to do. It is read, never changed.
#[derive(Debug, PartialEq, Eq)]
pub struct BuildRequest {
    /// Reference sequence files.
    pub ref_seqs: Vec<String>,
    /// Files that each list reference sequence files.
    pub ref_lists: Vec<String>,
    /// Directories whose sequence files are the references.
    pub ref_dirs: Vec<String>,
    /// The k-mer length.
    pub klen: usize,
    /// The minimizer length.
    pub mlen: usize,
    /// How many threads each engine may use.
    pub threads: usize,
    /// The prefix of every file that the build leaves.
    pub output_prefix: String,
    /// Where the engines put temporary files.
    pub work_dir: String,
    /// Whether the graph files of an earlier build may be replaced.
    pub overwrite: bool,
    /// Whether the graph's segment and sequence files stay after the build.
    pub keep_intermediate: bool,
    /// Whether the index gets an equivalence-class table.
    pub build_ec_table: bool,
    /// Decoy sequence files; with them a poison table is built.
    pub decoy_paths: Option<Vec<String>>,
    /// The seed of the index construction.
    pub seed: u64,
}

/// A [`BuildRequest`] with its texts as sequences.
pub struct BuildRequestView {
    pub ref_seqs: Seq<Seq<char>>,
    pub ref_lists: Seq<Seq<char>>,
    pub ref_dirs: Seq<Seq<char>>,
    pub klen: usize,
    pub mlen: usize,
    pub threads: usize,
    pub output_prefix: Seq<char>,
    pub work_dir: Seq<char>,
    pub overwrite: bool,
    pub keep_intermediate: bool,
    pub build_ec_table: bool,
    pub decoy_paths: Option<Seq<Seq<char>>>,
    pub seed: u64,
}

impl View for BuildRequest {
    type V = BuildRequestView;

    open spec fn view(&self) -> BuildRequestView {
        BuildRequestView {
            ref_seqs: self.ref_seqs.deep_view(),
            ref_lists: self.ref_lists.deep_view(),
            ref_dirs: self.ref_dirs.deep_view(),
            klen: self.klen,
            mlen: self.mlen,
            threads: self.threads,
            output_prefix: self.output_prefix@,
            work_dir: self.work_dir@,
            overwrite: self.overwrite,
            keep_intermediate: self.keep_intermediate,
            build_ec_table: self.build_ec_table,
            decoy_paths: match self.decoy_paths {
                Some(paths) => Some(paths.deep_view()),
                None => None,
            },
            seed: self.seed,
        }
    }
}

impl BuildRequestView {
    /// The declared decoy paths; none where no decoys were declared.
    pub open spec fn decoys(self) -> Seq<Seq<char>> {
        match self.decoy_paths {
            Some(paths) => paths,
            None => Seq::empty(),
        }
    }

    /// In how many of the three forms references were given.
    pub open spec fn reference_forms(self) -> nat {
        let seqs: nat = if self.ref_seqs.len() > 0 { 1 } else { 0 };
        let lists: nat = if self.ref_lists.len() > 0 { 1 } else { 0 };
        let dirs: nat = if self.ref_dirs.len() > 0 { 1 } else { 0 };
        seqs + lists + dirs
    }
}

/// What a look at a path showed.
#[derive(Debug, PartialEq, Eq)]
pub enum Probe {
    /// Something is there.
    Present,
    /// Nothing is there.
    Absent,
    /// The look itself failed, with this cause.
    Failed(String),
}

/// A [`Probe`] with its text as a sequence.
pub enum ProbeView {
    Present,
    Absent,
    Failed(Seq<char>),
}

impl View for Probe {
    type V = ProbeView;

    open spec fn view(&self) -> ProbeView {
        match *self {
            Probe::Present => ProbeView::Present,
            Probe::Absent => ProbeView::Absent,
            Probe::Failed(cause) => ProbeView::Failed(cause@),
        }
    }
}

impl DeepView for Probe {
    type V = ProbeView;

    open spec fn deep_view(&self) -> ProbeView {
        self@
    }
}

/// The rule on the thread count, then the rule on the two lengths: what the
/// first broken one says, for a machine with `ncpus` logical CPUs.
pub open spec fn numeric_verdict(req: BuildRequestView, ncpus: usize) -> Option<
    ConfigurationError,
> {
    if req.threads == 0 {
        Some(ConfigurationError::NonPositiveThreads)
    } else if req.threads > ncpus {
        Some(ConfigurationError::TooManyThreads)
    } else if req.mlen >= req.klen {
        Some(ConfigurationError::MinimizerTooLong)
    } else {
        None
    }
}

/// The rule on one decoy: it must be there.
pub open spec fn decoy_verdict(path: Seq<char>, probe: ProbeView) -> Option<BuildErrorView> {
    match probe {
        ProbeView::Present => None,
        ProbeView::Absent => Some(BuildErrorView::Input { path, cause: None }),
        ProbeView::Failed(cause) => Some(BuildErrorView::Input { path, cause: Some(cause) }),
    }
}

/// The rule on the decoys from the one at `from` on: what the first broken
/// one says.
pub open spec fn decoys_verdict(
    paths: Seq<Seq<char>>,
    probes: Seq<ProbeView>,
    from: int,
) -> Option<BuildErrorView>
    decreases paths.len() - from,
{
    if from < 0 || from >= paths.len() {
        None
    } else {
        match decoy_verdict(paths[from], probes[from]) {
            Some(e) => Some(e),
            None => decoys_verdict(paths, probes, from + 1),
        }
    }
}

/// The rule on the references: exactly one form.
pub open spec fn reference_verdict(req: BuildRequestView) -> Option<ConfigurationError> {
    if req.reference_forms() == 1 {
        None
    } else {
        Some(ConfigurationError::ReferenceInput)
    }
}

/// What the rules say of a request, in their order: threads, lengths,
/// decoys, references. `probes` holds what a look at each declared decoy
/// showed.
pub open spec fn verdict(req: BuildRequestView, ncpus: usize, probes: Seq<ProbeView>) -> Result<
    (),
    BuildErrorView,
> {
    match numeric_verdict(req, ncpus) {
        Some(e) => Err(BuildErrorView::Configuration(e)),
        None => match decoys_verdict(req.decoys(), probes, 0) {
            Some(e) => Err(e),
            None => match reference_verdict(req) {
                Some(e) => Err(BuildErrorView::Configuration(e)),
                None => Ok(()),
            },
        },
    }
}

/// Whether a request meets every rule, given that all its decoys are there.
pub open spec fn acceptable(req: BuildRequestView, ncpus: usize) -> bool {
    &&& 1 <= req.threads <= ncpus
    &&& req.mlen < req.klen
    &&& req.reference_forms() == 1
}

impl BuildRequest {
    /// How many decoys the request declares.
    pub fn decoy_count(&self) -> (n: usize)
        ensures
            n == self@.decoys().len(),
    {
        match &self.decoy_paths {
            Some(paths) => paths.len(),
            None => 0,
        }
    }

    /// Checks the thread count against the machine, then the two lengths.
    pub fn check_numbers(&self, ncpus: usize) -> (r: Result<(), ConfigurationError>)
        ensures
            r is Ok <==> numeric_verdict(self@, ncpus) is None,
            r matches Err(e) ==> numeric_verdict(self@, ncpus) == Some(e),
    {
        if self.threads == 0 {
            Err(ConfigurationError::NonPositiveThreads)
        } else if self.threads > ncpus {
            Err(ConfigurationError::TooManyThreads)
        } else if self.mlen >= self.klen {
            Err(ConfigurationError::MinimizerTooLong)
        } else {
            Ok(())
        }
    }

    /// Checks that the references come in exactly one form.
    pub fn check_references(&self) -> (r: Result<(), ConfigurationError>)
        ensures
            r is Ok <==> reference_verdict(self@) is None,
            r matches Err(e) ==> reference_verdict(self@) == Some(e),
    {
        let mut forms: u8 = 0;
        if self.ref_seqs.len() > 0 {
            forms += 1;
        }
        if self.ref_lists.len() > 0 {
            forms += 1;
        }
        if self.ref_dirs.len() > 0 {
            forms += 1;
        }
        if forms == 1 {
            Ok(())
        } else {
            Err(ConfigurationError::ReferenceInput)
        }
    }

    /// Checks the request against every rule and stops at the first that it
    /// breaks. `probes` holds, for each declared decoy in order, what a look
    /// at its path showed.
    pub fn validate(&self, ncpus: usize, probes: &Vec<Probe>) -> (r: Result<(), BuildError>)
        requires
            probes.len() == self@.decoys().len(),
        ensures
            r is Ok <==> verdict(self@, ncpus, probes.deep_view()) is Ok,
            r matches Err(e) ==> verdict(self@, ncpus, probes.deep_view()) == Err::<
                (),
                BuildErrorView,
            >(e@),
            r is Ok <==> acceptable(self@, ncpus) && forall|i: int|
                0 <= i < probes.len() ==> #[trigger] probes[i]@ is Present,
    {
        if let Err(e) = self.check_numbers(ncpus) {
            return Err(BuildError::Configuration(e));
        }
        if let Some(paths) = &self.decoy_paths {
            let mut i: usize = 0;
            while i < paths.len()
                invariant
                    i <= paths.len(),
                    paths.len() == probes.len(),
                    numeric_verdict(self@, ncpus) is None,
                    paths.deep_view() == self@.decoys(),
                    forall|j: int| 0 <= j < i ==> #[trigger] probes[j]@ is Present,
                    decoys_verdict(self@.decoys(), probes.deep_view(), 0) == decoys_verdict(
                        self@.decoys(),
                        probes.deep_view(),
                        i as int,
                    ),
                decreases paths.len() - i,
            {
                proof {
                    assert(self@.decoys()[i as int] == paths[i as int]@);
                    assert(probes.deep_view()[i as int] == probes[i as int]@);
                }
                match check_decoy(paths[i].as_str(), &probes[i]) {
                    Err(e) => {
                        return Err(e);
                    },
                    Ok(()) => {},
                }
                i += 1;
            }
        }
        proof {
            lemma_all_present(self@.decoys(), probes.deep_view(), 0);
        }
        match self.check_references() {
            Ok(()) => Ok(()),
            Err(e) => Err(BuildError::Configuration(e)),
        }
    }
}

/// Checks one decoy against what a look at its path showed.
pub fn check_decoy(path: &str, probe: &Probe) -> (r: Result<(), BuildError>)
    ensures
        r is Ok <==> decoy_verdict(path@, probe@) is None,
        r matches Err(e) ==> decoy_verdict(path@, probe@) == Some(e@),
{
    match probe {
        Probe::Present => Ok(()),
        Probe::Absent => Err(BuildError::Input { path: path.to_owned(), cause: None }),
        Probe::Failed(cause) => Err(
            BuildError::Input { path: path.to_owned(), cause: Some(cause.clone()) },
        ),
    }
}

/// The decoys pass from `from` on exactly if each of them is there.
pub proof fn lemma_all_present(paths: Seq<Seq<char>>, probes: Seq<ProbeView>, from: int)
    requires
        0 <= from,
    ensures
        decoys_verdict(paths, probes, from) is None <==> forall|i: int|
            from <= i < paths.len() ==> #[trigger] probes[i] is Present,
    decreases paths.len() - from,
{
    if from < paths.len() {
        lemma_all_present(paths, probes, from + 1);
        if decoys_verdict(paths, probes, from) is None {
            assert forall|i: int| from <= i < paths.len() implies #[trigger] probes[i]
                is Present by {
                if i > from {
                    assert(probes[i] is Present);
                }
            }
        }
    }
}

/// A request that meets the rules is accepted: with a thread count that
/// the machine has, a minimizer shorter than the k-mer, references in exactly
/// one form and every declared decoy in place, no rule objects.
pub proof fn law_valid_request_is_accepted(
    req: BuildRequestView,
    ncpus: usize,
    probes: Seq<ProbeView>,
)
    requires
        1 <= req.threads <= ncpus,
        req.mlen < req.klen,
        req.reference_forms() == 1,
        forall|i: int| 0 <= i < req.decoys().len() ==> #[trigger] probes[i] is Present,
    ensures
        verdict(req, ncpus, probes) is Ok,
{
    lemma_all_present(req.decoys(), probes, 0);
}

/// A minimizer that is not shorter than the k-mer is refused as a
/// configuration error, whatever else the request says and whatever the
/// decoys are.
pub proof fn law_long_minimizer_is_refused(
    req: BuildRequestView,
    ncpus: usize,
    probes: Seq<ProbeView>,
)
    requires
        req.mlen >= req.klen,
    ensures
        verdict(req, ncpus, probes) is Err,
        verdict(req, ncpus, probes)->Err_0 is Configuration,
        1 <= req.threads <= ncpus ==> verdict(req, ncpus, probes) == Err::<(), BuildErrorView>(
            BuildErrorView::Configuration(ConfigurationError::MinimizerTooLong),
        ),
{
}

/// A thread count of zero, or one above the logical CPUs of the machine, is
/// refused as a configuration error before any other rule is looked at.
pub proof fn law_bad_thread_count_is_refused(
    req: BuildRequestView,
    ncpus: usize,
    probes: Seq<ProbeView>,
)
    requires
        req.threads == 0 || req.threads > ncpus,
    ensures
        verdict(req, ncpus, probes) == Err::<(), BuildErrorView>(
            BuildErrorView::Configuration(
                if req.threads == 0 {
                    ConfigurationError::NonPositiveThreads
                } else {
                    ConfigurationError::TooManyThreads
                },
            ),
        ),
{
}

} // verus!
