//! The build as a machine that is told what happened and says what to do
//! next.
//!
//! A build validates its request, clears or checks what an earlier build
//! left, prepares its directories, runs the graph, index and poison engines
//! in this order and tidies up. None of this is done here. The
//! [`Orchestrator`] holds where the build stands; [`Orchestrator::step`]
//! takes the answer to its last [`Directive`] as an [`Event`] and gives the
//! next directive. The caller looks at paths, deletes files, makes
//! directories and runs engines, and changes nothing on its own account.

use crate::argv::{marshal, marshalable, marshaled, stage_tokens};
use crate::artifacts::{artifacts_of, graph_tag, with_ending, ArtifactPaths};
use crate::error::{BuildError, BuildErrorView, CleanupWarning, CleanupWarningView};
use crate::platform::{logical_cpus, parent_of, path_parent};
use crate::request::{
    check_decoy, decoy_verdict, numeric_verdict, reference_verdict, BuildRequest,
    BuildRequestView, Probe, ProbeView,
};
use crate::stage::Stage;
use vstd::prelude::*;

verus! {

/// What the caller reports back.
#[derive(Debug, PartialEq, Eq)]
pub enum Event {
    /// The build is to begin.
    Start,
    /// A path was looked at.
    Probed(Probe),
    /// A file was deleted, a directory made, or signatures written.
    Succeeded,
    /// That failed, with this cause.
    Failed(String),
    /// An engine returned this code.
    Exited(i32),
}

/// An [`Event`] with its texts as sequences.
pub enum EventView {
    Start,
    Probed(ProbeView),
    Succeeded,
    Failed(Seq<char>),
    Exited(i32),
}

impl View for Event {
    type V = EventView;

    open spec fn view(&self) -> EventView {
        match *self {
            Event::Start => EventView::Start,
            Event::Probed(probe) => EventView::Probed(probe@),
            Event::Succeeded => EventView::Succeeded,
            Event::Failed(cause) => EventView::Failed(cause@),
            Event::Exited(code) => EventView::Exited(code),
        }
    }
}

/// What the caller is to do next. Each directive but the last three is
/// answered by one event.
#[derive(Debug, PartialEq, Eq)]
pub enum Directive {
    /// Look whether something exists at this path; answer with
    /// [`Event::Probed`].
    Probe(String),
    /// Delete this file; answer with [`Event::Succeeded`] or
    /// [`Event::Failed`].
    Remove(String),
    /// Make this directory and the directories above it; answer likewise.
    CreateDirs(String),
    /// Compute the signatures of these reference files and write them
    /// under this stem; answer likewise.
    Sign { inputs: Vec<String>, stem: String },
    /// Run the engine of this stage with this command line; answer with
    /// [`Event::Exited`].
    Invoke { stage: Stage, argv: Vec<String> },
    /// The build succeeded: write the version manifest at this path. Nothing
    /// is left to do.
    Finish { version_manifest: String },
    /// The build failed for this reason. Nothing is left to do.
    Abort(BuildError),
    /// The build has ended before. Nothing is left to do.
    Halt,
}

/// A [`Directive`] with its texts as sequences.
pub enum DirectiveView {
    Probe(Seq<char>),
    Remove(Seq<char>),
    CreateDirs(Seq<char>),
    Sign { inputs: Seq<Seq<char>>, stem: Seq<char> },
    Invoke { stage: Stage, argv: Seq<Seq<char>> },
    Finish { version_manifest: Seq<char> },
    Abort(BuildErrorView),
    Halt,
}

impl View for Directive {
    type V = DirectiveView;

    open spec fn view(&self) -> DirectiveView {
        match *self {
            Directive::Probe(path) => DirectiveView::Probe(path@),
            Directive::Remove(path) => DirectiveView::Remove(path@),
            Directive::CreateDirs(path) => DirectiveView::CreateDirs(path@),
            Directive::Sign { inputs, stem } => DirectiveView::Sign {
                inputs: inputs.deep_view(),
                stem: stem@,
            },
            Directive::Invoke { stage, argv } => DirectiveView::Invoke {
                stage,
                argv: argv.deep_view(),
            },
            Directive::Finish { version_manifest } => DirectiveView::Finish {
                version_manifest: version_manifest@,
            },
            Directive::Abort(error) => DirectiveView::Abort(error@),
            Directive::Halt => DirectiveView::Halt,
        }
    }
}

/// One of the three files that the graph stage leaves.
#[derive(Clone, Copy, Debug, PartialEq, Eq, Structural)]
pub enum GraphFile {
    Structure,
    Segment,
    Sequence,
}

/// Where a build stands: what was asked last and is not answered yet.
#[derive(Clone, Copy, Debug, PartialEq, Eq, Structural)]
pub enum Step {
    /// Nothing was asked yet.
    Idle,
    /// The decoy at this place is being looked at.
    Decoy(usize),
    /// A graph file of an earlier build is being looked for, to be
    /// replaced.
    StaleProbe(GraphFile),
    /// That file is being deleted.
    StaleRemove(GraphFile),
    /// A graph file of an earlier build is being looked for, to tell
    /// whether the earlier build is whole.
    Conflict(GraphFile),
    /// The signatures of the references are being computed.
    Signing,
    /// The work directory is being looked for.
    WorkDirProbe,
    /// The work directory is being made.
    WorkDirCreate,
    /// The directory of the output is being looked for.
    OutputDirProbe,
    /// The directory of the output is being made.
    OutputDirCreate,
    /// The engine of this stage is running.
    Engine(Stage),
    /// The segment file is being deleted after the build.
    CleanupSegment,
    /// The sequence file is being deleted after the build.
    CleanupSequence,
    /// The build succeeded.
    Done,
    /// The build failed.
    Aborted,
}

/// How far a build has come, by the stages that have succeeded.
#[derive(Clone, Copy, Debug, PartialEq, Eq, Structural)]
pub enum Phase {
    /// No stage has succeeded yet.
    Idle,
    /// The graph is built.
    GraphBuilt,
    /// The index is built.
    IndexBuilt,
    /// The poison table is built.
    PoisonBuilt,
    /// The build succeeded and is tidied up.
    Done,
    /// The build failed.
    Aborted,
}

/// A build in progress: what it was asked, on what machine, and where it
/// stands.
pub struct Machine {
    pub request: BuildRequestView,
    /// Whether the engines are to be silent.
    pub quiet: bool,
    /// The logical CPUs of the machine.
    pub ncpus: usize,
    /// The directory that holds the output, where the prefix names one.
    pub output_dir: Option<Seq<char>>,
    pub step: Step,
    /// The intermediate files that could not be deleted, oldest first.
    pub warnings: Seq<CleanupWarningView>,
}

/// What is appended to the output prefix to get the stem under which the
/// signatures of the references are written.
pub open spec fn signature_tag() -> Seq<char> {
    ".sigs"@
}

/// The first stage of the build whose command line cannot be handed over,
/// because a token of it holds a NUL character. The poison stage counts only
/// where decoys were declared.
pub open spec fn unmarshalable_stage(request: BuildRequestView, quiet: bool) -> Option<Stage> {
    if !marshalable(stage_tokens(Stage::Graph, request, quiet)) {
        Some(Stage::Graph)
    } else if !marshalable(stage_tokens(Stage::Index, request, quiet)) {
        Some(Stage::Index)
    } else if request.decoy_paths is Some && !marshalable(
        stage_tokens(Stage::Poison, request, quiet),
    ) {
        Some(Stage::Poison)
    } else {
        None
    }
}

impl Machine {
    /// A build of `request` that has not begun.
    pub open spec fn initial(
        request: BuildRequestView,
        quiet: bool,
        ncpus: usize,
        output_dir: Option<Seq<char>>,
    ) -> Machine {
        Machine { request, quiet, ncpus, output_dir, step: Step::Idle, warnings: Seq::empty() }
    }

    /// The paths of this build.
    pub open spec fn paths(self) -> ArtifactPaths {
        artifacts_of(self.request.output_prefix)
    }

    /// The path of a graph file of this build.
    pub open spec fn graph_path(self, file: GraphFile) -> Seq<char> {
        match file {
            GraphFile::Structure => self.paths().structure,
            GraphFile::Segment => self.paths().segment,
            GraphFile::Sequence => self.paths().sequence,
        }
    }

    /// This build at another step.
    pub open spec fn at(self, step: Step) -> Machine {
        Machine { step, ..self }
    }

    /// This build with one more warning.
    pub open spec fn warned(self, path: Seq<char>, cause: Seq<char>) -> Machine {
        Machine { warnings: self.warnings.push(CleanupWarningView { path, cause }), ..self }
    }

    /// The build fails.
    pub open spec fn abort(self, error: BuildErrorView) -> (Machine, DirectiveView) {
        (self.at(Step::Aborted), DirectiveView::Abort(error))
    }

    /// The decoys from the one at `i` on are looked at; after the last, the
    /// references are checked.
    pub open spec fn to_decoy(self, i: int) -> (Machine, DirectiveView) {
        if 0 <= i < self.request.decoys().len() {
            (self.at(Step::Decoy(i as usize)), DirectiveView::Probe(self.request.decoys()[i]))
        } else {
            self.to_references()
        }
    }

    /// The references must come in exactly one form, and the command line
    /// of every stage that will run must be fit to be handed over. This ends
    /// the validation.
    pub open spec fn to_references(self) -> (Machine, DirectiveView) {
        match reference_verdict(self.request) {
            Some(e) => self.abort(BuildErrorView::Configuration(e)),
            None => match unmarshalable_stage(self.request, self.quiet) {
                Some(stage) => self.abort(BuildErrorView::Marshal { stage }),
                None => self.to_reconcile(),
            },
        }
    }

    /// What an earlier build left at the prefix is cleared away where
    /// overwriting was asked for, and checked where not. Either way the
    /// structure file comes first.
    pub open spec fn to_reconcile(self) -> (Machine, DirectiveView) {
        let first = DirectiveView::Probe(self.graph_path(GraphFile::Structure));
        if self.request.overwrite {
            (self.at(Step::StaleProbe(GraphFile::Structure)), first)
        } else {
            (self.at(Step::Conflict(GraphFile::Structure)), first)
        }
    }

    /// A stale file is dealt with: the next one is looked for, in the order
    /// structure, segment, sequence.
    pub open spec fn after_stale(self, file: GraphFile) -> (Machine, DirectiveView) {
        match file {
            GraphFile::Structure => (
                self.at(Step::StaleProbe(GraphFile::Segment)),
                DirectiveView::Probe(self.graph_path(GraphFile::Segment)),
            ),
            GraphFile::Segment => (
                self.at(Step::StaleProbe(GraphFile::Sequence)),
                DirectiveView::Probe(self.graph_path(GraphFile::Sequence)),
            ),
            GraphFile::Sequence => self.to_signing(),
        }
    }

    /// Where the references are sequence files, their signatures are
    /// written before anything is built.
    pub open spec fn to_signing(self) -> (Machine, DirectiveView) {
        if self.request.ref_seqs.len() > 0 {
            (
                self.at(Step::Signing),
                DirectiveView::Sign {
                    inputs: self.request.ref_seqs,
                    stem: self.request.output_prefix + signature_tag(),
                },
            )
        } else {
            self.to_work_dir()
        }
    }

    /// The work directory must exist before the first engine runs.
    pub open spec fn to_work_dir(self) -> (Machine, DirectiveView) {
        (self.at(Step::WorkDirProbe), DirectiveView::Probe(self.request.work_dir))
    }

    /// So must the directory of the output, where the prefix names one.
    pub open spec fn to_output_dir(self) -> (Machine, DirectiveView) {
        match self.output_dir {
            Some(dir) => (self.at(Step::OutputDirProbe), DirectiveView::Probe(dir)),
            None => self.to_stage(Stage::Graph),
        }
    }

    /// The engine of `stage` is run, if its command line can be built.
    pub open spec fn to_stage(self, stage: Stage) -> (Machine, DirectiveView) {
        match marshaled(stage, self.request, self.quiet) {
            Ok(argv) => (self.at(Step::Engine(stage)), DirectiveView::Invoke { stage, argv }),
            Err(e) => self.abort(e),
        }
    }

    /// `stage` has succeeded: the next stage runs. The poison stage runs
    /// only where decoys were declared.
    pub open spec fn after_stage(self, stage: Stage) -> (Machine, DirectiveView) {
        match stage {
            Stage::Graph => self.to_stage(Stage::Index),
            Stage::Index => if self.request.decoy_paths is Some {
                self.to_stage(Stage::Poison)
            } else {
                self.to_cleanup()
            },
            Stage::Poison => self.to_cleanup(),
        }
    }

    /// Every stage has succeeded: the segment and sequence files go, unless
    /// they were asked to stay. The structure file always stays.
    pub open spec fn to_cleanup(self) -> (Machine, DirectiveView) {
        if self.request.keep_intermediate {
            self.finish()
        } else {
            (
                self.at(Step::CleanupSegment),
                DirectiveView::Remove(self.graph_path(GraphFile::Segment)),
            )
        }
    }

    /// After the segment file, the sequence file goes.
    pub open spec fn to_cleanup_sequence(self) -> (Machine, DirectiveView) {
        (
            self.at(Step::CleanupSequence),
            DirectiveView::Remove(self.graph_path(GraphFile::Sequence)),
        )
    }

    /// The build has succeeded.
    pub open spec fn finish(self) -> (Machine, DirectiveView) {
        (
            self.at(Step::Done),
            DirectiveView::Finish { version_manifest: self.paths().version_manifest },
        )
    }

    /// How far this build has come.
    pub open spec fn phase(self) -> Phase {
        match self.step {
            Step::Engine(Stage::Index) => Phase::GraphBuilt,
            Step::Engine(Stage::Poison) => Phase::IndexBuilt,
            Step::CleanupSegment | Step::CleanupSequence => if self.request.decoy_paths is Some {
                Phase::PoisonBuilt
            } else {
                Phase::IndexBuilt
            },
            Step::Done => Phase::Done,
            Step::Aborted => Phase::Aborted,
            _ => Phase::Idle,
        }
    }

    /// Whether this build has ended.
    pub open spec fn ended(self) -> bool {
        self.step == Step::Done || self.step == Step::Aborted
    }
}

/// What a build does when it is told `event`: where it stands afterwards
/// and what it asks for.
///
/// A request that breaks a rule, or a token of which holds a NUL character,
/// ends the build before anything is changed. A look that fails counts as a
/// look that found nothing, except at a decoy and at the work directory,
/// where the failure ends the build. A code
/// other than zero from an engine ends the build. A file that cannot be
/// deleted ends the build before the first engine and is only noted after
/// the last. An event that answers nothing that was asked ends the build as
/// well; a build that has ended stays as it is.
pub open spec fn transition(m: Machine, event: EventView) -> (Machine, DirectiveView) {
    match (m.step, event) {
        (Step::Done, _) | (Step::Aborted, _) => (m, DirectiveView::Halt),
        (Step::Idle, EventView::Start) => match numeric_verdict(m.request, m.ncpus) {
            Some(e) => m.abort(BuildErrorView::Configuration(e)),
            None => m.to_decoy(0),
        },
        (Step::Decoy(i), EventView::Probed(probe)) => if i < m.request.decoys().len() {
            match decoy_verdict(m.request.decoys()[i as int], probe) {
                Some(e) => m.abort(e),
                None => m.to_decoy(i + 1),
            }
        } else {
            m.abort(BuildErrorView::OutOfTurn)
        },
        (Step::StaleProbe(file), EventView::Probed(probe)) => if probe is Present {
            (m.at(Step::StaleRemove(file)), DirectiveView::Remove(m.graph_path(file)))
        } else {
            m.after_stale(file)
        },
        (Step::StaleRemove(file), EventView::Succeeded) => m.after_stale(file),
        (Step::StaleRemove(file), EventView::Failed(cause)) => m.abort(
            BuildErrorView::Filesystem { path: m.graph_path(file), cause },
        ),
        (Step::Conflict(file), EventView::Probed(probe)) => match file {
            GraphFile::Structure => if probe is Present {
                (
                    m.at(Step::Conflict(GraphFile::Sequence)),
                    DirectiveView::Probe(m.graph_path(GraphFile::Sequence)),
                )
            } else {
                m.to_signing()
            },
            GraphFile::Sequence => if probe is Present {
                (
                    m.at(Step::Conflict(GraphFile::Segment)),
                    DirectiveView::Probe(m.graph_path(GraphFile::Segment)),
                )
            } else {
                m.abort(BuildErrorView::Conflict { structure: m.graph_path(GraphFile::Structure) })
            },
            GraphFile::Segment => if probe is Present {
                m.to_signing()
            } else {
                m.abort(BuildErrorView::Conflict { structure: m.graph_path(GraphFile::Structure) })
            },
        },
        (Step::Signing, EventView::Succeeded) => m.to_work_dir(),
        (Step::Signing, EventView::Failed(cause)) => m.abort(BuildErrorView::Signature { cause }),
        (Step::WorkDirProbe, EventView::Probed(probe)) => match probe {
            ProbeView::Present => m.to_output_dir(),
            ProbeView::Absent => (
                m.at(Step::WorkDirCreate),
                DirectiveView::CreateDirs(m.request.work_dir),
            ),
            ProbeView::Failed(cause) => m.abort(
                BuildErrorView::Filesystem { path: m.request.work_dir, cause },
            ),
        },
        (Step::WorkDirCreate, EventView::Succeeded) => m.to_output_dir(),
        (Step::WorkDirCreate, EventView::Failed(cause)) => m.abort(
            BuildErrorView::Filesystem { path: m.request.work_dir, cause },
        ),
        (Step::OutputDirProbe, EventView::Probed(probe)) => match m.output_dir {
            Some(dir) => if probe is Present {
                m.to_stage(Stage::Graph)
            } else {
                (m.at(Step::OutputDirCreate), DirectiveView::CreateDirs(dir))
            },
            None => m.abort(BuildErrorView::OutOfTurn),
        },
        (Step::OutputDirCreate, EventView::Succeeded) => m.to_stage(Stage::Graph),
        (Step::OutputDirCreate, EventView::Failed(cause)) => match m.output_dir {
            Some(dir) => m.abort(BuildErrorView::Filesystem { path: dir, cause }),
            None => m.abort(BuildErrorView::OutOfTurn),
        },
        (Step::Engine(stage), EventView::Exited(code)) => if code == 0 {
            m.after_stage(stage)
        } else {
            m.abort(BuildErrorView::StageFailure { stage, exit_code: code })
        },
        (Step::CleanupSegment, EventView::Succeeded) => m.to_cleanup_sequence(),
        (Step::CleanupSegment, EventView::Failed(cause)) => m.warned(
            m.graph_path(GraphFile::Segment),
            cause,
        ).to_cleanup_sequence(),
        (Step::CleanupSequence, EventView::Succeeded) => m.finish(),
        (Step::CleanupSequence, EventView::Failed(cause)) => m.warned(
            m.graph_path(GraphFile::Sequence),
            cause,
        ).finish(),
        _ => m.abort(BuildErrorView::OutOfTurn),
    }
}

/// A build in progress. It is made once for a request and then stepped
/// until it says that nothing is left to do.
#[derive(Debug)]
pub struct Orchestrator {
    request: BuildRequest,
    quiet: bool,
    ncpus: usize,
    output_dir: Option<String>,
    step: Step,
    warnings: Vec<CleanupWarning>,
}

impl View for Orchestrator {
    type V = Machine;

    closed spec fn view(&self) -> Machine {
        Machine {
            request: self.request@,
            quiet: self.quiet,
            ncpus: self.ncpus,
            output_dir: match self.output_dir {
                Some(dir) => Some(dir@),
                None => None,
            },
            step: self.step,
            warnings: self.warnings.deep_view(),
        }
    }
}

/// A copy of `list`.
fn copy_of(list: &Vec<String>) -> (out: Vec<String>)
    ensures
        out.deep_view() == list.deep_view(),
{
    let mut out: Vec<String> = Vec::new();
    let mut i: usize = 0;
    while i < list.len()
        invariant
            i <= list.len(),
            out.len() == i,
            forall|j: int| 0 <= j < i ==> out[j]@ == list[j]@,
        decreases list.len() - i,
    {
        out.push(list[i].clone());
        i += 1;
    }
    assert(out.deep_view() =~= list.deep_view());
    out
}

impl Orchestrator {
    /// A build of `request` that has not begun, for a machine with `ncpus`
    /// logical CPUs. `output_dir` is the directory that holds the output,
    /// where the prefix names one.
    pub fn new(request: BuildRequest, quiet: bool, ncpus: usize, output_dir: Option<String>) -> (o:
        Orchestrator)
        ensures
            o@ == Machine::initial(
                request@,
                quiet,
                ncpus,
                match output_dir {
                    Some(dir) => Some(dir@),
                    None => None,
                },
            ),
    {
        let o = Orchestrator {
            request,
            quiet,
            ncpus,
            output_dir,
            step: Step::Idle,
            warnings: Vec::new(),
        };
        assert(o.warnings.deep_view() =~= Seq::<CleanupWarningView>::empty());
        o
    }

    /// A build of `request` that has not begun, for the machine that this
    /// runs on: it is asked for its logical CPUs, and the directory of the
    /// output is what its path syntax makes of the prefix under which the
    /// graph is written.
    pub fn on_this_machine(request: BuildRequest, quiet: bool) -> (o: Orchestrator)
        ensures
            o@ == Machine::initial(
                request@,
                quiet,
                o@.ncpus,
                path_parent(request@.output_prefix + graph_tag()),
            ),
            o@.ncpus >= 1,
    {
        let ncpus = logical_cpus();
        let graph_prefix = with_ending(request.output_prefix.as_str(), "_cfish");
        let output_dir = parent_of(graph_prefix.as_str());
        Orchestrator::new(request, quiet, ncpus, output_dir)
    }

    /// The request that is being built.
    pub fn request(&self) -> (request: &BuildRequest)
        ensures
            request@ == self@.request,
    {
        &self.request
    }

    /// The logical CPUs of the machine that the build is for.
    pub fn ncpus(&self) -> (ncpus: usize)
        ensures
            ncpus == self@.ncpus,
    {
        self.ncpus
    }

    /// What was asked last and is not answered yet.
    pub fn current(&self) -> (step: Step)
        ensures
            step == self@.step,
    {
        self.step
    }

    /// How far the build has come.
    pub fn phase(&self) -> (phase: Phase)
        ensures
            phase == self@.phase(),
    {
        match self.step {
            Step::Engine(Stage::Index) => Phase::GraphBuilt,
            Step::Engine(Stage::Poison) => Phase::IndexBuilt,
            Step::CleanupSegment | Step::CleanupSequence => {
                if self.request.decoy_paths.is_some() {
                    Phase::PoisonBuilt
                } else {
                    Phase::IndexBuilt
                }
            },
            Step::Done => Phase::Done,
            Step::Aborted => Phase::Aborted,
            _ => Phase::Idle,
        }
    }

    /// Whether nothing is left to do.
    pub fn ended(&self) -> (ended: bool)
        ensures
            ended == self@.ended(),
    {
        match self.step {
            Step::Done | Step::Aborted => true,
            _ => false,
        }
    }

    /// The intermediate files that could not be deleted so far.
    pub fn warnings(&self) -> (warnings: &Vec<CleanupWarning>)
        ensures
            warnings.deep_view() == self@.warnings,
    {
        &self.warnings
    }

    fn graph_path(&self, file: GraphFile) -> (path: String)
        ensures
            path@ == self@.graph_path(file),
    {
        let set = crate::artifacts::resolve(self.request.output_prefix.as_str());
        match file {
            GraphFile::Structure => set.structure,
            GraphFile::Segment => set.segment,
            GraphFile::Sequence => set.sequence,
        }
    }

    fn warn(&mut self, path: String, cause: String)
        ensures
            final(self)@ == old(self)@.warned(path@, cause@),
    {
        self.warnings.push(CleanupWarning { path, cause });
        assert(self.warnings.deep_view() =~= old(self).warnings.deep_view().push(
            CleanupWarningView { path: path@, cause: cause@ },
        ));
    }

    fn abort(&mut self, error: BuildError) -> (d: Directive)
        ensures
            (final(self)@, d@) == old(self)@.abort(error@),
    {
        self.step = Step::Aborted;
        Directive::Abort(error)
    }

    fn to_decoy(&mut self, i: usize) -> (d: Directive)
        ensures
            (final(self)@, d@) == old(self)@.to_decoy(i as int),
    {
        match &self.request.decoy_paths {
            Some(paths) => {
                if i < paths.len() {
                    let path = paths[i].clone();
                    assert(path@ == self@.request.decoys()[i as int]);
                    self.step = Step::Decoy(i);
                    return Directive::Probe(path);
                }
            },
            None => {},
        }
        self.to_references()
    }

    fn to_references(&mut self) -> (d: Directive)
        ensures
            (final(self)@, d@) == old(self)@.to_references(),
    {
        if let Err(e) = self.request.check_references() {
            return self.abort(BuildError::Configuration(e));
        }
        if let Err(e) = marshal(Stage::Graph, &self.request, self.quiet) {
            return self.abort(e);
        }
        if let Err(e) = marshal(Stage::Index, &self.request, self.quiet) {
            return self.abort(e);
        }
        if self.request.decoy_paths.is_some() {
            if let Err(e) = marshal(Stage::Poison, &self.request, self.quiet) {
                return self.abort(e);
            }
        }
        self.to_reconcile()
    }

    fn to_reconcile(&mut self) -> (d: Directive)
        ensures
            (final(self)@, d@) == old(self)@.to_reconcile(),
    {
        let path = self.graph_path(GraphFile::Structure);
        if self.request.overwrite {
            self.step = Step::StaleProbe(GraphFile::Structure);
        } else {
            self.step = Step::Conflict(GraphFile::Structure);
        }
        Directive::Probe(path)
    }

    fn after_stale(&mut self, file: GraphFile) -> (d: Directive)
        ensures
            (final(self)@, d@) == old(self)@.after_stale(file),
    {
        match file {
            GraphFile::Structure => {
                let path = self.graph_path(GraphFile::Segment);
                self.step = Step::StaleProbe(GraphFile::Segment);
                Directive::Probe(path)
            },
            GraphFile::Segment => {
                let path = self.graph_path(GraphFile::Sequence);
                self.step = Step::StaleProbe(GraphFile::Sequence);
                Directive::Probe(path)
            },
            GraphFile::Sequence => self.to_signing(),
        }
    }

    fn to_signing(&mut self) -> (d: Directive)
        ensures
            (final(self)@, d@) == old(self)@.to_signing(),
    {
        if self.request.ref_seqs.len() > 0 {
            let inputs = copy_of(&self.request.ref_seqs);
            let stem = with_ending(self.request.output_prefix.as_str(), ".sigs");
            self.step = Step::Signing;
            Directive::Sign { inputs, stem }
        } else {
            self.to_work_dir()
        }
    }

    fn to_work_dir(&mut self) -> (d: Directive)
        ensures
            (final(self)@, d@) == old(self)@.to_work_dir(),
    {
        let path = self.request.work_dir.clone();
        self.step = Step::WorkDirProbe;
        Directive::Probe(path)
    }

    fn to_output_dir(&mut self) -> (d: Directive)
        ensures
            (final(self)@, d@) == old(self)@.to_output_dir(),
    {
        match &self.output_dir {
            Some(dir) => {
                let path = dir.clone();
                self.step = Step::OutputDirProbe;
                Directive::Probe(path)
            },
            None => self.to_stage(Stage::Graph),
        }
    }

    fn to_stage(&mut self, stage: Stage) -> (d: Directive)
        ensures
            (final(self)@, d@) == old(self)@.to_stage(stage),
    {
        match marshal(stage, &self.request, self.quiet) {
            Ok(argv) => {
                self.step = Step::Engine(stage);
                Directive::Invoke { stage, argv }
            },
            Err(e) => self.abort(e),
        }
    }

    fn after_stage(&mut self, stage: Stage) -> (d: Directive)
        ensures
            (final(self)@, d@) == old(self)@.after_stage(stage),
    {
        match stage {
            Stage::Graph => self.to_stage(Stage::Index),
            Stage::Index => {
                if self.request.decoy_paths.is_some() {
                    self.to_stage(Stage::Poison)
                } else {
                    self.to_cleanup()
                }
            },
            Stage::Poison => self.to_cleanup(),
        }
    }

    fn to_cleanup(&mut self) -> (d: Directive)
        ensures
            (final(self)@, d@) == old(self)@.to_cleanup(),
    {
        if self.request.keep_intermediate {
            self.finish()
        } else {
            let path = self.graph_path(GraphFile::Segment);
            self.step = Step::CleanupSegment;
            Directive::Remove(path)
        }
    }

    fn to_cleanup_sequence(&mut self) -> (d: Directive)
        ensures
            (final(self)@, d@) == old(self)@.to_cleanup_sequence(),
    {
        let path = self.graph_path(GraphFile::Sequence);
        self.step = Step::CleanupSequence;
        Directive::Remove(path)
    }

    fn finish(&mut self) -> (d: Directive)
        ensures
            (final(self)@, d@) == old(self)@.finish(),
    {
        let set = crate::artifacts::resolve(self.request.output_prefix.as_str());
        self.step = Step::Done;
        Directive::Finish { version_manifest: set.version_manifest }
    }

    /// Takes the answer to the last directive and gives the next one.
    pub fn step(&mut self, event: Event) -> (d: Directive)
        ensures
            (final(self)@, d@) == transition(old(self)@, event@),
    {
        match self.step {
            Step::Done | Step::Aborted => Directive::Halt,
            Step::Idle => match event {
                Event::Start => match self.request.check_numbers(self.ncpus) {
                    Err(e) => self.abort(BuildError::Configuration(e)),
                    Ok(()) => self.to_decoy(0),
                },
                _ => self.abort(BuildError::OutOfTurn),
            },
            Step::Decoy(i) => match event {
                Event::Probed(probe) => {
                    let checked = match &self.request.decoy_paths {
                        Some(paths) => {
                            if i < paths.len() {
                                assert(paths[i as int]@ == self@.request.decoys()[i as int]);
                                Some(check_decoy(paths[i].as_str(), &probe))
                            } else {
                                None
                            }
                        },
                        None => None,
                    };
                    match checked {
                        Some(Ok(())) => self.to_decoy(i + 1),
                        Some(Err(e)) => self.abort(e),
                        None => self.abort(BuildError::OutOfTurn),
                    }
                },
                _ => self.abort(BuildError::OutOfTurn),
            },
            Step::StaleProbe(file) => match event {
                Event::Probed(Probe::Present) => {
                    let path = self.graph_path(file);
                    self.step = Step::StaleRemove(file);
                    Directive::Remove(path)
                },
                Event::Probed(_) => self.after_stale(file),
                _ => self.abort(BuildError::OutOfTurn),
            },
            Step::StaleRemove(file) => match event {
                Event::Succeeded => self.after_stale(file),
                Event::Failed(cause) => {
                    let path = self.graph_path(file);
                    self.abort(BuildError::Filesystem { path, cause })
                },
                _ => self.abort(BuildError::OutOfTurn),
            },
            Step::Conflict(file) => match event {
                Event::Probed(probe) => {
                    let present = match probe {
                        Probe::Present => true,
                        _ => false,
                    };
                    match file {
                        GraphFile::Structure => {
                            if present {
                                let path = self.graph_path(GraphFile::Sequence);
                                self.step = Step::Conflict(GraphFile::Sequence);
                                Directive::Probe(path)
                            } else {
                                self.to_signing()
                            }
                        },
                        GraphFile::Sequence => {
                            if present {
                                let path = self.graph_path(GraphFile::Segment);
                                self.step = Step::Conflict(GraphFile::Segment);
                                Directive::Probe(path)
                            } else {
                                let structure = self.graph_path(GraphFile::Structure);
                                self.abort(BuildError::Conflict { structure })
                            }
                        },
                        GraphFile::Segment => {
                            if present {
                                self.to_signing()
                            } else {
                                let structure = self.graph_path(GraphFile::Structure);
                                self.abort(BuildError::Conflict { structure })
                            }
                        },
                    }
                },
                _ => self.abort(BuildError::OutOfTurn),
            },
            Step::Signing => match event {
                Event::Succeeded => self.to_work_dir(),
                Event::Failed(cause) => self.abort(BuildError::Signature { cause }),
                _ => self.abort(BuildError::OutOfTurn),
            },
            Step::WorkDirProbe => match event {
                Event::Probed(Probe::Present) => self.to_output_dir(),
                Event::Probed(Probe::Absent) => {
                    let path = self.request.work_dir.clone();
                    self.step = Step::WorkDirCreate;
                    Directive::CreateDirs(path)
                },
                Event::Probed(Probe::Failed(cause)) => {
                    let path = self.request.work_dir.clone();
                    self.abort(BuildError::Filesystem { path, cause })
                },
                _ => self.abort(BuildError::OutOfTurn),
            },
            Step::WorkDirCreate => match event {
                Event::Succeeded => self.to_output_dir(),
                Event::Failed(cause) => {
                    let path = self.request.work_dir.clone();
                    self.abort(BuildError::Filesystem { path, cause })
                },
                _ => self.abort(BuildError::OutOfTurn),
            },
            Step::OutputDirProbe => match event {
                Event::Probed(probe) => {
                    let dir = match &self.output_dir {
                        Some(dir) => Some(dir.clone()),
                        None => None,
                    };
                    match (dir, probe) {
                        (Some(_), Probe::Present) => self.to_stage(Stage::Graph),
                        (Some(path), _) => {
                            self.step = Step::OutputDirCreate;
                            Directive::CreateDirs(path)
                        },
                        (None, _) => self.abort(BuildError::OutOfTurn),
                    }
                },
                _ => self.abort(BuildError::OutOfTurn),
            },
            Step::OutputDirCreate => match event {
                Event::Succeeded => self.to_stage(Stage::Graph),
                Event::Failed(cause) => {
                    let dir = match &self.output_dir {
                        Some(dir) => Some(dir.clone()),
                        None => None,
                    };
                    match dir {
                        Some(path) => self.abort(BuildError::Filesystem { path, cause }),
                        None => self.abort(BuildError::OutOfTurn),
                    }
                },
                _ => self.abort(BuildError::OutOfTurn),
            },
            Step::Engine(stage) => match event {
                Event::Exited(code) => {
                    if code == 0 {
                        self.after_stage(stage)
                    } else {
                        self.abort(BuildError::StageFailure { stage, exit_code: code })
                    }
                },
                _ => self.abort(BuildError::OutOfTurn),
            },
            Step::CleanupSegment => match event {
                Event::Succeeded => self.to_cleanup_sequence(),
                Event::Failed(cause) => {
                    let path = self.graph_path(GraphFile::Segment);
                    self.warn(path, cause);
                    self.to_cleanup_sequence()
                },
                _ => self.abort(BuildError::OutOfTurn),
            },
            Step::CleanupSequence => match event {
                Event::Succeeded => self.finish(),
                Event::Failed(cause) => {
                    let path = self.graph_path(GraphFile::Sequence);
                    self.warn(path, cause);
                    self.finish()
                },
                _ => self.abort(BuildError::OutOfTurn),
            },
        }
    }
}

} // verus!
