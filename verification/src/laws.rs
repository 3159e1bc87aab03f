//! What holds of every build, whatever the caller reports.
//!
//! A run is a build that starts in some state and is told a sequence of
//! events. The statements here are about all runs: all requests, all
//! machines, all sequences of events, fitting or not.

use crate::argv::stage_tokens;
use crate::artifacts::{law_paths_never_collide, path_of, Artifact};
use crate::error::BuildErrorView;
use crate::pipeline::{
    transition, unmarshalable_stage, DirectiveView, EventView, GraphFile, Machine, Step,
};
use crate::request::{
    acceptable, decoy_verdict, decoys_verdict, lemma_all_present, numeric_verdict, verdict,
    BuildRequestView, ProbeView,
};
use crate::stage::Stage;
use vstd::prelude::*;

verus! {

/// The state of the run from `m` after the first `k` of `events`.
pub open spec fn state_at(m: Machine, events: Seq<EventView>, k: nat) -> Machine
    decreases k,
{
    if k == 0 {
        m
    } else {
        transition(state_at(m, events, (k - 1) as nat), events[k - 1]).0
    }
}

/// The directive with which the run from `m` answers the event at place
/// `k`.
pub open spec fn directive_at(m: Machine, events: Seq<EventView>, k: nat) -> DirectiveView {
    transition(state_at(m, events, k), events[k as int]).1
}

/// How far along a step is: a build never goes back.
pub open spec fn rank(step: Step) -> nat {
    match step {
        Step::Idle => 0,
        Step::Decoy(_) => 1,
        Step::StaleProbe(GraphFile::Structure) => 2,
        Step::StaleRemove(GraphFile::Structure) => 3,
        Step::StaleProbe(GraphFile::Segment) => 4,
        Step::StaleRemove(GraphFile::Segment) => 5,
        Step::StaleProbe(GraphFile::Sequence) => 6,
        Step::StaleRemove(GraphFile::Sequence) => 7,
        Step::Conflict(GraphFile::Structure) => 2,
        Step::Conflict(GraphFile::Sequence) => 3,
        Step::Conflict(GraphFile::Segment) => 4,
        Step::Signing => 8,
        Step::WorkDirProbe => 9,
        Step::WorkDirCreate => 10,
        Step::OutputDirProbe => 11,
        Step::OutputDirCreate => 12,
        Step::Engine(Stage::Graph) => 13,
        Step::Engine(Stage::Index) => 14,
        Step::Engine(Stage::Poison) => 15,
        Step::CleanupSegment => 16,
        Step::CleanupSequence => 17,
        Step::Done => 18,
        Step::Aborted => 19,
    }
}

/// Whether a step lies behind the validation of the request.
pub open spec fn past_validation(step: Step) -> bool {
    rank(step) > rank(Step::Decoy(0))
}

/// Whether a step lies at or behind the first engine run.
pub open spec fn engines_begun(step: Step) -> bool {
    rank(step) >= rank(Step::Engine(Stage::Graph))
}

/// Whether a directive changes the file system.
pub open spec fn mutates(d: DirectiveView) -> bool {
    d is Remove || d is CreateDirs || d is Sign
}

/// Whether a directive only ends the build or says that it has ended.
pub open spec fn is_stop(d: DirectiveView) -> bool {
    d is Abort || d is Halt
}

/// Whether two states are of the same build: the same request on the
/// same machine.
pub open spec fn same_build(a: Machine, b: Machine) -> bool {
    &&& a.request == b.request
    &&& a.quiet == b.quiet
    &&& a.ncpus == b.ncpus
    &&& a.output_dir == b.output_dir
}

/// An event changes neither the request nor the machine that a build is
/// for, and it moves the build forward or leaves it where it is: strictly
/// forward, unless the build has ended or is going through its decoys.
pub proof fn law_steps_advance(m: Machine, event: EventView)
    ensures
        same_build(m, transition(m, event).0),
        rank(transition(m, event).0.step) >= rank(m.step),
        !m.ended() && !(m.step is Decoy) ==> rank(transition(m, event).0.step) > rank(m.step),
{
    match m.step {
        Step::Idle => {},
        Step::Decoy(_) => {},
        Step::StaleProbe(_) => {},
        Step::StaleRemove(_) => {},
        Step::Conflict(_) => {},
        Step::Signing => {},
        Step::WorkDirProbe => {},
        Step::WorkDirCreate => {},
        Step::OutputDirProbe => {},
        Step::OutputDirCreate => {},
        Step::Engine(_) => {},
        Step::CleanupSegment => {},
        Step::CleanupSequence => {},
        Step::Done => {},
        Step::Aborted => {},
    }
}

/// What holds of every state that a build can come to: it is past
/// validation only with a request that meets the rules and whose command
/// lines can be handed over, it clears stale files only where overwriting
/// was asked for and checks for a conflict only where not, and it holds no
/// warning before the tidying up.
pub open spec fn sound(m: Machine) -> bool {
    &&& past_validation(m.step) && m.step != Step::Aborted ==> acceptable(m.request, m.ncpus)
        && unmarshalable_stage(m.request, m.quiet) is None
    &&& m.step is Decoy ==> numeric_verdict(m.request, m.ncpus) is None && m.step->Decoy_0
        < m.request.decoys().len()
    &&& m.step is StaleProbe || m.step is StaleRemove ==> m.request.overwrite
    &&& m.step is Conflict ==> !m.request.overwrite
    &&& m.step == Step::Signing ==> m.request.ref_seqs.len() > 0
    &&& m.step == Step::OutputDirProbe || m.step == Step::OutputDirCreate ==> m.output_dir is Some
    &&& m.step == Step::Engine(Stage::Poison) ==> m.request.decoy_paths is Some
    &&& rank(m.step) < rank(Step::CleanupSegment) ==> m.warnings.len() == 0
}

/// A build that has not begun is sound, and an event leaves a sound build
/// sound.
pub proof fn law_soundness_is_kept(m: Machine, event: EventView)
    ensures
        m.step == Step::Idle && m.warnings.len() == 0 ==> sound(m),
        sound(m) ==> sound(transition(m, event).0),
{
    if sound(m) {
        match m.step {
            Step::Idle => {},
            Step::Decoy(_) => {},
            Step::StaleProbe(_) => {},
            Step::StaleRemove(_) => {},
            Step::Conflict(_) => {},
            Step::Signing => {},
            Step::WorkDirProbe => {},
            Step::WorkDirCreate => {},
            Step::OutputDirProbe => {},
            Step::OutputDirCreate => {},
            Step::Engine(_) => {},
            Step::CleanupSegment => {},
            Step::CleanupSequence => {},
            Step::Done => {},
            Step::Aborted => {},
        }
    }
}

/// What a directive tells of the step that gave it and of the step that
/// waits for its answer. In particular, a build that could come to where it
/// is refuses a request only in validation, and once the first engine runs it
/// fails only over an engine or over an answer out of turn.
pub proof fn law_directive_fits(m: Machine, event: EventView)
    ensures
        ({
            let (after, d) = transition(m, event);
            &&& d is Halt <==> m.ended()
            &&& d is Abort <==> !m.ended() && after.step == Step::Aborted
            &&& d is Finish <==> !m.ended() && after.step == Step::Done
            &&& d is Invoke <==> after.step is Engine
            &&& d is Invoke ==> d->stage == after.step->Engine_0
            &&& d is Sign <==> after.step == Step::Signing
            &&& d is CreateDirs <==> (after.step == Step::WorkDirCreate || after.step
                == Step::OutputDirCreate)
            &&& d is Remove <==> (after.step is StaleRemove || after.step == Step::CleanupSegment
                || after.step == Step::CleanupSequence)
            &&& d is Abort && d->Abort_0 is Conflict ==> m.step is Conflict
            &&& d is Abort && d->Abort_0 is StageFailure ==> m.step is Engine
            &&& sound(m) && d is Abort && (d->Abort_0 is Configuration || d->Abort_0 is Input
                || d->Abort_0 is Marshal) ==> !past_validation(m.step)
            &&& sound(m) && d is Abort && engines_begun(m.step) ==> (d->Abort_0 is StageFailure
                || d->Abort_0 is OutOfTurn)
        }),
{
    match m.step {
        Step::Idle => {},
        Step::Decoy(_) => {},
        Step::StaleProbe(_) => {},
        Step::StaleRemove(_) => {},
        Step::Conflict(_) => {},
        Step::Signing => {},
        Step::WorkDirProbe => {},
        Step::WorkDirCreate => {},
        Step::OutputDirProbe => {},
        Step::OutputDirCreate => {},
        Step::Engine(_) => {},
        Step::CleanupSegment => {},
        Step::CleanupSequence => {},
        Step::Done => {},
        Step::Aborted => {},
    }
}

/// Every state of a run from a sound state is sound and of the same build.
pub proof fn law_run_is_sound(m: Machine, events: Seq<EventView>, k: nat)
    requires
        sound(m),
    ensures
        sound(state_at(m, events, k)),
        same_build(m, state_at(m, events, k)),
    decreases k,
{
    if k > 0 {
        let before = state_at(m, events, (k - 1) as nat);
        law_run_is_sound(m, events, (k - 1) as nat);
        law_soundness_is_kept(before, events[k - 1]);
        law_steps_advance(before, events[k - 1]);
    }
}

/// A run never goes back: a later state is at least as far along as an
/// earlier one.
pub proof fn law_run_advances(m: Machine, events: Seq<EventView>, i: nat, j: nat)
    requires
        i <= j,
    ensures
        rank(state_at(m, events, i).step) <= rank(state_at(m, events, j).step),
    decreases j,
{
    if i < j {
        law_run_advances(m, events, i, (j - 1) as nat);
        law_steps_advance(state_at(m, events, (j - 1) as nat), events[j - 1]);
    }
}

/// After a directive that ends the build, the build has ended, and a build
/// that has ended only says so: nothing is probed, changed or run any more.
pub proof fn law_end_is_final(m: Machine, events: Seq<EventView>, k: nat, j: nat)
    requires
        k < j,
        is_stop(directive_at(m, events, k)) || directive_at(m, events, k) is Finish,
    ensures
        state_at(m, events, j).ended(),
        directive_at(m, events, j) is Halt,
{
    law_directive_fits(state_at(m, events, k), events[k as int]);
    assert(state_at(m, events, k + 1).ended());
    law_run_advances(m, events, k + 1, j);
    law_directive_fits(state_at(m, events, j), events[j as int]);
}

/// A request that breaks the rule on the thread count or the rule on the
/// two lengths is refused at once, as invalid, and whatever the build is told
/// then, it asks for nothing: no path is looked at, no file or directory is
/// touched, no engine is run.
pub proof fn law_bad_numbers_change_nothing(
    request: BuildRequestView,
    quiet: bool,
    ncpus: usize,
    output_dir: Option<Seq<char>>,
    events: Seq<EventView>,
    k: nat,
)
    requires
        request.threads == 0 || request.threads > ncpus || request.mlen >= request.klen,
    ensures
        is_stop(directive_at(Machine::initial(request, quiet, ncpus, output_dir), events, k)),
        events[0] is Start ==> directive_at(
            Machine::initial(request, quiet, ncpus, output_dir),
            events,
            0,
        ) == DirectiveView::Abort(
            BuildErrorView::Configuration(numeric_verdict(request, ncpus)->0),
        ),
{
    let m = Machine::initial(request, quiet, ncpus, output_dir);
    assert(is_stop(directive_at(m, events, 0)));
    if k > 0 {
        law_end_is_final(m, events, 0, k);
    }
}

/// A build that is refused in validation, as invalid, for a decoy or for a
/// token that holds a NUL character, has changed nothing and run nothing
/// before, and does neither afterwards.
pub proof fn law_rejection_changes_nothing(
    request: BuildRequestView,
    quiet: bool,
    ncpus: usize,
    output_dir: Option<Seq<char>>,
    events: Seq<EventView>,
    k: nat,
    i: nat,
)
    requires
        ({
            let d = directive_at(Machine::initial(request, quiet, ncpus, output_dir), events, k);
            d is Abort && (d->Abort_0 is Configuration || d->Abort_0 is Input || d->Abort_0
                is Marshal)
        }),
    ensures
        ({
            let d = directive_at(Machine::initial(request, quiet, ncpus, output_dir), events, i);
            !mutates(d) && !(d is Invoke)
        }),
{
    let m = Machine::initial(request, quiet, ncpus, output_dir);
    law_soundness_is_kept(m, events[0]);
    law_run_is_sound(m, events, k);
    law_directive_fits(state_at(m, events, k), events[k as int]);
    if i < k {
        law_run_advances(m, events, i + 1, k);
        law_directive_fits(state_at(m, events, i), events[i as int]);
    } else if i > k {
        law_end_is_final(m, events, k, i);
    }
}

/// A build that stops over the structure file of an earlier build has
/// changed nothing and run nothing before, and does neither afterwards.
pub proof fn law_conflict_blocks_build(
    request: BuildRequestView,
    quiet: bool,
    ncpus: usize,
    output_dir: Option<Seq<char>>,
    events: Seq<EventView>,
    k: nat,
    i: nat,
)
    requires
        ({
            let d = directive_at(Machine::initial(request, quiet, ncpus, output_dir), events, k);
            d is Abort && d->Abort_0 is Conflict
        }),
    ensures
        !request.overwrite,
        ({
            let d = directive_at(Machine::initial(request, quiet, ncpus, output_dir), events, i);
            !mutates(d) && !(d is Invoke)
        }),
{
    let m = Machine::initial(request, quiet, ncpus, output_dir);
    law_soundness_is_kept(m, events[0]);
    law_run_is_sound(m, events, k);
    law_directive_fits(state_at(m, events, k), events[k as int]);
    if i < k {
        law_run_advances(m, events, i + 1, k);
        law_run_is_sound(m, events, i + 1);
        law_directive_fits(state_at(m, events, i), events[i as int]);
    } else if i > k {
        law_end_is_final(m, events, k, i);
    }
}

/// When the structure file of an earlier build is looked for because it may
/// not be overwritten, the build goes on if that file is missing or if the
/// sequence and segment files are both there, and stops over the conflict
/// otherwise. `structure`, `sequence` and `segment` say what the looks show;
/// the second look is made only if the first found the file, the third only
/// if the second did.
pub proof fn law_conflict_rule(
    m: Machine,
    structure: ProbeView,
    sequence: ProbeView,
    segment: ProbeView,
)
    requires
        m.step == Step::Conflict(GraphFile::Structure),
    ensures
        ({
            let events = seq![
                EventView::Probed(structure),
                EventView::Probed(sequence),
                EventView::Probed(segment),
            ];
            let conflict = DirectiveView::Abort(
                BuildErrorView::Conflict { structure: m.graph_path(GraphFile::Structure) },
            );
            if !(structure is Present) {
                directive_at(m, events, 0) == m.to_signing().1
            } else if !(sequence is Present) {
                &&& directive_at(m, events, 0) == DirectiveView::Probe(
                    m.graph_path(GraphFile::Sequence),
                )
                &&& directive_at(m, events, 1) == conflict
            } else if !(segment is Present) {
                &&& directive_at(m, events, 0) == DirectiveView::Probe(
                    m.graph_path(GraphFile::Sequence),
                )
                &&& directive_at(m, events, 1) == DirectiveView::Probe(
                    m.graph_path(GraphFile::Segment),
                )
                &&& directive_at(m, events, 2) == conflict
            } else {
                directive_at(m, events, 2) == m.to_signing().1
            }
        }),
{
    let events = seq![
        EventView::Probed(structure),
        EventView::Probed(sequence),
        EventView::Probed(segment),
    ];
    reveal_with_fuel(state_at, 3);
    assert(state_at(m, events, 0) == m);
    let m1 = state_at(m, events, 1);
    assert(m1 == transition(m, events[0]).0);
    let m2 = state_at(m, events, 2);
    assert(m2 == transition(m1, events[1]).0);
}

/// An engine that returns a code other than zero ends the build: the
/// directive names the stage and the code, and no later directive asks for
/// anything. No engine was run before but those of earlier stages and this
/// one, each once.
pub proof fn law_stage_failure_is_final(
    m: Machine,
    events: Seq<EventView>,
    k: nat,
    stage: Stage,
    code: i32,
    i: nat,
)
    requires
        state_at(m, events, k).step == Step::Engine(stage),
        events[k as int] == EventView::Exited(code),
        code != 0,
    ensures
        directive_at(m, events, k) == DirectiveView::Abort(
            BuildErrorView::StageFailure { stage, exit_code: code },
        ),
        i > k ==> directive_at(m, events, i) is Halt,
        i < k && directive_at(m, events, i) is Invoke ==> rank(
            Step::Engine(directive_at(m, events, i)->stage),
        ) <= rank(Step::Engine(stage)),
{
    if i > k {
        law_end_is_final(m, events, k, i);
    }
    if i < k {
        law_directive_fits(state_at(m, events, i), events[i as int]);
        law_run_advances(m, events, i + 1, k);
    }
}

/// The engines run in the order graph, index, poison, none of them twice:
/// of two engine runs in one build, the later one is of a later stage.
pub proof fn law_engines_run_in_order(m: Machine, events: Seq<EventView>, i: nat, j: nat)
    requires
        i < j,
        directive_at(m, events, i) is Invoke,
        directive_at(m, events, j) is Invoke,
    ensures
        rank(Step::Engine(directive_at(m, events, i)->stage)) < rank(
            Step::Engine(directive_at(m, events, j)->stage),
        ),
{
    law_directive_fits(state_at(m, events, i), events[i as int]);
    law_directive_fits(state_at(m, events, j), events[j as int]);
    law_run_advances(m, events, i + 1, j);
    law_steps_advance(state_at(m, events, j), events[j as int]);
}

/// No stage starts before the stage before it has reported success: the
/// index engine is run only in answer to a zero from the graph engine, the
/// poison engine only in answer to a zero from the index engine and only
/// where decoys were declared, and the graph engine only when the
/// directories are seen or made.
pub proof fn law_stage_needs_success(m: Machine, event: EventView)
    requires
        transition(m, event).1 is Invoke,
    ensures
        match transition(m, event).1->stage {
            Stage::Graph => rank(Step::WorkDirProbe) <= rank(m.step) <= rank(
                Step::OutputDirCreate,
            ) && (event is Succeeded || (event is Probed && event->Probed_0 is Present)),
            Stage::Index => m.step == Step::Engine(Stage::Graph) && event == EventView::Exited(0),
            Stage::Poison => m.step == Step::Engine(Stage::Index) && event == EventView::Exited(
                0,
            ) && m.request.decoy_paths is Some,
        },
{
    match m.step {
        Step::Idle => {},
        Step::Decoy(_) => {},
        Step::StaleProbe(_) => {},
        Step::StaleRemove(_) => {},
        Step::Conflict(_) => {},
        Step::Signing => {},
        Step::WorkDirProbe => {},
        Step::WorkDirCreate => {},
        Step::OutputDirProbe => {},
        Step::OutputDirCreate => {},
        Step::Engine(_) => {},
        Step::CleanupSegment => {},
        Step::CleanupSequence => {},
        Step::Done => {},
        Step::Aborted => {},
    }
}

/// An intermediate file that cannot be deleted after the last stage does
/// not fail the build: the failure is noted as a warning with its path and
/// cause, and the build goes on to its end as if the file were gone.
pub proof fn law_cleanup_failure_is_noted(m: Machine, cause: Seq<char>)
    requires
        m.step == Step::CleanupSegment || m.step == Step::CleanupSequence,
    ensures
        ({
            let (after, d) = transition(m, EventView::Failed(cause));
            let (fine, asked) = transition(m, EventView::Succeeded);
            let file = if m.step == Step::CleanupSegment {
                GraphFile::Segment
            } else {
                GraphFile::Sequence
            };
            &&& d == asked
            &&& after == fine.warned(m.graph_path(file), cause)
            &&& after.step != Step::Aborted
            &&& fine.warnings == m.warnings
        }),
{
}

/// Once the last stage has succeeded the build succeeds, whether the two
/// intermediate files can be deleted or not: after the answers for the
/// segment file and for the sequence file the build is done, and there is
/// one warning for each file that could not be deleted. The structure file
/// is never asked to be deleted.
pub proof fn law_cleanup_ends_in_success(m: Machine, first: EventView, second: EventView)
    requires
        m.step == Step::CleanupSegment,
        first is Succeeded || first is Failed,
        second is Succeeded || second is Failed,
    ensures
        ({
            let events = seq![first, second];
            let failures: nat = if first is Failed { 1nat } else { 0nat };
            let more: nat = if second is Failed { 1nat } else { 0nat };
            &&& directive_at(m, events, 0) == DirectiveView::Remove(
                m.graph_path(GraphFile::Sequence),
            )
            &&& directive_at(m, events, 1) == DirectiveView::Finish {
                version_manifest: m.paths().version_manifest,
            }
            &&& state_at(m, events, 2).step == Step::Done
            &&& state_at(m, events, 2).warnings.len() == m.warnings.len() + failures + more
        }),
{
    let events = seq![first, second];
    reveal_with_fuel(state_at, 3);
    assert(state_at(m, events, 0) == m);
    let m1 = state_at(m, events, 1);
    assert(m1 == transition(m, events[0]).0);
    let m2 = state_at(m, events, 2);
    assert(m2 == transition(m1, events[1]).0);
}

/// Whether the run from `m` deals with the stale `file` at place `i`: the
/// file is looked for there, and if the look finds it, the build asks to
/// delete it and is told that it is gone.
pub open spec fn cleared_at(m: Machine, events: Seq<EventView>, i: nat, file: GraphFile) -> bool {
    &&& state_at(m, events, i).step == Step::StaleProbe(file)
    &&& events[i as int] is Probed
    &&& events[i as int]->Probed_0 is Present ==> {
        &&& directive_at(m, events, i) == DirectiveView::Remove(m.graph_path(file))
        &&& events[i as int + 1] == EventView::Succeeded
    }
}

/// In a build that may overwrite, a state past the clearing of `file` is
/// reached only through that clearing.
proof fn lemma_cleared_before(
    request: BuildRequestView,
    quiet: bool,
    ncpus: usize,
    output_dir: Option<Seq<char>>,
    events: Seq<EventView>,
    k: nat,
    file: GraphFile,
)
    requires
        request.overwrite,
        rank(state_at(Machine::initial(request, quiet, ncpus, output_dir), events, k).step) > rank(
            Step::StaleRemove(file),
        ),
        state_at(Machine::initial(request, quiet, ncpus, output_dir), events, k).step
            != Step::Aborted,
    ensures
        exists|i: nat|
            i < k && cleared_at(
                Machine::initial(request, quiet, ncpus, output_dir),
                events,
                i,
                file,
            ),
    decreases k,
{
    let m = Machine::initial(request, quiet, ncpus, output_dir);
    law_soundness_is_kept(m, events[0]);
    assert(k > 0);
    let j = (k - 1) as nat;
    let before = state_at(m, events, j);
    let event = events[j as int];
    law_run_is_sound(m, events, j);
    law_steps_advance(before, event);
    if rank(before.step) > rank(Step::StaleRemove(file)) {
        lemma_cleared_before(request, quiet, ncpus, output_dir, events, j, file);
        let i = choose|i: nat| i < j && cleared_at(m, events, i, file);
        assert(i < k && cleared_at(m, events, i, file));
    } else if before.step == Step::StaleProbe(file) {
        assert(cleared_at(m, events, j, file));
    } else if before.step == Step::StaleRemove(file) {
        assert(j > 0);
        let earlier = state_at(m, events, (j - 1) as nat);
        law_run_is_sound(m, events, (j - 1) as nat);
        lemma_removal_follows_look(earlier, events[j - 1]);
        assert(cleared_at(m, events, (j - 1) as nat, file));
    } else {
        match before.step {
            Step::Idle => {},
            Step::Decoy(_) => {},
            Step::StaleProbe(_) => {},
            Step::StaleRemove(_) => {},
            _ => {},
        }
        assert(false);
    }
}

/// A stale file is asked to be deleted only in answer to a look that found
/// it.
proof fn lemma_removal_follows_look(m: Machine, event: EventView)
    requires
        transition(m, event).0.step is StaleRemove,
    ensures
        m.step == Step::StaleProbe(transition(m, event).0.step->StaleRemove_0),
        event is Probed && event->Probed_0 is Present,
        transition(m, event).1 == DirectiveView::Remove(
            m.graph_path(transition(m, event).0.step->StaleRemove_0),
        ),
{
    match m.step {
        Step::Idle => {},
        Step::Decoy(_) => {},
        Step::StaleProbe(_) => {},
        Step::StaleRemove(_) => {},
        Step::Conflict(_) => {},
        Step::Signing => {},
        Step::WorkDirProbe => {},
        Step::WorkDirCreate => {},
        Step::OutputDirProbe => {},
        Step::OutputDirCreate => {},
        Step::Engine(_) => {},
        Step::CleanupSegment => {},
        Step::CleanupSequence => {},
        Step::Done => {},
        Step::Aborted => {},
    }
}

/// In a build that may overwrite, each of the three graph files of an
/// earlier build is out of the way before the first engine runs: before any
/// engine is asked for, the file was looked for, and where the look found it,
/// the build asked to delete it and was told that it is gone.
pub proof fn law_overwrite_clears_stale_files(
    request: BuildRequestView,
    quiet: bool,
    ncpus: usize,
    output_dir: Option<Seq<char>>,
    events: Seq<EventView>,
    k: nat,
    file: GraphFile,
)
    requires
        request.overwrite,
        directive_at(Machine::initial(request, quiet, ncpus, output_dir), events, k) is Invoke,
    ensures
        exists|i: nat|
            i < k && cleared_at(
                Machine::initial(request, quiet, ncpus, output_dir),
                events,
                i,
                file,
            ),
{
    let m = Machine::initial(request, quiet, ncpus, output_dir);
    let before = state_at(m, events, k);
    law_stage_needs_success(before, events[k as int]);
    lemma_cleared_before(request, quiet, ncpus, output_dir, events, k, file);
}

/// Whether `events` tell a build to start and then what a look at each
/// decoy showed, as `probes` holds it.
pub open spec fn answers_decoys(
    request: BuildRequestView,
    probes: Seq<ProbeView>,
    events: Seq<EventView>,
) -> bool {
    &&& events.len() > request.decoys().len()
    &&& events[0] is Start
    &&& forall|i: int|
        0 <= i < request.decoys().len() ==> #[trigger] events[i + 1] == EventView::Probed(probes[i])
}

/// As long as the decoys are in place the build looks at one after the
/// other, and after the last it turns to the references.
proof fn lemma_decoys_walk(
    request: BuildRequestView,
    quiet: bool,
    ncpus: usize,
    output_dir: Option<Seq<char>>,
    probes: Seq<ProbeView>,
    events: Seq<EventView>,
    k: nat,
)
    requires
        numeric_verdict(request, ncpus) is None,
        request.decoys().len() <= usize::MAX,
        answers_decoys(request, probes, events),
        k <= request.decoys().len(),
        forall|i: int| 0 <= i < k ==> #[trigger] probes[i] is Present,
    ensures
        ({
            let m = Machine::initial(request, quiet, ncpus, output_dir);
            &&& state_at(m, events, k) == if k == 0 {
                m
            } else {
                m.at(Step::Decoy((k - 1) as usize))
            }
            &&& k < request.decoys().len() ==> directive_at(m, events, k) == DirectiveView::Probe(
                request.decoys()[k as int],
            ) && state_at(m, events, k + 1) == m.at(Step::Decoy(k as usize))
            &&& k == request.decoys().len() ==> (state_at(m, events, k + 1), directive_at(
                m,
                events,
                k,
            )) == m.to_references()
        }),
    decreases k,
{
    let m = Machine::initial(request, quiet, ncpus, output_dir);
    if k > 0 {
        lemma_decoys_walk(request, quiet, ncpus, output_dir, probes, events, (k - 1) as nat);
        let j = (k - 1) as nat;
        assert(state_at(m, events, k) == transition(state_at(m, events, j), events[j as int]).0);
        if j > 0 {
            assert(events[(j - 1) + 1] == EventView::Probed(probes[j - 1]));
            assert(probes[j - 1] is Present);
        }
        assert(state_at(m, events, k) == m.at(Step::Decoy(j as usize)));
        assert(events[j as int + 1] == EventView::Probed(probes[j as int]));
        assert(probes[j as int] is Present);
        assert(m.at(Step::Decoy(j as usize)).to_decoy(k as int) == m.to_decoy(k as int));
        assert(m.at(Step::Decoy(j as usize)).to_references() == m.to_references());
    }
}

/// The place of the first decoy from `from` on that is not in place.
proof fn lemma_first_bad_decoy(paths: Seq<Seq<char>>, probes: Seq<ProbeView>, from: int) -> (b:
    int)
    requires
        0 <= from,
        decoys_verdict(paths, probes, from) is Some,
    ensures
        from <= b < paths.len(),
        forall|i: int| from <= i < b ==> #[trigger] probes[i] is Present,
        decoy_verdict(paths[b], probes[b]) == decoys_verdict(paths, probes, from),
    decreases paths.len() - from,
{
    if decoy_verdict(paths[from], probes[from]) is Some {
        from
    } else {
        lemma_first_bad_decoy(paths, probes, from + 1)
    }
}

/// A build refuses exactly what the rules refuse, for the same reason and
/// at the first rule that objects: it looks at the decoys in turn up to the
/// one that is not in place, if there is one, and stops with what the rules
/// say of the request. The place of the refusal in the run is handed back.
pub proof fn law_build_refuses_what_the_rules_refuse(
    request: BuildRequestView,
    quiet: bool,
    ncpus: usize,
    output_dir: Option<Seq<char>>,
    probes: Seq<ProbeView>,
    events: Seq<EventView>,
) -> (k: nat)
    requires
        request.decoys().len() <= usize::MAX,
        answers_decoys(request, probes, events),
        verdict(request, ncpus, probes) is Err,
    ensures
        k <= request.decoys().len(),
        directive_at(Machine::initial(request, quiet, ncpus, output_dir), events, k)
            == DirectiveView::Abort(verdict(request, ncpus, probes)->Err_0),
        forall|j: nat|
            j < k ==> #[trigger] directive_at(
                Machine::initial(request, quiet, ncpus, output_dir),
                events,
                j,
            ) == DirectiveView::Probe(request.decoys()[j as int]),
{
    let m = Machine::initial(request, quiet, ncpus, output_dir);
    let refusal = DirectiveView::Abort(verdict(request, ncpus, probes)->Err_0);
    let n = request.decoys().len();
    if numeric_verdict(request, ncpus) is Some {
        assert(directive_at(m, events, 0) == refusal);
        0
    } else if decoys_verdict(request.decoys(), probes, 0) is Some {
        let b = lemma_first_bad_decoy(request.decoys(), probes, 0);
        let k = (b + 1) as nat;
        lemma_decoys_walk(request, quiet, ncpus, output_dir, probes, events, b as nat);
        assert(state_at(m, events, k) == m.at(Step::Decoy(b as usize)));
        assert(events[b + 1] == EventView::Probed(probes[b]));
        assert(directive_at(m, events, k) == refusal);
        assert forall|j: nat| j < k implies #[trigger] directive_at(m, events, j)
            == DirectiveView::Probe(request.decoys()[j as int]) by {
            lemma_decoys_walk(request, quiet, ncpus, output_dir, probes, events, j);
        }
        k
    } else {
        lemma_all_present(request.decoys(), probes, 0);
        lemma_decoys_walk(request, quiet, ncpus, output_dir, probes, events, n);
        assert(directive_at(m, events, n) == refusal);
        assert forall|j: nat| j < n implies #[trigger] directive_at(m, events, j)
            == DirectiveView::Probe(request.decoys()[j as int]) by {
            lemma_decoys_walk(request, quiet, ncpus, output_dir, probes, events, j);
        }
        n
    }
}

/// A request that meets the rules passes validation: with a thread count
/// that the machine has, a minimizer shorter than the k-mer, references in
/// exactly one form, every decoy in place and no NUL character in a token,
/// the build looks at each decoy in turn and then turns to what an earlier
/// build left, without a refusal.
pub proof fn law_valid_request_passes(
    request: BuildRequestView,
    quiet: bool,
    ncpus: usize,
    output_dir: Option<Seq<char>>,
    probes: Seq<ProbeView>,
    events: Seq<EventView>,
    k: nat,
)
    requires
        verdict(request, ncpus, probes) is Ok,
        unmarshalable_stage(request, quiet) is None,
        request.decoys().len() <= usize::MAX,
        answers_decoys(request, probes, events),
        k <= request.decoys().len(),
    ensures
        ({
            let m = Machine::initial(request, quiet, ncpus, output_dir);
            &&& k < request.decoys().len() ==> directive_at(m, events, k) == DirectiveView::Probe(
                request.decoys()[k as int],
            )
            &&& k == request.decoys().len() ==> (state_at(m, events, k + 1), directive_at(
                m,
                events,
                k,
            )) == m.to_reconcile()
        }),
{
    lemma_all_present(request.decoys(), probes, 0);
    lemma_decoys_walk(request, quiet, ncpus, output_dir, probes, events, k);
}

/// How much of a build lies behind a state: every event that does not find
/// the build ended adds to it.
pub open spec fn progress(m: Machine) -> nat {
    match m.step {
        Step::Idle => 0,
        Step::Decoy(i) => 1 + i as nat,
        _ => m.request.decoys().len() + rank(m.step),
    }
}

/// The most events that a build of `request` takes before it has ended.
pub open spec fn longest_run(request: BuildRequestView) -> nat {
    request.decoys().len() + rank(Step::Done)
}

/// Every event moves a build that could come to where it is, and that has
/// not ended, strictly on.
proof fn lemma_progress_grows(m: Machine, event: EventView)
    requires
        sound(m),
        !m.ended(),
        m.request.decoys().len() <= usize::MAX,
    ensures
        progress(transition(m, event).0) > progress(m),
{
    match m.step {
        Step::Idle => {},
        Step::Decoy(_) => {},
        Step::StaleProbe(_) => {},
        Step::StaleRemove(_) => {},
        Step::Conflict(_) => {},
        Step::Signing => {},
        Step::WorkDirProbe => {},
        Step::WorkDirCreate => {},
        Step::OutputDirProbe => {},
        Step::OutputDirCreate => {},
        Step::Engine(_) => {},
        Step::CleanupSegment => {},
        Step::CleanupSequence => {},
        Step::Done => {},
        Step::Aborted => {},
    }
}

/// After `k` events a build has ended or has made at least `k` steps of
/// progress.
proof fn lemma_progress_keeps_pace(
    request: BuildRequestView,
    quiet: bool,
    ncpus: usize,
    output_dir: Option<Seq<char>>,
    events: Seq<EventView>,
    k: nat,
)
    requires
        request.decoys().len() <= usize::MAX,
    ensures
        ({
            let m = state_at(Machine::initial(request, quiet, ncpus, output_dir), events, k);
            m.ended() || progress(m) >= k
        }),
    decreases k,
{
    let start = Machine::initial(request, quiet, ncpus, output_dir);
    if k > 0 {
        let j = (k - 1) as nat;
        lemma_progress_keeps_pace(request, quiet, ncpus, output_dir, events, j);
        law_soundness_is_kept(start, events[0]);
        law_run_is_sound(start, events, j);
        let before = state_at(start, events, j);
        if before.ended() {
            law_directive_fits(before, events[j as int]);
        } else {
            lemma_progress_grows(before, events[j as int]);
        }
    }
}

/// Every build ends, and soon: whatever it is told, after one event for the
/// start, one for each decoy and one for each step of the way it has
/// succeeded or failed. Nothing is tried twice.
pub proof fn law_every_build_ends(
    request: BuildRequestView,
    quiet: bool,
    ncpus: usize,
    output_dir: Option<Seq<char>>,
    events: Seq<EventView>,
    k: nat,
)
    requires
        request.decoys().len() <= usize::MAX,
        k >= longest_run(request),
    ensures
        state_at(Machine::initial(request, quiet, ncpus, output_dir), events, k).ended(),
{
    let start = Machine::initial(request, quiet, ncpus, output_dir);
    lemma_progress_keeps_pace(request, quiet, ncpus, output_dir, events, k);
    law_soundness_is_kept(start, events[0]);
    law_run_is_sound(start, events, k);
}

/// Whether `event` is an answer on which a build at `m` goes on: what was
/// looked for where it must be there is there, what was to be done is done,
/// and the engine returned zero. After the last stage both answers to a
/// deletion are welcome.
pub open spec fn welcome(m: Machine, event: EventView) -> bool {
    match m.step {
        Step::Idle => event is Start,
        Step::Decoy(_) => event == EventView::Probed(ProbeView::Present),
        Step::StaleProbe(_) => event is Probed,
        Step::StaleRemove(_) => event is Succeeded,
        Step::Conflict(GraphFile::Structure) => event is Probed,
        Step::Conflict(_) => event == EventView::Probed(ProbeView::Present),
        Step::Signing => event is Succeeded,
        Step::WorkDirProbe => event is Probed && !(event->Probed_0 is Failed),
        Step::WorkDirCreate => event is Succeeded,
        Step::OutputDirProbe => event is Probed,
        Step::OutputDirCreate => event is Succeeded,
        Step::Engine(_) => event == EventView::Exited(0),
        Step::CleanupSegment | Step::CleanupSequence => event is Succeeded || event is Failed,
        Step::Done | Step::Aborted => true,
    }
}

/// A build of a request that meets the rules does not fail on a welcome
/// answer.
proof fn lemma_welcome_goes_on(m: Machine, event: EventView)
    requires
        sound(m),
        acceptable(m.request, m.ncpus),
        unmarshalable_stage(m.request, m.quiet) is None,
        m.step != Step::Aborted,
        welcome(m, event),
    ensures
        transition(m, event).0.step != Step::Aborted,
{
    match m.step {
        Step::Idle => {},
        Step::Decoy(_) => {},
        Step::StaleProbe(_) => {},
        Step::StaleRemove(_) => {},
        Step::Conflict(_) => {},
        Step::Signing => {},
        Step::WorkDirProbe => {},
        Step::WorkDirCreate => {},
        Step::OutputDirProbe => {},
        Step::OutputDirCreate => {},
        Step::Engine(_) => {},
        Step::CleanupSegment => {},
        Step::CleanupSequence => {},
        Step::Done => {},
        Step::Aborted => {},
    }
}

/// A build whose request meets the rules, and which gets a welcome answer
/// to everything it asks, succeeds: it never fails, and after the longest
/// run that a build of its request can take it is done. This holds for
/// every request, machine and state of the file system, and of every
/// sequence of such answers.
pub proof fn law_welcome_answers_finish_the_build(
    request: BuildRequestView,
    quiet: bool,
    ncpus: usize,
    output_dir: Option<Seq<char>>,
    events: Seq<EventView>,
    k: nat,
)
    requires
        acceptable(request, ncpus),
        unmarshalable_stage(request, quiet) is None,
        request.decoys().len() <= usize::MAX,
        forall|j: nat|
            j < k ==> welcome(
                #[trigger] state_at(Machine::initial(request, quiet, ncpus, output_dir), events, j),
                events[j as int],
            ),
    ensures
        state_at(Machine::initial(request, quiet, ncpus, output_dir), events, k).step
            != Step::Aborted,
        k >= longest_run(request) ==> state_at(
            Machine::initial(request, quiet, ncpus, output_dir),
            events,
            k,
        ).step == Step::Done,
    decreases k,
{
    let start = Machine::initial(request, quiet, ncpus, output_dir);
    law_soundness_is_kept(start, events[0]);
    if k > 0 {
        let j = (k - 1) as nat;
        law_welcome_answers_finish_the_build(request, quiet, ncpus, output_dir, events, j);
        law_run_is_sound(start, events, j);
        assert(welcome(state_at(start, events, j), events[j as int]));
        lemma_welcome_goes_on(state_at(start, events, j), events[j as int]);
    }
    if k >= longest_run(request) {
        law_every_build_ends(request, quiet, ncpus, output_dir, events, k);
    }
}

/// Whether the run from `m` runs the engine of `stage` at place `i`: it
/// asks for the engine with exactly the command line of the stage, and is
/// told that the engine returned zero.
pub open spec fn ran_at(m: Machine, events: Seq<EventView>, i: nat, stage: Stage) -> bool {
    &&& directive_at(m, events, i) == DirectiveView::Invoke {
        stage,
        argv: stage_tokens(stage, m.request, m.quiet),
    }
    &&& events[i as int + 1] == EventView::Exited(0)
}

/// An engine is waited for only after it was asked for, with the command
/// line of its stage.
proof fn lemma_engine_follows_invoke(m: Machine, event: EventView)
    requires
        (transition(m, event).0.step is Engine),
    ensures
        transition(m, event).1 == (DirectiveView::Invoke {
            stage: transition(m, event).0.step->Engine_0,
            argv: stage_tokens(transition(m, event).0.step->Engine_0, m.request, m.quiet),
        }),
{
    match m.step {
        Step::Idle => {},
        Step::Decoy(_) => {},
        Step::StaleProbe(_) => {},
        Step::StaleRemove(_) => {},
        Step::Conflict(_) => {},
        Step::Signing => {},
        Step::WorkDirProbe => {},
        Step::WorkDirCreate => {},
        Step::OutputDirProbe => {},
        Step::OutputDirCreate => {},
        Step::Engine(_) => {},
        Step::CleanupSegment => {},
        Step::CleanupSequence => {},
        Step::Done => {},
        Step::Aborted => {},
    }
}

/// A state behind a stage is reached only through a successful run of the
/// stage's engine, at the place that is handed back.
proof fn lemma_ran_before(
    request: BuildRequestView,
    quiet: bool,
    ncpus: usize,
    output_dir: Option<Seq<char>>,
    events: Seq<EventView>,
    k: nat,
    stage: Stage,
) -> (i: nat)
    requires
        stage == Stage::Poison ==> request.decoy_paths is Some,
        rank(state_at(Machine::initial(request, quiet, ncpus, output_dir), events, k).step) > rank(
            Step::Engine(stage),
        ),
        state_at(Machine::initial(request, quiet, ncpus, output_dir), events, k).step
            != Step::Aborted,
    ensures
        i + 1 < k,
        ran_at(Machine::initial(request, quiet, ncpus, output_dir), events, i, stage),
    decreases k,
{
    let m = Machine::initial(request, quiet, ncpus, output_dir);
    law_soundness_is_kept(m, events[0]);
    assert(k > 0);
    let j = (k - 1) as nat;
    let before = state_at(m, events, j);
    let event = events[j as int];
    law_run_is_sound(m, events, j);
    law_steps_advance(before, event);
    if rank(before.step) > rank(Step::Engine(stage)) {
        lemma_ran_before(request, quiet, ncpus, output_dir, events, j, stage)
    } else if before.step == Step::Engine(stage) {
        assert(j > 0);
        let earlier = state_at(m, events, (j - 1) as nat);
        law_run_is_sound(m, events, (j - 1) as nat);
        lemma_engine_follows_invoke(earlier, events[j - 1]);
        assert(ran_at(m, events, (j - 1) as nat, stage));
        (j - 1) as nat
    } else {
        match before.step {
            Step::Idle => {},
            Step::Decoy(_) => {},
            Step::StaleProbe(_) => {},
            Step::StaleRemove(_) => {},
            Step::Conflict(_) => {},
            Step::Signing => {},
            Step::WorkDirProbe => {},
            Step::WorkDirCreate => {},
            Step::OutputDirProbe => {},
            Step::OutputDirCreate => {},
            Step::Engine(_) => {},
            _ => {},
        }
        assert(false);
        0
    }
}

/// Whether the run from `m` ends well at place `i`: there it says that the
/// build succeeded and names the version manifest, and unless the
/// intermediate files were asked to stay, it has asked just before to delete
/// the segment file and then the sequence file.
pub open spec fn finished_at(m: Machine, events: Seq<EventView>, i: nat) -> bool {
    &&& directive_at(m, events, i) == DirectiveView::Finish {
        version_manifest: m.paths().version_manifest,
    }
    &&& !m.request.keep_intermediate ==> {
        &&& i >= 2
        &&& directive_at(m, events, (i - 1) as nat) == DirectiveView::Remove(
            m.graph_path(GraphFile::Sequence),
        )
        &&& directive_at(m, events, (i - 2) as nat) == DirectiveView::Remove(
            m.graph_path(GraphFile::Segment),
        )
    }
}

/// How a build comes to tidy up and to end.
proof fn lemma_tidying_follows_the_engines(m: Machine, event: EventView)
    requires
        sound(m),
    ensures
        ({
            let (after, d) = transition(m, event);
            &&& after.step == Step::CleanupSegment ==> m.step is Engine && d
                == DirectiveView::Remove(m.graph_path(GraphFile::Segment))
            &&& after.step == Step::CleanupSequence ==> m.step == Step::CleanupSegment && d
                == DirectiveView::Remove(m.graph_path(GraphFile::Sequence))
            &&& after.step == Step::Done && m.step != Step::Done ==> d == DirectiveView::Finish {
                version_manifest: m.paths().version_manifest,
            } && (!m.request.keep_intermediate ==> m.step == Step::CleanupSequence)
        }),
{
    match m.step {
        Step::Idle => {},
        Step::Decoy(_) => {},
        Step::StaleProbe(_) => {},
        Step::StaleRemove(_) => {},
        Step::Conflict(_) => {},
        Step::Signing => {},
        Step::WorkDirProbe => {},
        Step::WorkDirCreate => {},
        Step::OutputDirProbe => {},
        Step::OutputDirCreate => {},
        Step::Engine(_) => {},
        Step::CleanupSegment => {},
        Step::CleanupSequence => {},
        Step::Done => {},
        Step::Aborted => {},
    }
}

/// A build that is done has ended well at the place that is handed back.
proof fn lemma_finished_before(
    request: BuildRequestView,
    quiet: bool,
    ncpus: usize,
    output_dir: Option<Seq<char>>,
    events: Seq<EventView>,
    k: nat,
) -> (i: nat)
    requires
        state_at(Machine::initial(request, quiet, ncpus, output_dir), events, k).step
            == Step::Done,
    ensures
        i < k,
        finished_at(Machine::initial(request, quiet, ncpus, output_dir), events, i),
    decreases k,
{
    let m = Machine::initial(request, quiet, ncpus, output_dir);
    law_soundness_is_kept(m, events[0]);
    assert(k > 0);
    let j = (k - 1) as nat;
    let before = state_at(m, events, j);
    law_run_is_sound(m, events, j);
    if before.step == Step::Done {
        lemma_finished_before(request, quiet, ncpus, output_dir, events, j)
    } else {
        lemma_tidying_follows_the_engines(before, events[j as int]);
        if !request.keep_intermediate {
            assert(j > 0);
            let second = state_at(m, events, (j - 1) as nat);
            law_run_is_sound(m, events, (j - 1) as nat);
            lemma_tidying_follows_the_engines(second, events[j - 1]);
            assert(j > 1);
            let first = state_at(m, events, (j - 2) as nat);
            law_run_is_sound(m, events, (j - 2) as nat);
            lemma_tidying_follows_the_engines(first, events[j - 2]);
        }
        assert(finished_at(m, events, j));
        j
    }
}

/// Of two engine runs, the one of the earlier stage comes first.
proof fn lemma_runs_in_order(
    m: Machine,
    events: Seq<EventView>,
    i: nat,
    earlier: Stage,
    j: nat,
    later: Stage,
)
    requires
        ran_at(m, events, i, earlier),
        ran_at(m, events, j, later),
        rank(Step::Engine(earlier)) < rank(Step::Engine(later)),
    ensures
        i < j,
{
    if j < i {
        law_engines_run_in_order(m, events, j, i);
    }
}

/// An engine run comes before the end of the build.
proof fn lemma_run_before_end(m: Machine, events: Seq<EventView>, i: nat, stage: Stage, end: nat)
    requires
        ran_at(m, events, i, stage),
        finished_at(m, events, end),
    ensures
        i < end,
{
    if i > end {
        law_end_is_final(m, events, end, i);
    }
}

/// What a build that is done has done, whatever its request, its machine
/// and the answers it got: it has run the graph engine and then the index
/// engine, and the poison engine where decoys were declared, each with
/// exactly the command line of its stage and each to a return of zero; and
/// at its end it has asked to delete the segment and the sequence file,
/// unless they were to stay, and has named the version manifest. The places
/// of the three engine runs and of the end are handed back.
pub proof fn law_done_means_built(
    request: BuildRequestView,
    quiet: bool,
    ncpus: usize,
    output_dir: Option<Seq<char>>,
    events: Seq<EventView>,
    k: nat,
) -> (at: (nat, nat, nat, nat))
    requires
        state_at(Machine::initial(request, quiet, ncpus, output_dir), events, k).step
            == Step::Done,
    ensures
        at.0 < at.1 < at.3 < k,
        ran_at(Machine::initial(request, quiet, ncpus, output_dir), events, at.0, Stage::Graph),
        ran_at(Machine::initial(request, quiet, ncpus, output_dir), events, at.1, Stage::Index),
        request.decoy_paths is Some ==> at.1 < at.2 < at.3 && ran_at(
            Machine::initial(request, quiet, ncpus, output_dir),
            events,
            at.2,
            Stage::Poison,
        ),
        finished_at(Machine::initial(request, quiet, ncpus, output_dir), events, at.3),
{
    let m = Machine::initial(request, quiet, ncpus, output_dir);
    let graph = lemma_ran_before(request, quiet, ncpus, output_dir, events, k, Stage::Graph);
    let index = lemma_ran_before(request, quiet, ncpus, output_dir, events, k, Stage::Index);
    let end = lemma_finished_before(request, quiet, ncpus, output_dir, events, k);
    lemma_runs_in_order(m, events, graph, Stage::Graph, index, Stage::Index);
    lemma_run_before_end(m, events, index, Stage::Index, end);
    if request.decoy_paths is Some {
        let poison = lemma_ran_before(request, quiet, ncpus, output_dir, events, k, Stage::Poison);
        lemma_runs_in_order(m, events, index, Stage::Index, poison, Stage::Poison);
        lemma_run_before_end(m, events, poison, Stage::Poison, end);
        (graph, index, poison, end)
    } else {
        (graph, index, index, end)
    }
}

/// A build that may not overwrite never asks to delete the structure file:
/// not before the first engine, and not when it tidies up.
pub proof fn law_structure_file_is_kept(
    request: BuildRequestView,
    quiet: bool,
    ncpus: usize,
    output_dir: Option<Seq<char>>,
    events: Seq<EventView>,
    i: nat,
)
    requires
        !request.overwrite,
    ensures
        directive_at(Machine::initial(request, quiet, ncpus, output_dir), events, i)
            != DirectiveView::Remove(
            Machine::initial(request, quiet, ncpus, output_dir).graph_path(GraphFile::Structure),
        ),
{
    let m = Machine::initial(request, quiet, ncpus, output_dir);
    let before = state_at(m, events, i);
    law_soundness_is_kept(m, events[0]);
    law_run_is_sound(m, events, i);
    law_soundness_is_kept(before, events[i as int]);
    law_steps_advance(before, events[i as int]);
    law_directive_fits(before, events[i as int]);
    lemma_tidying_follows_the_engines(before, events[i as int]);
    let prefix = request.output_prefix;
    if path_of(prefix, Artifact::Segment) == path_of(prefix, Artifact::Structure) {
        law_paths_never_collide(prefix, Artifact::Segment, prefix, Artifact::Structure);
    }
    if path_of(prefix, Artifact::Sequence) == path_of(prefix, Artifact::Structure) {
        law_paths_never_collide(prefix, Artifact::Sequence, prefix, Artifact::Structure);
    }
}

/// A build of a request that meets the rules, in a place where every answer
/// is welcome, is a whole build, whatever the request leaves open: after the
/// longest run that its request can take it is done; it has run the graph
/// engine and then the index engine, and the poison engine where decoys
/// were declared, each with exactly the command line of its stage; at its
/// end it has asked to delete the segment and the sequence file, unless they
/// were to stay, and has named the version manifest; and unless it may
/// overwrite it has never asked to delete the structure file. The places of
/// the three engine runs and of the end are handed back.
pub proof fn law_welcome_build_is_whole(
    request: BuildRequestView,
    quiet: bool,
    ncpus: usize,
    output_dir: Option<Seq<char>>,
    events: Seq<EventView>,
    k: nat,
) -> (at: (nat, nat, nat, nat))
    requires
        acceptable(request, ncpus),
        unmarshalable_stage(request, quiet) is None,
        request.decoys().len() <= usize::MAX,
        k >= longest_run(request),
        forall|j: nat|
            j < k ==> welcome(
                #[trigger] state_at(Machine::initial(request, quiet, ncpus, output_dir), events, j),
                events[j as int],
            ),
    ensures
        state_at(Machine::initial(request, quiet, ncpus, output_dir), events, k).step
            == Step::Done,
        at.0 < at.1 < at.3 < k,
        ran_at(Machine::initial(request, quiet, ncpus, output_dir), events, at.0, Stage::Graph),
        ran_at(Machine::initial(request, quiet, ncpus, output_dir), events, at.1, Stage::Index),
        request.decoy_paths is Some ==> at.1 < at.2 < at.3 && ran_at(
            Machine::initial(request, quiet, ncpus, output_dir),
            events,
            at.2,
            Stage::Poison,
        ),
        finished_at(Machine::initial(request, quiet, ncpus, output_dir), events, at.3),
        !request.overwrite ==> forall|i: nat| #[trigger]
            directive_at(Machine::initial(request, quiet, ncpus, output_dir), events, i)
                != DirectiveView::Remove(
                Machine::initial(request, quiet, ncpus, output_dir).graph_path(
                    GraphFile::Structure,
                ),
            ),
{
    let m = Machine::initial(request, quiet, ncpus, output_dir);
    law_welcome_answers_finish_the_build(request, quiet, ncpus, output_dir, events, k);
    if !request.overwrite {
        assert forall|i: nat| #[trigger] directive_at(m, events, i) != DirectiveView::Remove(
            m.graph_path(GraphFile::Structure),
        ) by {
            law_structure_file_is_kept(request, quiet, ncpus, output_dir, events, i);
        }
    }
    law_done_means_built(request, quiet, ncpus, output_dir, events, k)
}

} // verus!
