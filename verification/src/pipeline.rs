//! The pipeline orchestrator's state machine.
//!
//! The machine owns no I/O: it says which action to perform next, and is fed
//! the outcome of that action.  The driver performs the actions (spawning the
//! external tools, flipping the description, waiting for cancellation,
//! removing the workspace) and steps the machine with what happened.  Any
//! stage failure moves straight to cleanup and then termination: no retries,
//! no partial continuation.
use vstd::prelude::*;
use crate::error::{Failure, FailureKind, Stage};

verus! {

/// How a run ended.
#[derive(Clone, Copy, PartialEq, Eq, Structural, Debug)]
pub enum RunOutcome {
    Success,
    Failed(Failure),
}

/// The states of a run, in the order a successful run passes them.
#[derive(Clone, Copy, PartialEq, Eq, Structural, Debug)]
pub enum PipelineState {
    /// Nothing has run yet; the component is about to be extracted.
    Init,
    /// The textual description has been extracted into the workspace.
    Extracted,
    /// The description has been flipped to the consumer viewpoint.
    Flipped,
    /// The canonical world name has been resolved.
    WorldResolved,
    /// Bindings for the chosen language have been generated.
    BindingsGenerated,
    /// Documentation has been generated; its entry point is to be reported.
    DocsGenerated,
    /// The run rests, artifacts inspectable, until cancellation arrives.
    Idle,
    /// The workspace is being removed; the run's outcome is already fixed.
    CleaningUp(RunOutcome),
    /// The run is over; the process exits from here and nowhere else.
    Terminated(RunOutcome),
}

/// What the driver is asked to do next.
#[derive(Clone, Copy, PartialEq, Eq, Structural, Debug)]
pub enum Action {
    /// Run the extraction tool, writing the description into the workspace.
    Extract,
    /// Flip the extracted description in place.
    FlipDescription,
    /// Run the extraction tool in structured mode and resolve the world.
    ResolveWorld,
    /// Run the binding generator for the chosen language.
    GenerateBindings,
    /// Run the documentation generator for the chosen language.
    GenerateDocs,
    /// Print where the generated documentation starts.
    ReportDocs,
    /// Block until the cancellation signal arrives.
    AwaitCancellation,
    /// Remove the workspace directory.
    Cleanup,
}

/// What the driver reports back: the action succeeded, or failed with a kind.
#[derive(Clone, Copy, PartialEq, Eq, Structural, Debug)]
pub enum StepOutcome {
    Success,
    Failure(FailureKind),
}

/// The stage a state is about to attempt, if its action can fail a stage.
pub open spec fn stage_of(s: PipelineState) -> Option<Stage> {
    match s {
        PipelineState::Init => Some(Stage::Extraction),
        PipelineState::Extracted => Some(Stage::Flip),
        PipelineState::Flipped => Some(Stage::WorldResolution),
        PipelineState::WorldResolved => Some(Stage::BindingGeneration),
        PipelineState::BindingsGenerated => Some(Stage::DocGeneration),
        _ => None,
    }
}

/// The action each state asks for; a terminated run asks for nothing.
pub open spec fn next_action_spec(s: PipelineState) -> Option<Action> {
    match s {
        PipelineState::Init => Some(Action::Extract),
        PipelineState::Extracted => Some(Action::FlipDescription),
        PipelineState::Flipped => Some(Action::ResolveWorld),
        PipelineState::WorldResolved => Some(Action::GenerateBindings),
        PipelineState::BindingsGenerated => Some(Action::GenerateDocs),
        PipelineState::DocsGenerated => Some(Action::ReportDocs),
        PipelineState::Idle => Some(Action::AwaitCancellation),
        PipelineState::CleaningUp(_) => Some(Action::Cleanup),
        PipelineState::Terminated(_) => None,
    }
}

/// The transition relation: where the machine goes when its action's outcome
/// comes back.  A failed stage records its stage and kind and heads for
/// cleanup; reporting and waiting cannot fail a stage; cleanup always
/// terminates with the outcome fixed before it; termination is final.
pub open spec fn step_spec(s: PipelineState, e: StepOutcome) -> PipelineState {
    match s {
        PipelineState::Init => match e {
            StepOutcome::Success => PipelineState::Extracted,
            StepOutcome::Failure(k) => PipelineState::CleaningUp(
                RunOutcome::Failed(Failure { stage: Stage::Extraction, kind: k }),
            ),
        },
        PipelineState::Extracted => match e {
            StepOutcome::Success => PipelineState::Flipped,
            StepOutcome::Failure(k) => PipelineState::CleaningUp(
                RunOutcome::Failed(Failure { stage: Stage::Flip, kind: k }),
            ),
        },
        PipelineState::Flipped => match e {
            StepOutcome::Success => PipelineState::WorldResolved,
            StepOutcome::Failure(k) => PipelineState::CleaningUp(
                RunOutcome::Failed(Failure { stage: Stage::WorldResolution, kind: k }),
            ),
        },
        PipelineState::WorldResolved => match e {
            StepOutcome::Success => PipelineState::BindingsGenerated,
            StepOutcome::Failure(k) => PipelineState::CleaningUp(
                RunOutcome::Failed(Failure { stage: Stage::BindingGeneration, kind: k }),
            ),
        },
        PipelineState::BindingsGenerated => match e {
            StepOutcome::Success => PipelineState::DocsGenerated,
            StepOutcome::Failure(k) => PipelineState::CleaningUp(
                RunOutcome::Failed(Failure { stage: Stage::DocGeneration, kind: k }),
            ),
        },
        PipelineState::DocsGenerated => PipelineState::Idle,
        PipelineState::Idle => PipelineState::CleaningUp(RunOutcome::Success),
        PipelineState::CleaningUp(o) => PipelineState::Terminated(o),
        PipelineState::Terminated(o) => PipelineState::Terminated(o),
    }
}

/// The action the driver must perform next, or `None` once the run is over.
pub fn next_action(s: &PipelineState) -> (r: Option<Action>)
    ensures
        r == next_action_spec(*s),
{
    match s {
        PipelineState::Init => Some(Action::Extract),
        PipelineState::Extracted => Some(Action::FlipDescription),
        PipelineState::Flipped => Some(Action::ResolveWorld),
        PipelineState::WorldResolved => Some(Action::GenerateBindings),
        PipelineState::BindingsGenerated => Some(Action::GenerateDocs),
        PipelineState::DocsGenerated => Some(Action::ReportDocs),
        PipelineState::Idle => Some(Action::AwaitCancellation),
        PipelineState::CleaningUp(_) => Some(Action::Cleanup),
        PipelineState::Terminated(_) => None,
    }
}

/// Advance the machine by the outcome of the action it last asked for.
pub fn step(s: &PipelineState, e: StepOutcome) -> (r: PipelineState)
    ensures
        r == step_spec(*s, e),
{
    match s {
        PipelineState::Init => match e {
            StepOutcome::Success => PipelineState::Extracted,
            StepOutcome::Failure(k) => PipelineState::CleaningUp(
                RunOutcome::Failed(Failure { stage: Stage::Extraction, kind: k }),
            ),
        },
        PipelineState::Extracted => match e {
            StepOutcome::Success => PipelineState::Flipped,
            StepOutcome::Failure(k) => PipelineState::CleaningUp(
                RunOutcome::Failed(Failure { stage: Stage::Flip, kind: k }),
            ),
        },
        PipelineState::Flipped => match e {
            StepOutcome::Success => PipelineState::WorldResolved,
            StepOutcome::Failure(k) => PipelineState::CleaningUp(
                RunOutcome::Failed(Failure { stage: Stage::WorldResolution, kind: k }),
            ),
        },
        PipelineState::WorldResolved => match e {
            StepOutcome::Success => PipelineState::BindingsGenerated,
            StepOutcome::Failure(k) => PipelineState::CleaningUp(
                RunOutcome::Failed(Failure { stage: Stage::BindingGeneration, kind: k }),
            ),
        },
        PipelineState::BindingsGenerated => match e {
            StepOutcome::Success => PipelineState::DocsGenerated,
            StepOutcome::Failure(k) => PipelineState::CleaningUp(
                RunOutcome::Failed(Failure { stage: Stage::DocGeneration, kind: k }),
            ),
        },
        PipelineState::DocsGenerated => PipelineState::Idle,
        PipelineState::Idle => PipelineState::CleaningUp(RunOutcome::Success),
        PipelineState::CleaningUp(o) => PipelineState::Terminated(*o),
        PipelineState::Terminated(o) => PipelineState::Terminated(*o),
    }
}

/// The state after feeding the machine a whole sequence of outcomes, starting
/// from the initial state.
pub open spec fn run_state(events: Seq<StepOutcome>) -> PipelineState
    decreases events.len(),
{
    if events.len() == 0 {
        PipelineState::Init
    } else {
        step_spec(run_state(events.drop_last()), events.last())
    }
}

/// How many of the steps of a run performed the cleanup action.
pub open spec fn cleanups(events: Seq<StepOutcome>) -> nat
    decreases events.len(),
{
    if events.len() == 0 {
        0
    } else {
        cleanups(events.drop_last()) + if run_state(events.drop_last()) is CleaningUp {
            1nat
        } else {
            0nat
        }
    }
}

/// A failed stage heads straight for cleanup, carrying its stage and kind,
/// and the next step terminates with that same failed outcome: no stage after
/// the failing one is ever attempted.
pub proof fn lemma_failure_aborts(s: PipelineState, k: FailureKind, e: StepOutcome)
    requires
        stage_of(s) is Some,
    ensures
        step_spec(s, StepOutcome::Failure(k)) == PipelineState::CleaningUp(
            RunOutcome::Failed(Failure { stage: stage_of(s).unwrap(), kind: k }),
        ),
        step_spec(step_spec(s, StepOutcome::Failure(k)), e) == PipelineState::Terminated(
            RunOutcome::Failed(Failure { stage: stage_of(s).unwrap(), kind: k }),
        ),
{
}

/// Termination is final: once terminated, every further step keeps the state
/// and its outcome.
pub proof fn lemma_terminated_is_final(o: RunOutcome, e: StepOutcome)
    ensures
        step_spec(PipelineState::Terminated(o), e) == PipelineState::Terminated(o),
{
}

/// Cleanup guarantee: in any run of the machine — whatever outcomes the
/// stages, the reporting and the waiting produce — the cleanup action has
/// been performed exactly once if the run has terminated, and never before:
/// every exit path tears the workspace down, and tears it down only once.
pub proof fn lemma_cleanup_exactly_once(events: Seq<StepOutcome>)
    ensures
        cleanups(events) == if run_state(events) is Terminated {
            1nat
        } else {
            0nat
        },
    decreases events.len(),
{
    if events.len() > 0 {
        lemma_cleanup_exactly_once(events.drop_last());
    }
}

} // verus!
