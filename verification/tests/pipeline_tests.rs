use wit_inspect::error::{Failure, FailureKind, Stage};
use wit_inspect::pipeline::{next_action, step, Action, PipelineState, RunOutcome, StepOutcome};

/// Drive the machine with the given outcomes, returning the actions it asked
/// for, in order, and the final state.
fn drive(outcomes: &[StepOutcome]) -> (Vec<Action>, PipelineState) {
    let mut state = PipelineState::Init;
    let mut actions = Vec::new();
    for o in outcomes {
        match next_action(&state) {
            Some(a) => actions.push(a),
            None => break,
        }
        state = step(&state, *o);
    }
    (actions, state)
}

#[test]
fn successful_run_passes_every_stage_in_order() {
    let all_ok = [StepOutcome::Success; 8];
    let (actions, end) = drive(&all_ok);
    assert_eq!(
        actions,
        vec![
            Action::Extract,
            Action::FlipDescription,
            Action::ResolveWorld,
            Action::GenerateBindings,
            Action::GenerateDocs,
            Action::ReportDocs,
            Action::AwaitCancellation,
            Action::Cleanup,
        ]
    );
    assert_eq!(end, PipelineState::Terminated(RunOutcome::Success));
    assert_eq!(next_action(&end), None);
}

#[test]
fn extraction_failure_aborts_before_any_other_stage() {
    let outcomes = [
        StepOutcome::Failure(FailureKind::ExternalToolFailure),
        StepOutcome::Success,
        StepOutcome::Success,
    ];
    let (actions, end) = drive(&outcomes);
    assert_eq!(actions, vec![Action::Extract, Action::Cleanup]);
    assert_eq!(
        end,
        PipelineState::Terminated(RunOutcome::Failed(Failure {
            stage: Stage::Extraction,
            kind: FailureKind::ExternalToolFailure,
        }))
    );
}

#[test]
fn failure_at_each_stage_cleans_up_exactly_once() {
    let stages = [
        Stage::Extraction,
        Stage::Flip,
        Stage::WorldResolution,
        Stage::BindingGeneration,
        Stage::DocGeneration,
    ];
    for (i, stage) in stages.iter().enumerate() {
        let mut outcomes = vec![StepOutcome::Success; i];
        outcomes.push(StepOutcome::Failure(FailureKind::ExternalToolFailure));
        outcomes.extend([StepOutcome::Success; 4]);
        let (actions, end) = drive(&outcomes);
        let cleanups = actions.iter().filter(|a| **a == Action::Cleanup).count();
        assert_eq!(cleanups, 1);
        assert_eq!(
            end,
            PipelineState::Terminated(RunOutcome::Failed(Failure {
                stage: *stage,
                kind: FailureKind::ExternalToolFailure,
            }))
        );
        assert_eq!(next_action(&end), None);
    }
}

#[test]
fn cleanup_runs_once_on_the_successful_path_too() {
    let all_ok = [StepOutcome::Success; 10];
    let (actions, end) = drive(&all_ok);
    let cleanups = actions.iter().filter(|a| **a == Action::Cleanup).count();
    assert_eq!(cleanups, 1);
    assert_eq!(end, PipelineState::Terminated(RunOutcome::Success));
}

#[test]
fn idle_waits_and_cancellation_triggers_cleanup() {
    let mut state = PipelineState::DocsGenerated;
    assert_eq!(next_action(&state), Some(Action::ReportDocs));
    state = step(&state, StepOutcome::Success);
    assert_eq!(state, PipelineState::Idle);
    assert_eq!(next_action(&state), Some(Action::AwaitCancellation));
    state = step(&state, StepOutcome::Success);
    assert_eq!(state, PipelineState::CleaningUp(RunOutcome::Success));
    assert_eq!(next_action(&state), Some(Action::Cleanup));
    state = step(&state, StepOutcome::Success);
    assert_eq!(state, PipelineState::Terminated(RunOutcome::Success));
}

#[test]
fn termination_is_final() {
    let end = PipelineState::Terminated(RunOutcome::Success);
    assert_eq!(step(&end, StepOutcome::Success), end);
    assert_eq!(step(&end, StepOutcome::Failure(FailureKind::IOError)), end);
}

#[test]
fn stage_failures_carry_their_kind() {
    let state = PipelineState::Flipped;
    let next = step(&state, StepOutcome::Failure(FailureKind::NoWorldFound));
    assert_eq!(
        next,
        PipelineState::CleaningUp(RunOutcome::Failed(Failure {
            stage: Stage::WorldResolution,
            kind: FailureKind::NoWorldFound,
        }))
    );
}

#[test]
fn failure_descriptions() {
    assert_eq!(
        FailureKind::UnsupportedLanguage.describe(),
        "Following languages are currently supported: rust, python"
    );
    assert_eq!(Stage::Extraction.describe(), "extraction");
}
