use repo_ingest::error::AppError;
use repo_ingest::ingest::{
    clone_failure_message, not_a_repository_message, only_artifact_entries, ActionReport,
    FailureCause, IngestAction, IngestState, Outcome,
};
use repo_ingest::status::Stage;

fn names(list: &[&str]) -> Vec<String> {
    list.iter().map(|n| n.to_string()).collect()
}

/// Drives the machine with `reports` and returns the actions performed, the
/// stages published, and the state reached.
fn drive(reports: Vec<ActionReport>) -> (Vec<IngestAction>, Vec<Stage>, IngestState) {
    let mut state = IngestState::start();
    let mut actions = Vec::new();
    let mut stages = Vec::new();
    for report in reports {
        let action = state.action();
        if let Some(stage) = action.stage() {
            stages.push(stage);
        }
        actions.push(action);
        state = state.advance(&report);
    }
    (actions, stages, state)
}

fn done(n: usize) -> Vec<ActionReport> {
    (0..n).map(|_| ActionReport::Done).collect()
}

fn fresh_clone_reports() -> Vec<ActionReport> {
    let mut reports = done(2);
    reports.push(ActionReport::Workdir { exists: false, has_git_dir: false });
    reports.push(ActionReport::CloneExit { success: true });
    reports.extend(done(9));
    reports
}

#[test]
fn successful_ingestion_passes_every_stage_in_order() {
    let (actions, stages, state) = drive(fresh_clone_reports());
    assert_eq!(
        stages,
        vec![
            Stage::Queued,
            Stage::Cloning,
            Stage::Mirroring,
            Stage::Indexing,
            Stage::Summarizing,
            Stage::Complete,
        ]
    );
    assert_eq!(
        actions,
        vec![
            IngestAction::Publish(Stage::Queued),
            IngestAction::Publish(Stage::Cloning),
            IngestAction::ProbeWorkdir,
            IngestAction::CloneRepository,
            IngestAction::RecordState,
            IngestAction::Publish(Stage::Mirroring),
            IngestAction::MirrorRepository,
            IngestAction::PrepareArtifacts,
            IngestAction::Publish(Stage::Indexing),
            IngestAction::FeedDocuments,
            IngestAction::Publish(Stage::Summarizing),
            IngestAction::Summarize,
            IngestAction::Publish(Stage::Complete),
        ]
    );
    assert_eq!(state, IngestState::Finished(Outcome::Completed));
    assert_eq!(state.action(), IngestAction::Stop(Outcome::Completed));
}

#[test]
fn existing_working_copy_is_not_cloned_again() {
    let mut reports = done(2);
    reports.push(ActionReport::Workdir { exists: true, has_git_dir: true });
    let (actions, _, state) = drive(reports);
    assert!(!actions.contains(&IngestAction::CloneRepository));
    assert_eq!(state, IngestState::RecordingState);
}

#[test]
fn foreign_directory_fails_without_removal() {
    let mut reports = done(2);
    reports.push(ActionReport::Workdir { exists: true, has_git_dir: false });
    reports.push(ActionReport::Empty(false));
    reports.push(ActionReport::Entries(names(&["vv", "notes.txt"])));
    reports.extend(done(2));
    let (actions, stages, state) = drive(reports);
    assert_eq!(
        actions,
        vec![
            IngestAction::Publish(Stage::Queued),
            IngestAction::Publish(Stage::Cloning),
            IngestAction::ProbeWorkdir,
            IngestAction::ProbeEmpty,
            IngestAction::ListEntries,
            IngestAction::PublishNotARepository,
            IngestAction::PublishFailure(FailureCause::NotAGitRepository),
        ]
    );
    assert_eq!(stages, vec![Stage::Queued, Stage::Cloning, Stage::Error, Stage::Error]);
    assert_eq!(state, IngestState::Finished(Outcome::Failed(FailureCause::NotAGitRepository)));
    assert!(!actions.contains(&IngestAction::RemoveDirectory));
    assert!(!actions.contains(&IngestAction::RemoveArtifacts));
    assert!(!actions.contains(&IngestAction::CloneRepository));
    assert_eq!(not_a_repository_message(), "Repo path exists but is not a git repository");
    assert_eq!(
        FailureCause::NotAGitRepository.error(),
        Some(AppError::Io("repo path exists but is not a git repository".to_string()))
    );
    assert!(FailureCause::NotAGitRepository
        .error()
        .unwrap()
        .message()
        .contains("not a git repository"));
}

#[test]
fn empty_directory_is_removed_and_cloned_into() {
    let mut reports = done(2);
    reports.push(ActionReport::Workdir { exists: true, has_git_dir: false });
    reports.push(ActionReport::Empty(true));
    reports.push(ActionReport::Done);
    let (actions, _, state) = drive(reports);
    assert_eq!(actions[3..], [IngestAction::ProbeEmpty, IngestAction::RemoveDirectory]);
    assert_eq!(state, IngestState::Cloning);
}

#[test]
fn directory_of_artifacts_is_cleared_and_cloned_into() {
    let mut reports = done(2);
    reports.push(ActionReport::Workdir { exists: true, has_git_dir: false });
    reports.push(ActionReport::Empty(false));
    reports.push(ActionReport::Entries(names(&["vv"])));
    reports.push(ActionReport::Failed);
    reports.push(ActionReport::Empty(true));
    reports.push(ActionReport::Done);
    let (actions, _, state) = drive(reports);
    assert_eq!(
        actions[4..],
        [
            IngestAction::ListEntries,
            IngestAction::RemoveArtifacts,
            IngestAction::ProbeEmpty,
            IngestAction::RemoveDirectory,
        ]
    );
    assert_eq!(state, IngestState::Cloning);
}

#[test]
fn directory_that_stays_after_clearing_fails() {
    let mut reports = done(2);
    reports.push(ActionReport::Workdir { exists: true, has_git_dir: false });
    reports.push(ActionReport::Empty(false));
    reports.push(ActionReport::Entries(names(&["vv", ".vv"])));
    reports.push(ActionReport::Done);
    reports.push(ActionReport::Empty(false));
    let (_, _, state) = drive(reports);
    assert_eq!(state, IngestState::ReportingForeign);
}

#[test]
fn failed_clone_is_reported_twice() {
    let mut reports = done(2);
    reports.push(ActionReport::Workdir { exists: false, has_git_dir: false });
    reports.push(ActionReport::CloneExit { success: false });
    reports.extend(done(2));
    let (actions, stages, state) = drive(reports);
    assert_eq!(
        actions[3..],
        [
            IngestAction::CloneRepository,
            IngestAction::PublishCloneFailure,
            IngestAction::PublishFailure(FailureCause::CloneFailed),
        ]
    );
    assert_eq!(stages, vec![Stage::Queued, Stage::Cloning, Stage::Error, Stage::Error]);
    assert_eq!(state, IngestState::Finished(Outcome::Failed(FailureCause::CloneFailed)));
    assert_eq!(
        FailureCause::CloneFailed.error(),
        Some(AppError::Io("git clone failed".to_string()))
    );
    assert_eq!(FailureCause::ActionFailed.error(), None);
}

#[test]
fn clone_failure_message_quotes_the_tool() {
    assert_eq!(
        clone_failure_message("  fatal: repository not found\n"),
        "Git clone failed: fatal: repository not found"
    );
    assert_eq!(clone_failure_message(""), "Git clone failed: ");
}

#[test]
fn mirror_failure_is_fatal() {
    let mut reports = fresh_clone_reports();
    reports.truncate(6);
    reports.push(ActionReport::Failed);
    reports.push(ActionReport::Done);
    let (actions, stages, state) = drive(reports);
    assert_eq!(actions[6], IngestAction::MirrorRepository);
    assert_eq!(actions[7], IngestAction::PublishFailure(FailureCause::ActionFailed));
    assert_eq!(stages, vec![Stage::Queued, Stage::Cloning, Stage::Mirroring, Stage::Error]);
    assert_eq!(state, IngestState::Finished(Outcome::Failed(FailureCause::ActionFailed)));
}

#[test]
fn feed_failure_is_fatal() {
    let mut reports = fresh_clone_reports();
    reports.truncate(9);
    reports.push(ActionReport::Failed);
    let (actions, _, state) = drive(reports);
    assert_eq!(actions[9], IngestAction::FeedDocuments);
    assert_eq!(state, IngestState::ReportingFailure(FailureCause::ActionFailed));
}

#[test]
fn summary_failure_is_not_fatal() {
    let mut reports = fresh_clone_reports();
    reports[11] = ActionReport::Failed;
    let (actions, stages, state) = drive(reports);
    assert_eq!(actions[11], IngestAction::Summarize);
    assert_eq!(stages.last(), Some(&Stage::Complete));
    assert_eq!(state, IngestState::Finished(Outcome::Completed));
}

#[test]
fn unpublished_queue_status_starts_nothing() {
    let (actions, stages, state) = drive(vec![ActionReport::Failed]);
    assert_eq!(actions, vec![IngestAction::Publish(Stage::Queued)]);
    assert_eq!(stages, vec![Stage::Queued]);
    assert_eq!(state, IngestState::Finished(Outcome::NotStarted));
}

#[test]
fn unexpected_report_fails_the_ingestion() {
    let mut reports = done(2);
    reports.push(ActionReport::Empty(true));
    let (_, _, state) = drive(reports);
    assert_eq!(state, IngestState::ReportingFailure(FailureCause::ActionFailed));
}

#[test]
fn failure_while_publishing_the_failure_still_finishes() {
    let state = IngestState::ReportingFailure(FailureCause::CloneFailed);
    assert_eq!(
        state.advance(&ActionReport::Failed),
        IngestState::Finished(Outcome::Failed(FailureCause::CloneFailed))
    );
}

#[test]
fn finished_ingestion_stays_finished() {
    let finished = IngestState::Finished(Outcome::Completed);
    for report in [
        ActionReport::Done,
        ActionReport::Failed,
        ActionReport::Empty(true),
        ActionReport::CloneExit { success: true },
    ] {
        assert_eq!(finished.advance(&report), finished);
    }
}

#[test]
fn artifact_entries() {
    assert!(only_artifact_entries(&names(&["vv"])));
    assert!(only_artifact_entries(&names(&[".vv", "vv"])));
    assert!(!only_artifact_entries(&names(&[])));
    assert!(!only_artifact_entries(&names(&["vv", "src"])));
    assert!(!only_artifact_entries(&names(&[".git"])));
    assert!(!only_artifact_entries(&names(&["VV"])));
}

#[test]
fn action_stages() {
    assert_eq!(IngestAction::Publish(Stage::Indexing).stage(), Some(Stage::Indexing));
    assert_eq!(IngestAction::PublishNotARepository.stage(), Some(Stage::Error));
    assert_eq!(IngestAction::PublishCloneFailure.stage(), Some(Stage::Error));
    assert_eq!(
        IngestAction::PublishFailure(FailureCause::ActionFailed).stage(),
        Some(Stage::Error)
    );
    assert_eq!(IngestAction::FeedDocuments.stage(), None);
    assert_eq!(IngestAction::Stop(Outcome::Completed).stage(), None);
}
