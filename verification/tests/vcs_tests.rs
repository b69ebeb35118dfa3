use repo_ingest::error::AppError;
use repo_ingest::vcs::{
    clone_arguments, listing_arguments, CommandReport, CommitOutcome, CommitPhase, GitStep,
    MirrorOutcome, MirrorPhase,
};

const OK: CommandReport = CommandReport::Ran { success: true, code: Some(0) };
const BAD: CommandReport = CommandReport::Ran { success: false, code: Some(128) };

fn commit_run(reports: &[CommandReport]) -> (Vec<GitStep>, CommitPhase) {
    let mut phase = CommitPhase::start();
    let mut steps = Vec::new();
    for report in reports {
        if let CommitPhase::Running(step) = phase {
            steps.push(step);
        }
        phase = phase.advance(*report);
    }
    (steps, phase)
}

fn mirror_run(reports: &[CommandReport]) -> MirrorPhase {
    let mut phase = MirrorPhase::start();
    for report in reports {
        phase = phase.advance(*report);
    }
    phase
}

#[test]
fn command_arguments() {
    assert_eq!(
        GitStep::SetEmail.arguments(""),
        vec!["config", "user.email", "vv-search@users.noreply.github.com"]
    );
    assert_eq!(GitStep::SetName.arguments(""), vec!["config", "user.name", "vv-search"]);
    assert_eq!(GitStep::StageState.arguments(".vv/state.json"), vec!["add", "-f", ".vv/state.json"]);
    assert_eq!(GitStep::DiffStaged.arguments("x"), vec!["diff", "--cached", "--quiet"]);
    assert_eq!(
        GitStep::CommitState.arguments(".vv/state.json"),
        vec!["commit", "-m", "chore: update vv state", "--", ".vv/state.json"]
    );
    assert_eq!(GitStep::RemoveRemote.arguments(""), vec!["remote", "remove", "mirror"]);
    assert_eq!(
        GitStep::AddRemote.arguments("https://host/m.git"),
        vec!["remote", "add", "mirror", "https://host/m.git"]
    );
    assert_eq!(GitStep::PushMirror.arguments(""), vec!["push", "--mirror", "mirror"]);
    assert_eq!(clone_arguments("url", "/repos/a/b"), vec!["clone", "url", "/repos/a/b"]);
    assert_eq!(listing_arguments("/repos/a/b"), vec!["-C", "/repos/a/b", "ls-files"]);
}

#[test]
fn changed_state_is_committed() {
    let staged = CommandReport::Ran { success: false, code: Some(1) };
    let (steps, phase) = commit_run(&[OK, BAD, OK, staged, OK]);
    assert_eq!(
        steps,
        vec![
            GitStep::SetEmail,
            GitStep::SetName,
            GitStep::StageState,
            GitStep::DiffStaged,
            GitStep::CommitState,
        ]
    );
    assert_eq!(phase, CommitPhase::Finished(CommitOutcome::Committed));
    assert_eq!(CommitOutcome::Committed.error(), None);
}

#[test]
fn unchanged_state_is_not_committed() {
    let (steps, phase) = commit_run(&[OK, OK, OK, OK]);
    assert_eq!(steps.len(), 4);
    assert_eq!(phase, CommitPhase::Finished(CommitOutcome::Unchanged));
    assert_eq!(CommitOutcome::Unchanged.error(), None);
}

#[test]
fn commit_failures() {
    let (_, phase) = commit_run(&[OK, OK, BAD]);
    assert_eq!(phase, CommitPhase::Finished(CommitOutcome::StageFailed));
    let (_, phase) = commit_run(&[OK, OK, OK, BAD]);
    assert_eq!(phase, CommitPhase::Finished(CommitOutcome::InspectFailed));
    let killed = CommandReport::Ran { success: false, code: None };
    let (_, phase) = commit_run(&[OK, OK, OK, killed]);
    assert_eq!(phase, CommitPhase::Finished(CommitOutcome::InspectFailed));
    let staged = CommandReport::Ran { success: false, code: Some(1) };
    let (_, phase) = commit_run(&[OK, OK, OK, staged, BAD]);
    assert_eq!(phase, CommitPhase::Finished(CommitOutcome::CommitFailed));
    let (_, phase) = commit_run(&[CommandReport::Failed]);
    assert_eq!(phase, CommitPhase::Finished(CommitOutcome::ToolFailed));
    let (_, phase) = commit_run(&[OK, OK, OK, OK, BAD, CommandReport::Failed]);
    assert_eq!(phase, CommitPhase::Finished(CommitOutcome::Unchanged));
    assert_eq!(
        CommitPhase::Running(GitStep::PushMirror).advance(OK),
        CommitPhase::Finished(CommitOutcome::ToolFailed)
    );
}

#[test]
fn commit_errors() {
    assert_eq!(
        CommitOutcome::StageFailed.error(),
        Some(AppError::GitHub("failed to stage .vv state file".to_string()))
    );
    assert_eq!(
        CommitOutcome::InspectFailed.error(),
        Some(AppError::GitHub("failed to inspect staged changes for .vv state".to_string()))
    );
    assert_eq!(
        CommitOutcome::CommitFailed.error(),
        Some(AppError::GitHub("failed to commit .vv state file".to_string()))
    );
    assert_eq!(CommitOutcome::ToolFailed.error(), None);
}

#[test]
fn mirroring_runs_its_steps() {
    assert_eq!(MirrorPhase::start(), MirrorPhase::EnsuringRepo);
    assert_eq!(mirror_run(&[OK]), MirrorPhase::Running(GitStep::RemoveRemote));
    assert_eq!(mirror_run(&[OK, BAD]), MirrorPhase::Running(GitStep::AddRemote));
    assert_eq!(mirror_run(&[OK, CommandReport::Failed]), MirrorPhase::Running(GitStep::AddRemote));
    assert_eq!(mirror_run(&[OK, BAD, OK]), MirrorPhase::Running(GitStep::PushMirror));
    assert_eq!(mirror_run(&[OK, BAD, OK, OK]), MirrorPhase::Finished(MirrorOutcome::Mirrored));
    assert_eq!(
        mirror_run(&[OK, BAD, OK, OK, BAD]),
        MirrorPhase::Finished(MirrorOutcome::Mirrored)
    );
}

#[test]
fn mirroring_failures() {
    assert_eq!(mirror_run(&[BAD]), MirrorPhase::Finished(MirrorOutcome::RepoFailed));
    assert_eq!(
        mirror_run(&[CommandReport::Failed]),
        MirrorPhase::Finished(MirrorOutcome::RepoFailed)
    );
    assert_eq!(mirror_run(&[OK, OK, BAD]), MirrorPhase::Finished(MirrorOutcome::RemoteFailed));
    assert_eq!(
        mirror_run(&[OK, OK, CommandReport::Failed]),
        MirrorPhase::Finished(MirrorOutcome::ToolFailed)
    );
    assert_eq!(mirror_run(&[OK, OK, OK, BAD]), MirrorPhase::Finished(MirrorOutcome::PushFailed));
    assert_eq!(
        mirror_run(&[OK, OK, OK, CommandReport::Failed]),
        MirrorPhase::Finished(MirrorOutcome::ToolFailed)
    );
    assert_eq!(
        MirrorPhase::Running(GitStep::SetEmail).advance(OK),
        MirrorPhase::Finished(MirrorOutcome::ToolFailed)
    );
}

#[test]
fn mirroring_errors() {
    assert_eq!(
        MirrorOutcome::RemoteFailed.error(),
        Some(AppError::GitHub("failed to add mirror remote for GitHub".to_string()))
    );
    assert_eq!(
        MirrorOutcome::PushFailed.error(),
        Some(AppError::GitHub("failed to push mirror to GitHub".to_string()))
    );
    assert_eq!(MirrorOutcome::Mirrored.error(), None);
    assert_eq!(MirrorOutcome::RepoFailed.error(), None);
    assert_eq!(MirrorOutcome::ToolFailed.error(), None);
}
