//! The version-control tool: the commands that are run, and what the outcome
//! of each means for recording a repository's state and for mirroring it.

use crate::error::AppError;
use vstd::prelude::*;

verus! {

/// One command of the version-control tool.
#[derive(Clone, Copy, Debug, PartialEq, Eq, Structural)]
pub enum GitStep {
    /// Set the committer's e-mail address.
    SetEmail,
    /// Set the committer's name.
    SetName,
    /// Stage the state file, even where it is ignored.
    StageState,
    /// Ask whether anything is staged.
    DiffStaged,
    /// Commit the state file.
    CommitState,
    /// Remove the remote of the mirror.
    RemoveRemote,
    /// Add the remote of the mirror.
    AddRemote,
    /// Push everything to the mirror.
    PushMirror,
}

/// The arguments of a command; `operand` is the path of the state file, or
/// the address of the mirror, for the commands that take one.
pub open spec fn step_arguments(step: GitStep, operand: Seq<char>) -> Seq<Seq<char>> {
    match step {
        GitStep::SetEmail => seq![
            "config"@,
            "user.email"@,
            "vv-search@users.noreply.github.com"@,
        ],
        GitStep::SetName => seq!["config"@, "user.name"@, "vv-search"@],
        GitStep::StageState => seq!["add"@, "-f"@, operand],
        GitStep::DiffStaged => seq!["diff"@, "--cached"@, "--quiet"@],
        GitStep::CommitState => seq![
            "commit"@,
            "-m"@,
            "chore: update vv state"@,
            "--"@,
            operand,
        ],
        GitStep::RemoveRemote => seq!["remote"@, "remove"@, "mirror"@],
        GitStep::AddRemote => seq!["remote"@, "add"@, "mirror"@, operand],
        GitStep::PushMirror => seq!["push"@, "--mirror"@, "mirror"@],
    }
}

fn words3(a: &str, b: &str, c: &str) -> (v: Vec<String>)
    ensures
        v.deep_view() == seq![a@, b@, c@],
{
    let mut v: Vec<String> = Vec::new();
    v.push(a.to_owned());
    v.push(b.to_owned());
    v.push(c.to_owned());
    assert(v.deep_view() == seq![a@, b@, c@]);
    v
}

fn and_word(words: Vec<String>, word: &str) -> (v: Vec<String>)
    ensures
        v.deep_view() == words.deep_view().push(word@),
{
    let mut v: Vec<String> = words;
    v.push(word.to_owned());
    assert(v.deep_view() == words.deep_view().push(word@));
    v
}

impl GitStep {
    /// The arguments with which the tool is run for this command.
    pub fn arguments(self, operand: &str) -> (args: Vec<String>)
        ensures
            args.deep_view() == step_arguments(self, operand@),
    {
        match self {
            GitStep::SetEmail => words3(
                "config",
                "user.email",
                "vv-search@users.noreply.github.com",
            ),
            GitStep::SetName => words3("config", "user.name", "vv-search"),
            GitStep::StageState => words3("add", "-f", operand),
            GitStep::DiffStaged => words3("diff", "--cached", "--quiet"),
            GitStep::CommitState => {
                let args: Vec<String> = and_word(
                    and_word(words3("commit", "-m", "chore: update vv state"), "--"),
                    operand,
                );
                assert(args.deep_view() == step_arguments(self, operand@));
                args
            },
            GitStep::RemoveRemote => words3("remote", "remove", "mirror"),
            GitStep::AddRemote => {
                let args: Vec<String> = and_word(words3("remote", "add", "mirror"), operand);
                assert(args.deep_view() == step_arguments(self, operand@));
                args
            },
            GitStep::PushMirror => words3("push", "--mirror", "mirror"),
        }
    }
}

/// The arguments that clone `repo_url` into `target`.
pub fn clone_arguments(repo_url: &str, target: &str) -> (args: Vec<String>)
    ensures
        args.deep_view() == seq!["clone"@, repo_url@, target@],
{
    words3("clone", repo_url, target)
}

/// The arguments that list the tracked files of the working copy at `workdir`.
pub fn listing_arguments(workdir: &str) -> (args: Vec<String>)
    ensures
        args.deep_view() == seq!["-C"@, workdir@, "ls-files"@],
{
    words3("-C", workdir, "ls-files")
}

/// What came of running a command.
#[derive(Clone, Copy, Debug, PartialEq, Eq, Structural)]
pub enum CommandReport {
    /// The command ran and ended, with success or not, and with this exit
    /// code where it has one.
    Ran { success: bool, code: Option<i32> },
    /// The command could not be run.
    Failed,
}

/// How recording a repository's state ended.
#[derive(Clone, Copy, Debug, PartialEq, Eq, Structural)]
pub enum CommitOutcome {
    /// The state file was committed.
    Committed,
    /// The state file was as committed before: nothing was to do.
    Unchanged,
    /// Staging the state file failed.
    StageFailed,
    /// The tool could not tell whether anything is staged.
    InspectFailed,
    /// Committing the state file failed.
    CommitFailed,
    /// A command could not be run.
    ToolFailed,
}

/// Where recording a repository's state stands.
#[derive(Clone, Copy, Debug, PartialEq, Eq, Structural)]
pub enum CommitPhase {
    Running(GitStep),
    Finished(CommitOutcome),
}

impl CommitPhase {
    /// The phase that follows when `report` came of the command in flight.
    ///
    /// The settings of the committer count as done however they ended. An
    /// exit code of 0 of the inspection says that nothing is staged, 1 that
    /// something is; any other ending is a failure.
    pub open spec fn following(self, report: CommandReport) -> CommitPhase {
        match self {
            CommitPhase::Finished(_) => self,
            CommitPhase::Running(step) => match report {
                CommandReport::Failed => CommitPhase::Finished(CommitOutcome::ToolFailed),
                CommandReport::Ran { success, code } => match step {
                    GitStep::SetEmail => CommitPhase::Running(GitStep::SetName),
                    GitStep::SetName => CommitPhase::Running(GitStep::StageState),
                    GitStep::StageState => if success {
                        CommitPhase::Running(GitStep::DiffStaged)
                    } else {
                        CommitPhase::Finished(CommitOutcome::StageFailed)
                    },
                    GitStep::DiffStaged => if code == Some(0i32) {
                        CommitPhase::Finished(CommitOutcome::Unchanged)
                    } else if code == Some(1i32) {
                        CommitPhase::Running(GitStep::CommitState)
                    } else {
                        CommitPhase::Finished(CommitOutcome::InspectFailed)
                    },
                    GitStep::CommitState => if success {
                        CommitPhase::Finished(CommitOutcome::Committed)
                    } else {
                        CommitPhase::Finished(CommitOutcome::CommitFailed)
                    },
                    _ => CommitPhase::Finished(CommitOutcome::ToolFailed),
                },
            },
        }
    }

    /// The phase in which recording starts.
    pub fn start() -> (phase: CommitPhase)
        ensures
            phase == CommitPhase::Running(GitStep::SetEmail),
    {
        CommitPhase::Running(GitStep::SetEmail)
    }

    /// The phase after `report` came of the command in flight.
    pub fn advance(self, report: CommandReport) -> (next: CommitPhase)
        ensures
            next == self.following(report),
    {
        let step: GitStep = match self {
            CommitPhase::Finished(_) => {
                return self;
            },
            CommitPhase::Running(step) => step,
        };
        let (success, code): (bool, Option<i32>) = match report {
            CommandReport::Failed => {
                return CommitPhase::Finished(CommitOutcome::ToolFailed);
            },
            CommandReport::Ran { success, code } => (success, code),
        };
        match step {
            GitStep::SetEmail => CommitPhase::Running(GitStep::SetName),
            GitStep::SetName => CommitPhase::Running(GitStep::StageState),
            GitStep::StageState => {
                if success {
                    CommitPhase::Running(GitStep::DiffStaged)
                } else {
                    CommitPhase::Finished(CommitOutcome::StageFailed)
                }
            },
            GitStep::DiffStaged => match code {
                Some(0) => CommitPhase::Finished(CommitOutcome::Unchanged),
                Some(1) => CommitPhase::Running(GitStep::CommitState),
                _ => CommitPhase::Finished(CommitOutcome::InspectFailed),
            },
            GitStep::CommitState => {
                if success {
                    CommitPhase::Finished(CommitOutcome::Committed)
                } else {
                    CommitPhase::Finished(CommitOutcome::CommitFailed)
                }
            },
            _ => CommitPhase::Finished(CommitOutcome::ToolFailed),
        }
    }
}

impl CommitOutcome {
    /// The text of the error that the outcome stands for, where it is a
    /// failure that the tool reported.
    pub open spec fn error_text(self) -> Option<Seq<char>> {
        match self {
            CommitOutcome::StageFailed => Some("failed to stage .vv state file"@),
            CommitOutcome::InspectFailed => Some(
                "failed to inspect staged changes for .vv state"@,
            ),
            CommitOutcome::CommitFailed => Some("failed to commit .vv state file"@),
            _ => None,
        }
    }

    /// The error that the outcome stands for; none for a success, and none
    /// for a command that could not be run, which brings its own error.
    pub fn error(self) -> (r: Option<AppError>)
        ensures
            match self.error_text() {
                Some(text) => r matches Some(AppError::GitHub(detail)) && detail@ == text,
                None => r is None,
            },
    {
        match self {
            CommitOutcome::StageFailed => Some(
                AppError::GitHub("failed to stage .vv state file".to_owned()),
            ),
            CommitOutcome::InspectFailed => Some(
                AppError::GitHub("failed to inspect staged changes for .vv state".to_owned()),
            ),
            CommitOutcome::CommitFailed => Some(
                AppError::GitHub("failed to commit .vv state file".to_owned()),
            ),
            _ => None,
        }
    }
}

/// How mirroring ended.
#[derive(Clone, Copy, Debug, PartialEq, Eq, Structural)]
pub enum MirrorOutcome {
    /// The working copy was pushed to the mirror.
    Mirrored,
    /// The mirror could not be made sure of.
    RepoFailed,
    /// The remote of the mirror could not be added.
    RemoteFailed,
    /// Pushing to the mirror failed.
    PushFailed,
    /// A command could not be run.
    ToolFailed,
}

/// Where mirroring stands.
#[derive(Clone, Copy, Debug, PartialEq, Eq, Structural)]
pub enum MirrorPhase {
    /// The hosting service is asked to create the mirror.
    EnsuringRepo,
    Running(GitStep),
    Finished(MirrorOutcome),
}

impl MirrorPhase {
    /// The phase that follows when `report` came of what is in flight.
    ///
    /// An earlier remote is removed first; that there was none is no failure.
    pub open spec fn following(self, report: CommandReport) -> MirrorPhase {
        match self {
            MirrorPhase::Finished(_) => self,
            MirrorPhase::EnsuringRepo => match report {
                CommandReport::Ran { success: true, .. } => MirrorPhase::Running(
                    GitStep::RemoveRemote,
                ),
                _ => MirrorPhase::Finished(MirrorOutcome::RepoFailed),
            },
            MirrorPhase::Running(GitStep::RemoveRemote) => MirrorPhase::Running(GitStep::AddRemote),
            MirrorPhase::Running(GitStep::AddRemote) => match report {
                CommandReport::Ran { success: true, .. } => MirrorPhase::Running(
                    GitStep::PushMirror,
                ),
                CommandReport::Ran { success: false, .. } => MirrorPhase::Finished(
                    MirrorOutcome::RemoteFailed,
                ),
                CommandReport::Failed => MirrorPhase::Finished(MirrorOutcome::ToolFailed),
            },
            MirrorPhase::Running(GitStep::PushMirror) => match report {
                CommandReport::Ran { success: true, .. } => MirrorPhase::Finished(
                    MirrorOutcome::Mirrored,
                ),
                CommandReport::Ran { success: false, .. } => MirrorPhase::Finished(
                    MirrorOutcome::PushFailed,
                ),
                CommandReport::Failed => MirrorPhase::Finished(MirrorOutcome::ToolFailed),
            },
            MirrorPhase::Running(_) => MirrorPhase::Finished(MirrorOutcome::ToolFailed),
        }
    }

    /// The phase in which mirroring starts.
    pub fn start() -> (phase: MirrorPhase)
        ensures
            phase == MirrorPhase::EnsuringRepo,
    {
        MirrorPhase::EnsuringRepo
    }

    /// The phase after `report` came of what is in flight.
    pub fn advance(self, report: CommandReport) -> (next: MirrorPhase)
        ensures
            next == self.following(report),
    {
        match self {
            MirrorPhase::Finished(_) => self,
            MirrorPhase::EnsuringRepo => match report {
                CommandReport::Ran { success: true, .. } => MirrorPhase::Running(
                    GitStep::RemoveRemote,
                ),
                _ => MirrorPhase::Finished(MirrorOutcome::RepoFailed),
            },
            MirrorPhase::Running(GitStep::RemoveRemote) => MirrorPhase::Running(GitStep::AddRemote),
            MirrorPhase::Running(GitStep::AddRemote) => match report {
                CommandReport::Ran { success: true, .. } => MirrorPhase::Running(
                    GitStep::PushMirror,
                ),
                CommandReport::Ran { success: false, .. } => MirrorPhase::Finished(
                    MirrorOutcome::RemoteFailed,
                ),
                CommandReport::Failed => MirrorPhase::Finished(MirrorOutcome::ToolFailed),
            },
            MirrorPhase::Running(GitStep::PushMirror) => match report {
                CommandReport::Ran { success: true, .. } => MirrorPhase::Finished(
                    MirrorOutcome::Mirrored,
                ),
                CommandReport::Ran { success: false, .. } => MirrorPhase::Finished(
                    MirrorOutcome::PushFailed,
                ),
                CommandReport::Failed => MirrorPhase::Finished(MirrorOutcome::ToolFailed),
            },
            MirrorPhase::Running(_) => MirrorPhase::Finished(MirrorOutcome::ToolFailed),
        }
    }
}

impl MirrorOutcome {
    /// The text of the error that the outcome stands for, where it is a
    /// failure that the tool reported.
    pub open spec fn error_text(self) -> Option<Seq<char>> {
        match self {
            MirrorOutcome::RemoteFailed => Some("failed to add mirror remote for GitHub"@),
            MirrorOutcome::PushFailed => Some("failed to push mirror to GitHub"@),
            _ => None,
        }
    }

    /// The error that the outcome stands for; none for a success, and none
    /// for a failure that brings its own error.
    pub fn error(self) -> (r: Option<AppError>)
        ensures
            match self.error_text() {
                Some(text) => r matches Some(AppError::GitHub(detail)) && detail@ == text,
                None => r is None,
            },
    {
        match self {
            MirrorOutcome::RemoteFailed => Some(
                AppError::GitHub("failed to add mirror remote for GitHub".to_owned()),
            ),
            MirrorOutcome::PushFailed => Some(
                AppError::GitHub("failed to push mirror to GitHub".to_owned()),
            ),
            _ => None,
        }
    }
}

} // verus!
