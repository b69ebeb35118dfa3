//! The ingestion orchestrator as a state machine.
//!
//! One ingestion is a sequence of actions on the outside world (publishing a
//! status, probing the working copy, cloning, mirroring, feeding, summarizing).
//! The machine holds no handle on that world: a driver performs the action
//! that the current state asks for and reports what came back, and the machine
//! decides what happens next.

use crate::error::AppError;
use crate::status::Stage;
use crate::text::{push_chars, to_chars, trim_bounds, trimmed};
use vstd::prelude::*;
use vstd::string::StringExecFns;

verus! {

/// Why an ingestion ended in the `error` stage.
#[derive(Clone, Copy, Debug, PartialEq, Eq, Structural)]
pub enum FailureCause {
    /// The local path exists, holds no working copy, and holds entries other
    /// than ingestion artifacts.
    NotAGitRepository,
    /// The version-control tool ran and reported failure.
    CloneFailed,
    /// The last action failed with an error of its own.
    ActionFailed,
}

/// How an ingestion ended.
#[derive(Clone, Copy, Debug, PartialEq, Eq, Structural)]
pub enum Outcome {
    /// Every stage was passed; `complete` was published.
    Completed,
    /// The ingestion failed; the `error` stage was published where that was possible.
    Failed(FailureCause),
    /// The `queued` status could not be published, so nothing was started.
    NotStarted,
}

/// What the driver is asked to do.
#[derive(Clone, Copy, Debug, PartialEq, Eq, Structural)]
pub enum IngestAction {
    /// Persist and broadcast the stage with its standard announcement.
    Publish(Stage),
    /// Report whether the local path exists and whether it holds a working copy.
    ProbeWorkdir,
    /// Report whether the directory at the local path is empty.
    ProbeEmpty,
    /// Report the names of the entries of the directory at the local path.
    ListEntries,
    /// Remove the artifacts directory below the local path.
    RemoveArtifacts,
    /// Remove the (empty) directory at the local path.
    RemoveDirectory,
    /// Publish `error`: the path exists but is no working copy.
    PublishNotARepository,
    /// Create the parent directory and clone the repository into the local path.
    CloneRepository,
    /// Publish `error` with what the version-control tool printed.
    PublishCloneFailure,
    /// Write the repository's state file into the working copy and commit it.
    RecordState,
    /// Mirror the working copy to the source-hosting side.
    MirrorRepository,
    /// Create the artifact directories, the manifest, an empty journal and the
    /// placeholder summary.
    PrepareArtifacts,
    /// Feed every indexable file to the remote index.
    FeedDocuments,
    /// Generate and store the repository summary.
    Summarize,
    /// Publish `error` with the message of the error that ended the ingestion.
    PublishFailure(FailureCause),
    /// Nothing is left to do.
    Stop(Outcome),
}

/// What the driver reports after an action.
#[derive(Debug)]
pub enum ActionReport {
    /// The action succeeded.
    Done,
    /// The action failed with an error.
    Failed,
    /// Answer to `ProbeWorkdir`.
    Workdir { exists: bool, has_git_dir: bool },
    /// Answer to `ProbeEmpty`.
    Empty(bool),
    /// Answer to `ListEntries`.
    Entries(Vec<String>),
    /// Answer to `CloneRepository` when the tool ran: whether it reported success.
    CloneExit { success: bool },
}

/// Where an ingestion stands: each state names the action in flight.
#[derive(Clone, Copy, Debug, PartialEq, Eq, Structural)]
pub enum IngestState {
    Queued,
    AnnouncingClone,
    ProbingWorkdir,
    ProbingEmpty,
    ListingEntries,
    RemovingArtifacts,
    ProbingEmptied,
    RemovingDirectory,
    ReportingForeign,
    Cloning,
    ReportingCloneFailure,
    RecordingState,
    AnnouncingMirror,
    Mirroring,
    PreparingArtifacts,
    AnnouncingIndex,
    Feeding,
    AnnouncingSummary,
    Summarizing,
    AnnouncingComplete,
    ReportingFailure(FailureCause),
    Finished(Outcome),
}

/// The directory holds at least one entry, and nothing but ingestion artifacts.
pub open spec fn only_artifacts(names: Seq<Seq<char>>) -> bool {
    names.len() > 0 && forall|i: int|
        0 <= i < names.len() ==> (#[trigger] names[i] == "vv"@ || names[i] == ".vv"@)
}

/// Whether `names` holds at least one entry, and nothing but ingestion artifacts.
pub fn only_artifact_entries(names: &Vec<String>) -> (r: bool)
    ensures
        r == only_artifacts(names.deep_view()),
{
    let n: usize = names.len();
    let mut i: usize = 0;
    while i < n
        invariant
            i <= n == names.len(),
            forall|j: int|
                0 <= j < i ==> (#[trigger] names.deep_view()[j] == "vv"@ || names.deep_view()[j]
                    == ".vv"@),
        decreases n - i,
    {
        let name: &str = names[i].as_str();
        assert(names.deep_view()[i as int] == name@);
        if !crate::text::same_text(name, "vv") && !crate::text::same_text(name, ".vv") {
            return false;
        }
        i += 1;
    }
    n > 0
}

impl ActionReport {
    /// The report lists entries that are all ingestion artifacts.
    pub open spec fn artifacts_only(&self) -> bool {
        self matches ActionReport::Entries(names) && only_artifacts(names.deep_view())
    }
}

impl IngestState {
    /// The state in which every ingestion starts.
    pub fn start() -> (s: IngestState)
        ensures
            s == IngestState::Queued,
    {
        IngestState::Queued
    }

    /// The action that the state asks for.
    pub open spec fn spec_action(self) -> IngestAction {
        match self {
            IngestState::Queued => IngestAction::Publish(Stage::Queued),
            IngestState::AnnouncingClone => IngestAction::Publish(Stage::Cloning),
            IngestState::ProbingWorkdir => IngestAction::ProbeWorkdir,
            IngestState::ProbingEmpty => IngestAction::ProbeEmpty,
            IngestState::ListingEntries => IngestAction::ListEntries,
            IngestState::RemovingArtifacts => IngestAction::RemoveArtifacts,
            IngestState::ProbingEmptied => IngestAction::ProbeEmpty,
            IngestState::RemovingDirectory => IngestAction::RemoveDirectory,
            IngestState::ReportingForeign => IngestAction::PublishNotARepository,
            IngestState::Cloning => IngestAction::CloneRepository,
            IngestState::ReportingCloneFailure => IngestAction::PublishCloneFailure,
            IngestState::RecordingState => IngestAction::RecordState,
            IngestState::AnnouncingMirror => IngestAction::Publish(Stage::Mirroring),
            IngestState::Mirroring => IngestAction::MirrorRepository,
            IngestState::PreparingArtifacts => IngestAction::PrepareArtifacts,
            IngestState::AnnouncingIndex => IngestAction::Publish(Stage::Indexing),
            IngestState::Feeding => IngestAction::FeedDocuments,
            IngestState::AnnouncingSummary => IngestAction::Publish(Stage::Summarizing),
            IngestState::Summarizing => IngestAction::Summarize,
            IngestState::AnnouncingComplete => IngestAction::Publish(Stage::Complete),
            IngestState::ReportingFailure(cause) => IngestAction::PublishFailure(cause),
            IngestState::Finished(outcome) => IngestAction::Stop(outcome),
        }
    }

    /// The state that follows when a plain action succeeds.
    pub open spec fn after_success(self) -> IngestState {
        match self {
            IngestState::Queued => IngestState::AnnouncingClone,
            IngestState::AnnouncingClone => IngestState::ProbingWorkdir,
            IngestState::RemovingDirectory => IngestState::Cloning,
            IngestState::ReportingForeign => IngestState::ReportingFailure(
                FailureCause::NotAGitRepository,
            ),
            IngestState::ReportingCloneFailure => IngestState::ReportingFailure(
                FailureCause::CloneFailed,
            ),
            IngestState::RecordingState => IngestState::AnnouncingMirror,
            IngestState::AnnouncingMirror => IngestState::Mirroring,
            IngestState::Mirroring => IngestState::PreparingArtifacts,
            IngestState::PreparingArtifacts => IngestState::AnnouncingIndex,
            IngestState::AnnouncingIndex => IngestState::Feeding,
            IngestState::Feeding => IngestState::AnnouncingSummary,
            IngestState::AnnouncingSummary => IngestState::Summarizing,
            IngestState::AnnouncingComplete => IngestState::Finished(Outcome::Completed),
            _ => IngestState::ReportingFailure(FailureCause::ActionFailed),
        }
    }

    /// The state that follows when the action in flight fails, or when the
    /// report is none that the action can give.
    pub open spec fn after_failure(self) -> IngestState {
        match self {
            IngestState::Queued => IngestState::Finished(Outcome::NotStarted),
            _ => IngestState::ReportingFailure(FailureCause::ActionFailed),
        }
    }

    /// The transition function: the state that follows `self` on `report`.
    ///
    /// A failed summary and a failed removal of the artifacts are tolerated; a
    /// failure while the final `error` is published ends the ingestion all the
    /// same; a finished ingestion stays finished.
    pub open spec fn spec_advance(self, report: ActionReport) -> IngestState {
        match self {
            IngestState::Finished(outcome) => self,
            IngestState::ReportingFailure(cause) => IngestState::Finished(Outcome::Failed(cause)),
            IngestState::Summarizing => IngestState::AnnouncingComplete,
            IngestState::RemovingArtifacts => IngestState::ProbingEmptied,
            IngestState::ProbingWorkdir => match report {
                ActionReport::Workdir { exists, has_git_dir } => if !exists {
                    IngestState::Cloning
                } else if has_git_dir {
                    IngestState::RecordingState
                } else {
                    IngestState::ProbingEmpty
                },
                _ => self.after_failure(),
            },
            IngestState::ProbingEmpty => match report {
                ActionReport::Empty(empty) => if empty {
                    IngestState::RemovingDirectory
                } else {
                    IngestState::ListingEntries
                },
                _ => self.after_failure(),
            },
            IngestState::ListingEntries => match report {
                ActionReport::Entries(names) => if report.artifacts_only() {
                    IngestState::RemovingArtifacts
                } else {
                    IngestState::ReportingForeign
                },
                _ => self.after_failure(),
            },
            IngestState::ProbingEmptied => match report {
                ActionReport::Empty(empty) => if empty {
                    IngestState::RemovingDirectory
                } else {
                    IngestState::ReportingForeign
                },
                _ => self.after_failure(),
            },
            IngestState::Cloning => match report {
                ActionReport::CloneExit { success } => if success {
                    IngestState::RecordingState
                } else {
                    IngestState::ReportingCloneFailure
                },
                _ => self.after_failure(),
            },
            _ => match report {
                ActionReport::Done => self.after_success(),
                _ => self.after_failure(),
            },
        }
    }

    /// The action that the driver has to perform in this state.
    pub fn action(self) -> (a: IngestAction)
        ensures
            a == self.spec_action(),
    {
        match self {
            IngestState::Queued => IngestAction::Publish(Stage::Queued),
            IngestState::AnnouncingClone => IngestAction::Publish(Stage::Cloning),
            IngestState::ProbingWorkdir => IngestAction::ProbeWorkdir,
            IngestState::ProbingEmpty => IngestAction::ProbeEmpty,
            IngestState::ListingEntries => IngestAction::ListEntries,
            IngestState::RemovingArtifacts => IngestAction::RemoveArtifacts,
            IngestState::ProbingEmptied => IngestAction::ProbeEmpty,
            IngestState::RemovingDirectory => IngestAction::RemoveDirectory,
            IngestState::ReportingForeign => IngestAction::PublishNotARepository,
            IngestState::Cloning => IngestAction::CloneRepository,
            IngestState::ReportingCloneFailure => IngestAction::PublishCloneFailure,
            IngestState::RecordingState => IngestAction::RecordState,
            IngestState::AnnouncingMirror => IngestAction::Publish(Stage::Mirroring),
            IngestState::Mirroring => IngestAction::MirrorRepository,
            IngestState::PreparingArtifacts => IngestAction::PrepareArtifacts,
            IngestState::AnnouncingIndex => IngestAction::Publish(Stage::Indexing),
            IngestState::Feeding => IngestAction::FeedDocuments,
            IngestState::AnnouncingSummary => IngestAction::Publish(Stage::Summarizing),
            IngestState::Summarizing => IngestAction::Summarize,
            IngestState::AnnouncingComplete => IngestAction::Publish(Stage::Complete),
            IngestState::ReportingFailure(cause) => IngestAction::PublishFailure(cause),
            IngestState::Finished(outcome) => IngestAction::Stop(outcome),
        }
    }

    /// The state after the driver reported `report` for the action in flight.
    ///
    /// Directories are removed only on a report that says so: the directory is
    /// removed only when it was reported empty, the artifacts only when nothing
    /// else was listed. A listing with any other entry leads to the `error`
    /// stage and to no removal.
    pub fn advance(self, report: &ActionReport) -> (next: IngestState)
        ensures
            next == self.spec_advance(*report),
            next.spec_action() == IngestAction::RemoveDirectory ==> report == ActionReport::Empty(
                true,
            ),
            next.spec_action() == IngestAction::RemoveArtifacts ==> report.artifacts_only(),
            self == IngestState::ListingEntries && report is Entries && !report.artifacts_only()
                ==> next == IngestState::ReportingForeign,
    {
        match self {
            IngestState::Finished(_) => self,
            IngestState::ReportingFailure(cause) => IngestState::Finished(Outcome::Failed(cause)),
            IngestState::Summarizing => IngestState::AnnouncingComplete,
            IngestState::RemovingArtifacts => IngestState::ProbingEmptied,
            IngestState::ProbingWorkdir => match report {
                ActionReport::Workdir { exists, has_git_dir } => {
                    if !*exists {
                        IngestState::Cloning
                    } else if *has_git_dir {
                        IngestState::RecordingState
                    } else {
                        IngestState::ProbingEmpty
                    }
                },
                _ => self.failed(),
            },
            IngestState::ProbingEmpty => match report {
                ActionReport::Empty(empty) => {
                    if *empty {
                        IngestState::RemovingDirectory
                    } else {
                        IngestState::ListingEntries
                    }
                },
                _ => self.failed(),
            },
            IngestState::ListingEntries => match report {
                ActionReport::Entries(names) => {
                    if only_artifact_entries(names) {
                        IngestState::RemovingArtifacts
                    } else {
                        IngestState::ReportingForeign
                    }
                },
                _ => self.failed(),
            },
            IngestState::ProbingEmptied => match report {
                ActionReport::Empty(empty) => {
                    if *empty {
                        IngestState::RemovingDirectory
                    } else {
                        IngestState::ReportingForeign
                    }
                },
                _ => self.failed(),
            },
            IngestState::Cloning => match report {
                ActionReport::CloneExit { success } => {
                    if *success {
                        IngestState::RecordingState
                    } else {
                        IngestState::ReportingCloneFailure
                    }
                },
                _ => self.failed(),
            },
            _ => match report {
                ActionReport::Done => self.succeeded(),
                _ => self.failed(),
            },
        }
    }

    fn succeeded(self) -> (next: IngestState)
        ensures
            next == self.after_success(),
    {
        match self {
            IngestState::Queued => IngestState::AnnouncingClone,
            IngestState::AnnouncingClone => IngestState::ProbingWorkdir,
            IngestState::RemovingDirectory => IngestState::Cloning,
            IngestState::ReportingForeign => IngestState::ReportingFailure(
                FailureCause::NotAGitRepository,
            ),
            IngestState::ReportingCloneFailure => IngestState::ReportingFailure(
                FailureCause::CloneFailed,
            ),
            IngestState::RecordingState => IngestState::AnnouncingMirror,
            IngestState::AnnouncingMirror => IngestState::Mirroring,
            IngestState::Mirroring => IngestState::PreparingArtifacts,
            IngestState::PreparingArtifacts => IngestState::AnnouncingIndex,
            IngestState::AnnouncingIndex => IngestState::Feeding,
            IngestState::Feeding => IngestState::AnnouncingSummary,
            IngestState::AnnouncingSummary => IngestState::Summarizing,
            IngestState::AnnouncingComplete => IngestState::Finished(Outcome::Completed),
            _ => IngestState::ReportingFailure(FailureCause::ActionFailed),
        }
    }

    fn failed(self) -> (next: IngestState)
        ensures
            next == self.after_failure(),
    {
        match self {
            IngestState::Queued => IngestState::Finished(Outcome::NotStarted),
            _ => IngestState::ReportingFailure(FailureCause::ActionFailed),
        }
    }
}

impl IngestAction {
    /// The stage that the action publishes, if it publishes one.
    pub open spec fn published(self) -> Option<Stage> {
        match self {
            IngestAction::Publish(stage) => Some(stage),
            IngestAction::PublishNotARepository => Some(Stage::Error),
            IngestAction::PublishCloneFailure => Some(Stage::Error),
            IngestAction::PublishFailure(_) => Some(Stage::Error),
            _ => None,
        }
    }

    /// The stage that the action publishes, if it publishes one.
    pub fn stage(self) -> (r: Option<Stage>)
        ensures
            r == self.published(),
    {
        match self {
            IngestAction::Publish(stage) => Some(stage),
            IngestAction::PublishNotARepository => Some(Stage::Error),
            IngestAction::PublishCloneFailure => Some(Stage::Error),
            IngestAction::PublishFailure(_) => Some(Stage::Error),
            _ => None,
        }
    }
}

impl FailureCause {
    /// The error with which the ingestion ends, where the machine itself
    /// found the failure; `None` where the failed action brought its own.
    pub open spec fn error_detail(self) -> Option<Seq<char>> {
        match self {
            FailureCause::NotAGitRepository => Some(
                "repo path exists but is not a git repository"@,
            ),
            FailureCause::CloneFailed => Some("git clone failed"@),
            FailureCause::ActionFailed => None,
        }
    }

    /// The I/O error that stands for the cause, where the machine itself found
    /// the failure.
    pub fn error(self) -> (r: Option<AppError>)
        ensures
            match self.error_detail() {
                Some(detail) => r matches Some(AppError::Io(text)) && text@ == detail,
                None => r is None,
            },
    {
        match self {
            FailureCause::NotAGitRepository => Some(
                AppError::Io("repo path exists but is not a git repository".to_owned()),
            ),
            FailureCause::CloneFailed => Some(AppError::Io("git clone failed".to_owned())),
            FailureCause::ActionFailed => None,
        }
    }
}

/// The message published with `error` when the local path holds foreign content.
pub fn not_a_repository_message() -> (m: &'static str)
    ensures
        m@ == "Repo path exists but is not a git repository"@,
{
    "Repo path exists but is not a git repository"
}

/// The message published with `error` when cloning failed: what the tool
/// printed on its error stream, trimmed.
pub fn clone_failure_message(stderr: &str) -> (m: String)
    ensures
        m@ == "Git clone failed: "@ + trimmed(stderr@),
{
    let chars: Vec<char> = to_chars(stderr);
    let (start, end): (usize, usize) = trim_bounds(&chars);
    let mut m = String::new();
    m.append("Git clone failed: ");
    push_chars(&mut m, &chars, start, end);
    m
}

/// The state reached from `state` after the driver gave `reports`, in order.
pub open spec fn run(state: IngestState, reports: Seq<ActionReport>) -> IngestState
    decreases reports.len(),
{
    if reports.len() == 0 {
        state
    } else {
        run(state, reports.drop_last()).spec_advance(reports.last())
    }
}

/// The stages published, in order, by the actions performed while the driver
/// gave `reports` from `state` on.
pub open spec fn announced(state: IngestState, reports: Seq<ActionReport>) -> Seq<Stage>
    decreases reports.len(),
{
    if reports.len() == 0 {
        Seq::empty()
    } else {
        let before = run(state, reports.drop_last());
        match before.spec_action().published() {
            Some(stage) => announced(state, reports.drop_last()).push(stage),
            None => announced(state, reports.drop_last()),
        }
    }
}

/// The stages of a successful ingestion, in order.
pub open spec fn stage_order() -> Seq<Stage> {
    seq![
        Stage::Queued,
        Stage::Cloning,
        Stage::Mirroring,
        Stage::Indexing,
        Stage::Summarizing,
        Stage::Complete,
    ]
}

impl IngestState {
    /// How many stages of `stage_order` have been published when the state is
    /// entered, for the states that can still lead to `complete`.
    pub open spec fn progress(self) -> Option<int> {
        match self {
            IngestState::Queued => Some(0),
            IngestState::AnnouncingClone => Some(1),
            IngestState::ProbingWorkdir
            | IngestState::ProbingEmpty
            | IngestState::ListingEntries
            | IngestState::RemovingArtifacts
            | IngestState::ProbingEmptied
            | IngestState::RemovingDirectory
            | IngestState::Cloning
            | IngestState::RecordingState
            | IngestState::AnnouncingMirror => Some(2),
            IngestState::Mirroring
            | IngestState::PreparingArtifacts
            | IngestState::AnnouncingIndex => Some(3),
            IngestState::Feeding | IngestState::AnnouncingSummary => Some(4),
            IngestState::Summarizing | IngestState::AnnouncingComplete => Some(5),
            IngestState::Finished(Outcome::Completed) => Some(6),
            _ => None,
        }
    }

    /// The highest rank that a stage published before the state is entered can have.
    pub open spec fn level(self) -> int {
        match self.progress() {
            Some(n) => n - 1,
            None => 6,
        }
    }
}

proof fn lemma_run_invariant(reports: Seq<ActionReport>)
    ensures
        run(IngestState::Queued, reports).progress() matches Some(n) ==> announced(
            IngestState::Queued,
            reports,
        ) == stage_order().take(n),
        forall|i: int|
            0 <= i < announced(IngestState::Queued, reports).len() ==> #[trigger] announced(
                IngestState::Queued,
                reports,
            )[i].rank() <= run(IngestState::Queued, reports).level(),
        forall|i: int, j: int|
            0 <= i <= j < announced(IngestState::Queued, reports).len() ==> #[trigger] announced(
                IngestState::Queued,
                reports,
            )[i].rank() <= #[trigger] announced(IngestState::Queued, reports)[j].rank(),
    decreases reports.len(),
{
    let start = IngestState::Queued;
    if reports.len() == 0 {
        assert(stage_order().take(0) == Seq::<Stage>::empty());
    } else {
        let earlier = reports.drop_last();
        lemma_run_invariant(earlier);
        let before = run(start, earlier);
        let after = run(start, reports);
        let old_stages = announced(start, earlier);
        let new_stages = announced(start, reports);
        assert(after == before.spec_advance(reports.last()));
        match after.progress() {
            Some(n) => {
                assert(before.progress() is Some);
                let m = before.progress()->0;
                assert(old_stages == stage_order().take(m));
                if before.spec_action().published() is Some {
                    assert(n == m + 1);
                    assert(before.spec_action().published()->0 == stage_order()[m]);
                    assert(stage_order().take(m).push(stage_order()[m]) == stage_order().take(n));
                } else {
                    assert(n == m);
                }
            },
            None => {},
        }
        assert forall|i: int| 0 <= i < new_stages.len() implies #[trigger] new_stages[i].rank()
            <= after.level() by {
            if i < old_stages.len() {
                assert(new_stages[i] == old_stages[i]);
                assert(old_stages[i].rank() <= before.level());
            }
        }
        assert forall|i: int, j: int| 0 <= i <= j < new_stages.len() implies #[trigger] new_stages[i].rank()
            <= #[trigger] new_stages[j].rank() by {
            if j < old_stages.len() {
                assert(new_stages[i] == old_stages[i]);
                assert(new_stages[j] == old_stages[j]);
            } else if i < old_stages.len() {
                assert(new_stages[i] == old_stages[i]);
                assert(old_stages[i].rank() <= before.level());
            }
        }
    }
}

/// Every ingestion that completes has published the six stages `queued`,
/// `cloning`, `mirroring`, `indexing`, `summarizing`, `complete`, each once
/// and in that order, and nothing else.
pub proof fn lemma_completed_run_announces_every_stage(reports: Seq<ActionReport>)
    requires
        run(IngestState::Queued, reports) == IngestState::Finished(Outcome::Completed),
    ensures
        announced(IngestState::Queued, reports) == stage_order(),
{
    lemma_run_invariant(reports);
    assert(stage_order().take(6) == stage_order());
}

/// In every ingestion, whatever the driver reports, the published stages never
/// go back: a stage is followed only by itself (`error` twice) or a later one.
pub proof fn lemma_stages_never_go_back(reports: Seq<ActionReport>, i: int, j: int)
    requires
        0 <= i <= j < announced(IngestState::Queued, reports).len(),
    ensures
        announced(IngestState::Queued, reports)[i].rank() <= announced(
            IngestState::Queued,
            reports,
        )[j].rank(),
{
    lemma_run_invariant(reports);
}

impl IngestState {
    /// How far the state is along the way of an ingestion: every report
    /// moves an ingestion that is not finished to a state further along.
    pub open spec fn position(self) -> nat {
        match self {
            IngestState::Queued => 0,
            IngestState::AnnouncingClone => 1,
            IngestState::ProbingWorkdir => 2,
            IngestState::ProbingEmpty => 3,
            IngestState::ListingEntries => 4,
            IngestState::RemovingArtifacts => 5,
            IngestState::ProbingEmptied => 6,
            IngestState::RemovingDirectory => 7,
            IngestState::ReportingForeign => 7,
            IngestState::Cloning => 8,
            IngestState::ReportingCloneFailure => 9,
            IngestState::RecordingState => 9,
            IngestState::AnnouncingMirror => 10,
            IngestState::Mirroring => 11,
            IngestState::PreparingArtifacts => 12,
            IngestState::AnnouncingIndex => 13,
            IngestState::Feeding => 14,
            IngestState::AnnouncingSummary => 15,
            IngestState::Summarizing => 16,
            IngestState::AnnouncingComplete => 17,
            IngestState::ReportingFailure(_) => 18,
            IngestState::Finished(_) => 19,
        }
    }
}

/// Whatever the driver reports, an ingestion that is not finished moves on
/// to a state further along: no state is entered twice, and no stage is
/// tried again.
pub proof fn lemma_every_report_moves_on(state: IngestState, report: ActionReport)
    ensures
        !(state is Finished) ==> state.spec_advance(report).position() > state.position(),
        state is Finished ==> state.spec_advance(report) == state,
{
}

proof fn lemma_positions_grow(reports: Seq<ActionReport>, j: int, k: int)
    requires
        0 <= j <= k <= reports.len(),
    ensures
        run(IngestState::Queued, reports.take(j)).position() <= run(
            IngestState::Queued,
            reports.take(k),
        ).position(),
        run(IngestState::Queued, reports.take(k)).position() >= k || run(
            IngestState::Queued,
            reports.take(k),
        ) is Finished,
    decreases k,
{
    if k == 0 {
        assert(reports.take(0).len() == 0);
    } else {
        assert(reports.take(k).drop_last() == reports.take(k - 1));
        let before = run(IngestState::Queued, reports.take(k - 1));
        lemma_every_report_moves_on(before, reports.take(k).last());
        if j < k {
            lemma_positions_grow(reports, j, k - 1);
        } else {
            lemma_positions_grow(reports, k - 1, k - 1);
        }
    }
}

/// Every ingestion ends: whatever the driver reports, after 19 reports at
/// the latest the ingestion is finished.
pub proof fn lemma_every_run_ends(reports: Seq<ActionReport>)
    requires
        reports.len() >= 19,
    ensures
        run(IngestState::Queued, reports) is Finished,
{
    lemma_positions_grow(reports, 0, reports.len() as int);
    assert(reports.take(reports.len() as int) == reports);
}

proof fn lemma_run_resumes(state: IngestState, reports: Seq<ActionReport>, k: int)
    requires
        0 <= k <= reports.len(),
    ensures
        run(state, reports) == run(run(state, reports.take(k)), reports.skip(k)),
    decreases reports.len() - k,
{
    if k == reports.len() {
        assert(reports.take(k) == reports);
        assert(reports.skip(k).len() == 0);
    } else {
        lemma_run_resumes(state, reports.drop_last(), k);
        assert(reports.drop_last().take(k) == reports.take(k));
        assert(reports.drop_last().skip(k) == reports.skip(k).drop_last());
        assert(reports.skip(k).last() == reports.last());
    }
}

/// Once a directory with foreign content has been found, whatever the driver
/// reports, the machine asks for no removal and no clone: it publishes the
/// error and stops.
pub proof fn lemma_foreign_directory_is_kept(reports: Seq<ActionReport>)
    ensures
        ({
            let action = run(IngestState::ReportingForeign, reports).spec_action();
            action == IngestAction::PublishNotARepository || action is PublishFailure
                || action is Stop
        }),
        run(IngestState::ReportingForeign, reports) matches IngestState::Finished(outcome)
            ==> outcome is Failed,
    decreases reports.len(),
{
    if reports.len() > 0 {
        lemma_foreign_directory_is_kept(reports.drop_last());
    }
}

/// An ingestion that finds entries other than ingestion artifacts at the
/// local path removes nothing and clones nothing, neither before the
/// listing nor after it, whatever else the driver reports; it can only end
/// as failed.
pub proof fn lemma_foreign_content_is_never_removed(reports: Seq<ActionReport>, k: int, j: int)
    requires
        0 <= k < reports.len(),
        run(IngestState::Queued, reports.take(k)) == IngestState::ListingEntries,
        reports[k] is Entries,
        !reports[k].artifacts_only(),
        0 <= j <= reports.len(),
    ensures
        ({
            let action = run(IngestState::Queued, reports.take(j)).spec_action();
            &&& action != IngestAction::RemoveDirectory
            &&& action != IngestAction::RemoveArtifacts
            &&& action != IngestAction::CloneRepository
        }),
        run(IngestState::Queued, reports.take(j)) matches IngestState::Finished(outcome)
            ==> outcome is Failed,
{
    if j <= k {
        lemma_positions_grow(reports, j, k);
    } else {
        let upto = reports.take(j);
        lemma_run_resumes(IngestState::Queued, upto, k + 1);
        assert(upto.take(k + 1) == reports.take(k + 1));
        assert(reports.take(k + 1).drop_last() == reports.take(k));
        assert(reports.take(k + 1).last() == reports[k]);
        assert(run(IngestState::Queued, reports.take(k + 1)) == IngestState::ReportingForeign);
        lemma_foreign_directory_is_kept(upto.skip(k + 1));
    }
}

/// A finished ingestion stays finished: there is no automatic retry.
pub proof fn lemma_finished_is_final(outcome: Outcome, reports: Seq<ActionReport>)
    ensures
        run(IngestState::Finished(outcome), reports) == IngestState::Finished(outcome),
    decreases reports.len(),
{
    if reports.len() > 0 {
        lemma_finished_is_final(outcome, reports.drop_last());
    }
}

} // verus!
