//! Stages of an ingestion, the events that announce them, and the persisted
//! status snapshot with its best-effort reconstruction.

use crate::text::{equals_str, same_text, to_chars};
use chrono::Utc;
use vstd::prelude::*;

verus! {

/// A named step of the ingestion of one repository.
#[derive(Clone, Copy, Debug, PartialEq, Eq, Structural)]
pub enum Stage {
    Queued,
    Cloning,
    Mirroring,
    Indexing,
    Summarizing,
    Complete,
    Error,
}

impl Stage {
    /// Position of the stage in the order in which a successful ingestion
    /// passes through the stages; `Error` can follow any of them.
    pub open spec fn rank(self) -> nat {
        match self {
            Stage::Queued => 0,
            Stage::Cloning => 1,
            Stage::Mirroring => 2,
            Stage::Indexing => 3,
            Stage::Summarizing => 4,
            Stage::Complete => 5,
            Stage::Error => 6,
        }
    }

    /// The name under which the stage is persisted and broadcast.
    pub open spec fn label_text(self) -> Seq<char> {
        match self {
            Stage::Queued => "queued"@,
            Stage::Cloning => "cloning"@,
            Stage::Mirroring => "mirroring"@,
            Stage::Indexing => "indexing"@,
            Stage::Summarizing => "summarizing"@,
            Stage::Complete => "complete"@,
            Stage::Error => "error"@,
        }
    }

    /// The message that goes with the stage when it is announced. The error
    /// stage has none of its own: it goes with the message of the error.
    pub open spec fn announcement_text(self) -> Option<Seq<char>> {
        match self {
            Stage::Queued => Some("Ingestion queued"@),
            Stage::Cloning => Some("Cloning repository"@),
            Stage::Mirroring => Some("Mirroring repository to GitHub"@),
            Stage::Indexing => Some("Feeding documents to Vespa"@),
            Stage::Summarizing => Some("Generating repository summary"@),
            Stage::Complete => Some("Ingestion complete"@),
            Stage::Error => None,
        }
    }

    /// `Complete` and `Error` end an ingestion.
    pub open spec fn terminal(self) -> bool {
        self == Stage::Complete || self == Stage::Error
    }

    /// The name under which the stage is persisted and broadcast.
    pub fn label(self) -> (r: &'static str)
        ensures
            r@ == self.label_text(),
    {
        match self {
            Stage::Queued => "queued",
            Stage::Cloning => "cloning",
            Stage::Mirroring => "mirroring",
            Stage::Indexing => "indexing",
            Stage::Summarizing => "summarizing",
            Stage::Complete => "complete",
            Stage::Error => "error",
        }
    }

    /// The message that goes with the stage when it is announced.
    pub fn announcement(self) -> (r: Option<&'static str>)
        ensures
            match self.announcement_text() {
                Some(text) => r matches Some(message) && message@ == text,
                None => r is None,
            },
    {
        match self {
            Stage::Queued => Some("Ingestion queued"),
            Stage::Cloning => Some("Cloning repository"),
            Stage::Mirroring => Some("Mirroring repository to GitHub"),
            Stage::Indexing => Some("Feeding documents to Vespa"),
            Stage::Summarizing => Some("Generating repository summary"),
            Stage::Complete => Some("Ingestion complete"),
            Stage::Error => None,
        }
    }

    /// Whether the stage ends an ingestion.
    pub fn is_terminal(self) -> (r: bool)
        ensures
            r == self.terminal(),
    {
        match self {
            Stage::Complete | Stage::Error => true,
            _ => false,
        }
    }
}

/// How many announcements the broadcast holds for observers that lag behind;
/// an observer that falls further behind misses announcements.
pub const BROADCAST_CAPACITY: usize = 200;

/// The name under which announcements are sent to observers.
pub fn event_name() -> (name: &'static str)
    ensures
        name@ == "status"@,
{
    "status"
}

/// `chrono::Utc::now().timestamp_millis()`: the time of the call, in
/// milliseconds since the epoch. Nothing is known of it.
#[verifier::external_body]
fn now_millis() -> i64 {
    Utc::now().timestamp_millis()
}

/// The announcement of a stage of one repository's ingestion.
#[derive(Clone, Debug, PartialEq, Eq)]
pub struct IngestEvent {
    pub repo_id: String,
    pub stage: Stage,
    pub message: Option<String>,
    /// When the stage was announced, in milliseconds since the epoch.
    pub timestamp: i64,
}

impl IngestEvent {
    /// The event that announces `stage` for `repo_id` at `timestamp`.
    pub fn at(repo_id: &str, stage: Stage, message: Option<String>, timestamp: i64) -> (e:
        IngestEvent)
        ensures
            e.repo_id@ == repo_id@,
            e.stage == stage,
            e.message == message,
            e.timestamp == timestamp,
    {
        IngestEvent { repo_id: repo_id.to_owned(), stage, message, timestamp }
    }

    /// The event that announces `stage` for `repo_id` now.
    pub fn now(repo_id: &str, stage: Stage, message: Option<String>) -> (e: IngestEvent)
        ensures
            e.repo_id@ == repo_id@,
            e.stage == stage,
            e.message == message,
    {
        IngestEvent::at(repo_id, stage, message, now_millis())
    }

    /// Whether the event is about the repository `repo_id`: an observer of
    /// one repository sees the events of that repository only.
    pub fn concerns(&self, repo_id: &str) -> (r: bool)
        ensures
            r == (self.repo_id@ == repo_id@),
    {
        same_text(self.repo_id.as_str(), repo_id)
    }
}

/// The persisted status of one repository: the latest stage, by its label,
/// and the message that went with it.
#[derive(Clone, Debug, PartialEq, Eq)]
pub struct StatusSnapshot {
    pub status: String,
    pub message: Option<String>,
}

/// The message for a status that was persisted without one.
pub open spec fn default_message_text(status: Seq<char>) -> Seq<char> {
    if status == "complete"@ {
        "Ingestion complete."@
    } else if status == "in_progress"@ || status == "queued"@ || status == "cloning"@ {
        "Ingestion in progress."@
    } else if status == "error"@ {
        "Ingestion failed. Check backend logs."@
    } else {
        "Status unavailable. Re-run ingestion if needed."@
    }
}

/// The message for a status that was persisted without one.
pub fn default_message(status: &str) -> (message: &'static str)
    ensures
        message@ == default_message_text(status@),
{
    let chars: Vec<char> = to_chars(status);
    if equals_str(&chars, "complete") {
        "Ingestion complete."
    } else if equals_str(&chars, "in_progress") || equals_str(&chars, "queued") || equals_str(
        &chars,
        "cloning",
    ) {
        "Ingestion in progress."
    } else if equals_str(&chars, "error") {
        "Ingestion failed. Check backend logs."
    } else {
        "Status unavailable. Re-run ingestion if needed."
    }
}

/// What is left of an ingestion whose snapshot is lost.
#[derive(Clone, Copy, Debug, PartialEq, Eq, Structural)]
pub struct Traces {
    /// The size of the journal in bytes, where there is a journal.
    pub journal_bytes: Option<u64>,
    /// A summary, or its placeholder, is there.
    pub summary_present: bool,
}

impl Traces {
    /// The status that the traces suggest: `complete` where the journal holds
    /// anything, else `unknown`.
    pub open spec fn status_text(self) -> Seq<char> {
        if self.journal_bytes matches Some(n) && n > 0 {
            "complete"@
        } else {
            "unknown"@
        }
    }

    /// The message that explains the suggested status.
    pub open spec fn message_text(self) -> Seq<char> {
        if self.journal_bytes matches Some(n) && n > 0 {
            "Ingestion complete (status recovered)."@
        } else if self.summary_present {
            "Ingestion artifacts found, but status is unavailable. Re-run ingestion to refresh."@
        } else {
            "Status not available on this instance. Re-run ingestion if needed."@
        }
    }
}

impl StatusSnapshot {
    /// The snapshot that is persisted when `stage` is announced with `message`.
    pub fn of(stage: Stage, message: Option<String>) -> (s: StatusSnapshot)
        ensures
            s.status@ == stage.label_text(),
            s.message == message,
    {
        StatusSnapshot { status: stage.label().to_owned(), message }
    }

    /// The snapshot with a message: its own, or the default one for its status.
    pub fn with_message(self) -> (s: StatusSnapshot)
        ensures
            s.status == self.status,
            match self.message {
                Some(message) => s.message == Some(message),
                None => s.message matches Some(message) && message@ == default_message_text(
                    self.status@,
                ),
            },
    {
        match self.message {
            Some(_) => self,
            None => {
                let message: String = default_message(self.status.as_str()).to_owned();
                StatusSnapshot { status: self.status, message: Some(message) }
            },
        }
    }

    /// The answer to a request that started an ingestion.
    pub fn started() -> (s: StatusSnapshot)
        ensures
            s.status@ == Stage::Queued.label_text(),
            s.message matches Some(message) && message@ == "Ingestion started"@,
    {
        StatusSnapshot {
            status: Stage::Queued.label().to_owned(),
            message: Some("Ingestion started".to_owned()),
        }
    }

    /// The best guess at the status of a repository whose snapshot is lost.
    pub fn recovered(traces: Traces) -> (s: StatusSnapshot)
        ensures
            s.status@ == traces.status_text(),
            s.message matches Some(message) && message@ == traces.message_text(),
    {
        let journal_holds_work: bool = match traces.journal_bytes {
            Some(n) => n > 0,
            None => false,
        };
        if journal_holds_work {
            StatusSnapshot {
                status: "complete".to_owned(),
                message: Some("Ingestion complete (status recovered).".to_owned()),
            }
        } else if traces.summary_present {
            StatusSnapshot {
                status: "unknown".to_owned(),
                message: Some(
                    "Ingestion artifacts found, but status is unavailable. Re-run ingestion to refresh.".to_owned(),
                ),
            }
        } else {
            StatusSnapshot {
                status: "unknown".to_owned(),
                message: Some(
                    "Status not available on this instance. Re-run ingestion if needed.".to_owned(),
                ),
            }
        }
    }
}

/// The status that a status query is answered with: the persisted snapshot,
/// with a message in any case, or the best guess from what is left where the
/// snapshot is lost.
pub fn read_status(persisted: Option<StatusSnapshot>, traces: Traces) -> (s: StatusSnapshot)
    ensures
        match persisted {
            Some(snapshot) => s.status == snapshot.status && match snapshot.message {
                Some(message) => s.message == Some(message),
                None => s.message matches Some(message) && message@ == default_message_text(
                    snapshot.status@,
                ),
            },
            None => s.status@ == traces.status_text() && (s.message matches Some(message)
                && message@ == traces.message_text()),
        },
{
    match persisted {
        Some(snapshot) => snapshot.with_message(),
        None => StatusSnapshot::recovered(traces),
    }
}

} // verus!
