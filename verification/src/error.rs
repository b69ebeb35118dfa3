//! The error taxonomy of the service.

use vstd::prelude::*;
use vstd::string::StringExecFns;

verus! {

/// What can go wrong while a request is served or a repository is ingested.
///
/// Errors of the I/O, serialization and HTTP layers are carried by their text.
#[derive(Clone, Debug, PartialEq, Eq)]
pub enum AppError {
    /// The repository URL is malformed.
    InvalidRepoUrl,
    /// No repository is registered under the id.
    RepoNotFound,
    /// A credential or an endpoint is missing or unusable.
    Config(String),
    /// A local I/O operation failed.
    Io(String),
    /// A value could not be serialized or parsed.
    Serde(String),
    /// A request to the search index could not be sent or answered.
    VespaRequest(String),
    /// The search index answered with a non-success status.
    VespaRejected(String),
    /// The source-hosting service answered with a failure.
    GitHub(String),
    /// The inference service failed or answered in an unknown shape.
    HuggingFace(String),
}

impl AppError {
    /// The text that precedes the detail in the error's message.
    pub open spec fn prefix_text(&self) -> Seq<char> {
        match self {
            AppError::InvalidRepoUrl => "invalid repo url"@,
            AppError::RepoNotFound => "repo not found"@,
            AppError::Config(_) => "config error: "@,
            AppError::Io(_) => "io error: "@,
            AppError::Serde(_) => "serde error: "@,
            AppError::VespaRequest(_) => "vespa request error: "@,
            AppError::VespaRejected(_) => "vespa rejected request: "@,
            AppError::GitHub(_) => "github error: "@,
            AppError::HuggingFace(_) => "huggingface error: "@,
        }
    }

    /// The detail that the error carries; empty where it carries none.
    pub open spec fn detail_text(&self) -> Seq<char> {
        match self {
            AppError::InvalidRepoUrl => Seq::empty(),
            AppError::RepoNotFound => Seq::empty(),
            AppError::Config(detail) => detail@,
            AppError::Io(detail) => detail@,
            AppError::Serde(detail) => detail@,
            AppError::VespaRequest(detail) => detail@,
            AppError::VespaRejected(detail) => detail@,
            AppError::GitHub(detail) => detail@,
            AppError::HuggingFace(detail) => detail@,
        }
    }

    /// The human-readable message of the error.
    pub open spec fn message_text(&self) -> Seq<char> {
        self.prefix_text() + self.detail_text()
    }

    /// The HTTP status with which the error is answered: 400 for invalid
    /// input, 404 for an unknown repository, 500 for local failures and 502
    /// for failures of a remote service.
    pub open spec fn status_code(&self) -> u16 {
        match self {
            AppError::InvalidRepoUrl => 400,
            AppError::RepoNotFound => 404,
            AppError::Config(_) | AppError::Io(_) | AppError::Serde(_) => 500,
            AppError::VespaRequest(_)
            | AppError::VespaRejected(_)
            | AppError::GitHub(_)
            | AppError::HuggingFace(_) => 502,
        }
    }

    pub fn message(&self) -> (m: String)
        ensures
            m@ == self.message_text(),
    {
        let (prefix, detail): (&str, &str) = match self {
            AppError::InvalidRepoUrl => ("invalid repo url", ""),
            AppError::RepoNotFound => ("repo not found", ""),
            AppError::Config(detail) => ("config error: ", detail.as_str()),
            AppError::Io(detail) => ("io error: ", detail.as_str()),
            AppError::Serde(detail) => ("serde error: ", detail.as_str()),
            AppError::VespaRequest(detail) => ("vespa request error: ", detail.as_str()),
            AppError::VespaRejected(detail) => ("vespa rejected request: ", detail.as_str()),
            AppError::GitHub(detail) => ("github error: ", detail.as_str()),
            AppError::HuggingFace(detail) => ("huggingface error: ", detail.as_str()),
        };
        proof {
            reveal_strlit("");
        }
        assert(detail@ == self.detail_text());
        let mut m = String::new();
        m.append(prefix);
        m.append(detail);
        m
    }

    pub fn http_status(&self) -> (code: u16)
        ensures
            code == self.status_code(),
    {
        match self {
            AppError::InvalidRepoUrl => 400,
            AppError::RepoNotFound => 404,
            AppError::Config(_) | AppError::Io(_) | AppError::Serde(_) => 500,
            AppError::VespaRequest(_)
            | AppError::VespaRejected(_)
            | AppError::GitHub(_)
            | AppError::HuggingFace(_) => 502,
        }
    }
}

} // verus!
