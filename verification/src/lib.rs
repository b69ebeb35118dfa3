//! The logic of a service that ingests source-code repositories for search.
//!
//! A repository is cloned, mirrored, fed file by file to a remote search
//! index and summarized; observers follow the stages of that ingestion. This
//! library holds the decisions of that pipeline, each with a contract that
//! Verus proves: what the outside world is asked to do is decided here, and
//! done elsewhere.
//!
//! - [`ingest`]: the ingestion orchestrator as a state machine.
//! - [`status`]: stages, their announcements, and the persisted status.
//! - [`classify`], [`feed`], [`digest`]: which files are indexed and as which
//!   documents.
//! - [`embedding`], [`summary`], [`inference`], [`http`]: the policies of the
//!   inference clients: truncation, retries with backoff, the shapes of the
//!   answers, the cache and the versioned store of summaries.
//! - [`search`]: the query builder.
//! - [`registry`], [`hosting`], [`vcs`]: repository records, the
//!   source-hosting side and the version-control tool.
//! - [`config`], [`error`], [`text`]: settings, the error taxonomy and text
//!   primitives.

pub mod classify;
pub mod config;
pub mod digest;
pub mod embedding;
pub mod error;
pub mod feed;
pub mod hosting;
pub mod http;
pub mod inference;
pub mod ingest;
pub mod registry;
pub mod search;
pub mod status;
pub mod summary;
pub mod text;
pub mod vcs;
