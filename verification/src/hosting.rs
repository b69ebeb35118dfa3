//! The source-hosting side: how a repository's mirror is named and addressed,
//! how the hosting service's answers are read, and how the registry is found
//! again from the mirrors.

use crate::error::AppError;
use crate::http::{
    describe_failure, failure_text, is_success_status, status_text, success_status,
};
use crate::registry::{RecordView, RepoRecord};
use crate::text::{contains_text, decimal, push_decimal, str_contains};
use vstd::prelude::*;
use vstd::string::StringExecFns;

verus! {

/// The name of the mirror of the repository `name`.
pub fn mirror_name(name: &str) -> (mirror: String)
    ensures
        mirror@ == name@ + "-vv-search"@,
{
    let mut mirror = String::new();
    mirror.append(name);
    mirror.append("-vv-search");
    mirror
}

/// The address to which the mirror `mirror` of the organization `org` is
/// pushed, with the access token in it.
pub fn mirror_remote_url(token: &str, org: &str, mirror: &str) -> (url: String)
    ensures
        url@ == "https://x-access-token:"@ + token@ + "@github.com/"@ + org@ + "/"@ + mirror@
            + ".git"@,
{
    let mut url = String::new();
    url.append("https://x-access-token:");
    url.append(token);
    url.append("@github.com/");
    url.append(org);
    url.append("/");
    url.append(mirror);
    url.append(".git");
    url
}

/// Organization and token, which mirroring cannot do without: a
/// configuration error names the first that is missing.
pub fn mirror_credentials<'a>(org: Option<&'a str>, token: Option<&'a str>) -> (r: Result<
    (&'a str, &'a str),
    AppError,
>)
    ensures
        match (org, token) {
            (Some(o), Some(t)) => r matches Ok(pair) && pair.0@ == o@ && pair.1@ == t@,
            (None, _) => r matches Err(AppError::Config(detail)) && detail@
                == "GITHUB_ORG is required for repo mirroring"@,
            (Some(_), None) => r matches Err(AppError::Config(detail)) && detail@
                == "GITHUB_TOKEN is required for repo mirroring"@,
        },
{
    match org {
        Some(o) => match token {
            Some(t) => Ok((o, t)),
            None => Err(AppError::Config("GITHUB_TOKEN is required for repo mirroring".to_owned())),
        },
        None => Err(AppError::Config("GITHUB_ORG is required for repo mirroring".to_owned())),
    }
}

/// The address at which repositories of the organization `org` are created.
pub fn create_repo_url(org: &str) -> (url: String)
    ensures
        url@ == "https://api.github.com/orgs/"@ + org@ + "/repos"@,
{
    let mut url = String::new();
    url.append("https://api.github.com/orgs/");
    url.append(org);
    url.append("/repos");
    url
}

/// The hosting service's answer says that the repository is there: it was
/// created, or it is refused as one whose name already exists.
pub open spec fn repo_is_there(status: u16, body: Seq<char>) -> bool {
    success_status(status) || (status == 422 && contains_text(body, "name already exists"@))
}

/// What the answer to the creation of the mirror `repo_name` means: the
/// mirror is there, or creating it failed.
pub fn creation_outcome(org: &str, repo_name: &str, status: u16, body: &str) -> (r: Result<
    (),
    AppError,
>)
    ensures
        repo_is_there(status, body@) ==> r is Ok,
        !repo_is_there(status, body@) ==> (r matches Err(AppError::GitHub(detail)) && detail@
            == failure_text(
            "failed to create GitHub repo "@ + org@ + "/"@ + repo_name@,
            status_text(status),
            body@,
        )),
{
    if is_success_status(status) {
        return Ok(());
    }
    if status == 422 && str_contains(body, "name already exists") {
        return Ok(());
    }
    let mut context = String::new();
    context.append("failed to create GitHub repo ");
    context.append(org);
    context.append("/");
    context.append(repo_name);
    Err(AppError::GitHub(describe_failure(context.as_str(), status, body)))
}

/// Repositories are listed in pages of this size.
pub const PAGE_SIZE: usize = 100;

/// The address of page `page` of the repositories of the organization `org`.
pub fn org_repos_url(org: &str, page: usize) -> (url: String)
    ensures
        url@ == "https://api.github.com/orgs/"@ + org@ + "/repos?per_page=100&page="@ + decimal(
            page as nat,
        ),
{
    let mut url = String::new();
    url.append("https://api.github.com/orgs/");
    url.append(org);
    url.append("/repos?per_page=100&page=");
    push_decimal(&mut url, page as u64);
    url
}

/// Whether another page follows a page that held `count` repositories: a
/// page that is not full is the last.
pub fn has_more_pages(count: usize) -> (r: bool)
    ensures
        r == (count >= PAGE_SIZE),
{
    count >= PAGE_SIZE
}

/// The error of a listing that the hosting service answered with a failure.
pub fn listing_error(org: &str, status: u16, body: &str) -> (e: AppError)
    ensures
        e matches AppError::GitHub(detail) && detail@ == failure_text(
            "failed to list GitHub repos for "@ + org@,
            status_text(status),
            body@,
        ),
{
    let mut context = String::new();
    context.append("failed to list GitHub repos for ");
    context.append(org);
    AppError::GitHub(describe_failure(context.as_str(), status, body))
}

/// The branch on which a mirror's state file is looked for: its default
/// branch, or `main` where that is not known.
pub open spec fn state_branch(default_branch: Seq<char>) -> Seq<char> {
    if default_branch.len() == 0 {
        "main"@
    } else {
        default_branch
    }
}

/// The address of the state file of the mirror `repo_name`.
pub fn state_file_url(org: &str, repo_name: &str, default_branch: &str) -> (url: String)
    ensures
        url@ == "https://raw.githubusercontent.com/"@ + org@ + "/"@ + repo_name@ + "/"@
            + state_branch(default_branch@) + "/.vv/state.json"@,
{
    let mut url = String::new();
    url.append("https://raw.githubusercontent.com/");
    url.append(org);
    url.append("/");
    url.append(repo_name);
    url.append("/");
    if default_branch.unicode_len() == 0 {
        url.append("main");
    } else {
        url.append(default_branch);
    }
    url.append("/.vv/state.json");
    url
}

/// What follows the answer to a request for a state file.
#[derive(Clone, Copy, Debug, PartialEq, Eq, Structural)]
pub enum StateAnswer {
    /// The mirror has no state file: it tells of no repository.
    Absent,
    /// The request failed.
    Failed,
    /// The body holds the state file.
    Present,
}

/// What the status of the answer to a request for a state file means.
pub fn state_answer(status: u16) -> (r: StateAnswer)
    ensures
        status == 404 ==> r == StateAnswer::Absent,
        status != 404 && !success_status(status) ==> r == StateAnswer::Failed,
        success_status(status) ==> r == StateAnswer::Present,
{
    if status == 404 {
        StateAnswer::Absent
    } else if !is_success_status(status) {
        StateAnswer::Failed
    } else {
        StateAnswer::Present
    }
}

/// The error of a request for the state file at `url` that failed.
pub fn state_fetch_error(url: &str, status: u16, body: &str) -> (e: AppError)
    ensures
        e matches AppError::GitHub(detail) && detail@ == failure_text(
            "failed to fetch .vv state from "@ + url@,
            status_text(status),
            body@,
        ),
{
    let mut context = String::new();
    context.append("failed to fetch .vv state from ");
    context.append(url);
    AppError::GitHub(describe_failure(context.as_str(), status, body))
}

/// The content of a mirror's state file.
#[derive(Clone, Debug, PartialEq, Eq)]
pub struct RepoState {
    pub repo_id: String,
    pub repo_url: String,
    pub owner: String,
    pub name: String,
}

/// The record that a state file tells of: none where the file could not be
/// read or names no repository id.
pub fn record_from_state(state: Option<RepoState>) -> (r: Option<RepoRecord>)
    ensures
        match state {
            Some(s) => if s.repo_id@.len() == 0 {
                r is None
            } else {
                r matches Some(record) && record@ == (RecordView {
                    id: s.repo_id@,
                    repo_url: s.repo_url@,
                    owner: s.owner@,
                    name: s.name@,
                })
            },
            None => r is None,
        },
{
    match state {
        Some(s) => {
            if s.repo_id.as_str().unicode_len() == 0 {
                None
            } else {
                Some(
                    RepoRecord { id: s.repo_id, repo_url: s.repo_url, owner: s.owner, name: s.name },
                )
            }
        },
        None => None,
    }
}

} // verus!
