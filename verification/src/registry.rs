//! Repository records: how a repository URL is taken apart, how a record is
//! found, and how records read from the source-hosting side are merged into
//! the registry.

use crate::error::AppError;
use crate::text::{
    find_char, first_index_of, from_chars, has_suffix, lemma_first_index_of, matches_at, same_text,
    slice, to_chars, trim_end_char, trim_end_text, trimmed, trimmed_chars, without_prefix,
    without_suffixes, without_trailing,
};
use uuid::Uuid;
use vstd::prelude::*;

verus! {

/// A registered repository.
#[derive(Clone, Debug, PartialEq, Eq)]
pub struct RepoRecord {
    /// Opaque unique key.
    pub id: String,
    pub repo_url: String,
    pub owner: String,
    pub name: String,
}

/// The text of a `RepoRecord`.
pub struct RecordView {
    pub id: Seq<char>,
    pub repo_url: Seq<char>,
    pub owner: Seq<char>,
    pub name: Seq<char>,
}

impl View for RepoRecord {
    type V = RecordView;

    open spec fn view(&self) -> RecordView {
        RecordView { id: self.id@, repo_url: self.repo_url@, owner: self.owner@, name: self.name@ }
    }
}

impl DeepView for RepoRecord {
    type V = RecordView;

    open spec fn deep_view(&self) -> RecordView {
        self@
    }
}

impl RepoRecord {
    /// A copy of the record.
    pub fn duplicate(&self) -> (r: RepoRecord)
        ensures
            r@ == self@,
    {
        RepoRecord {
            id: self.id.clone(),
            repo_url: self.repo_url.clone(),
            owner: self.owner.clone(),
            name: self.name.clone(),
        }
    }

    /// Whether both records hold the same text in every field.
    pub fn same_as(&self, other: &RepoRecord) -> (r: bool)
        ensures
            r == (self@ == other@),
    {
        same_text(self.id.as_str(), other.id.as_str()) && same_text(
            self.repo_url.as_str(),
            other.repo_url.as_str(),
        ) && same_text(self.owner.as_str(), other.owner.as_str()) && same_text(
            self.name.as_str(),
            other.name.as_str(),
        )
    }
}

/// The URL without surrounding whitespace, trailing slashes and trailing `.git`.
pub open spec fn cleaned_url(url: Seq<char>) -> Seq<char> {
    without_suffixes(without_trailing(trimmed(url), '/'), ".git"@)
}

/// What follows the host in a cleaned URL of one of the three accepted forms.
pub open spec fn hosted_path(cleaned: Seq<char>) -> Option<Seq<char>> {
    if without_prefix(cleaned, "https://github.com/"@) is Some {
        without_prefix(cleaned, "https://github.com/"@)
    } else if without_prefix(cleaned, "http://github.com/"@) is Some {
        without_prefix(cleaned, "http://github.com/"@)
    } else {
        without_prefix(cleaned, "git@github.com:"@)
    }
}

/// The first two `/`-separated parts of `path`, where it holds a `/`.
pub open spec fn owner_and_name(path: Seq<char>) -> Option<(Seq<char>, Seq<char>)> {
    let cut = first_index_of(path, '/');
    if cut == path.len() {
        None
    } else {
        let rest = path.skip(cut + 1);
        Some((path.take(cut), rest.take(first_index_of(rest, '/'))))
    }
}

/// Owner and name of the repository that `url` names, where `url` is of an
/// accepted form.
pub open spec fn parsed_repo_url(url: Seq<char>) -> Option<(Seq<char>, Seq<char>)> {
    match hosted_path(cleaned_url(url)) {
        Some(path) => owner_and_name(path),
        None => None,
    }
}

fn strip_prefix(chars: &Vec<char>, pat: &str) -> (r: Option<Vec<char>>)
    ensures
        match without_prefix(chars@, pat@) {
            Some(rest) => r matches Some(v) && v@ == rest,
            None => r is None,
        },
{
    let p: Vec<char> = to_chars(pat);
    if matches_at(chars, 0, &p) {
        assert(chars@.skip(p.len() as int) == chars@.subrange(p.len() as int, chars.len() as int));
        Some(slice(chars, p.len(), chars.len()))
    } else {
        None
    }
}

/// Takes a repository URL apart into owner and name.
///
/// Accepted are `https://github.com/<owner>/<name>`, the same with `http`,
/// and `git@github.com:<owner>/<name>`, each with optional surrounding
/// whitespace, trailing slashes and a trailing `.git`. Anything else is an
/// invalid URL.
pub fn parse_repo_url(repo_url: &str) -> (r: Result<(String, String), AppError>)
    ensures
        match parsed_repo_url(repo_url@) {
            Some((owner, name)) => r matches Ok(pair) && pair.0@ == owner && pair.1@ == name,
            None => r == Err::<(String, String), AppError>(AppError::InvalidRepoUrl),
        },
{
    let mut chars: Vec<char> = trimmed_chars(repo_url);
    trim_end_char(&mut chars, '/');
    let git: Vec<char> = to_chars(".git");
    trim_end_text(&mut chars, &git);
    assert(chars@ == cleaned_url(repo_url@));
    let path: Vec<char> = match strip_prefix(&chars, "https://github.com/") {
        Some(rest) => rest,
        None => match strip_prefix(&chars, "http://github.com/") {
            Some(rest) => rest,
            None => match strip_prefix(&chars, "git@github.com:") {
                Some(rest) => rest,
                None => {
                    return Err(AppError::InvalidRepoUrl);
                },
            },
        },
    };
    assert(hosted_path(chars@) == Some(path@));
    assert(path@.skip(0) == path@);
    let cut: usize = find_char(&path, 0, '/');
    if cut == path.len() {
        return Err(AppError::InvalidRepoUrl);
    }
    let end: usize = find_char(&path, cut + 1, '/');
    let owner: String = from_chars(&path, 0, cut);
    let name: String = from_chars(&path, cut + 1, end);
    proof {
        let rest = path@.skip(cut + 1);
        lemma_first_index_of(rest, '/');
        assert(rest.take(first_index_of(rest, '/')) == path@.subrange(cut + 1, end as int));
        assert(path@.take(cut as int) == path@.subrange(0, cut as int));
    }
    Ok((owner, name))
}

/// The index of the first record of `registry` with the id `id`, or
/// `registry.len()` where there is none.
pub open spec fn first_with_id(registry: Seq<RecordView>, id: Seq<char>) -> int
    decreases registry.len(),
{
    if registry.len() == 0 || registry.first().id == id {
        0
    } else {
        1 + first_with_id(registry.drop_first(), id)
    }
}

/// The index of the last record of `registry` with the id `id`, or `-1`
/// where there is none.
pub open spec fn last_with_id(registry: Seq<RecordView>, id: Seq<char>) -> int
    decreases registry.len(),
{
    if registry.len() == 0 {
        -1
    } else if registry.last().id == id {
        registry.len() - 1
    } else {
        last_with_id(registry.drop_last(), id)
    }
}

/// The registry after `record` was put into it: it takes the place of the
/// last record with its id, or is added at the end where no record has its id.
pub open spec fn upserted(registry: Seq<RecordView>, record: RecordView) -> Seq<RecordView> {
    let at = last_with_id(registry, record.id);
    if at < 0 {
        registry.push(record)
    } else {
        registry.update(at, record)
    }
}

/// The registry after each of `records` was put into it, in order.
pub open spec fn merged(registry: Seq<RecordView>, records: Seq<RecordView>) -> Seq<RecordView>
    decreases records.len(),
{
    if records.len() == 0 {
        registry
    } else {
        upserted(merged(registry, records.drop_last()), records.last())
    }
}

/// How many of `records` changed the registry when they were put into it, in order.
pub open spec fn changes(registry: Seq<RecordView>, records: Seq<RecordView>) -> nat
    decreases records.len(),
{
    if records.len() == 0 {
        0
    } else {
        let before = merged(registry, records.drop_last());
        let changed: nat = if upserted(before, records.last()) == before {
            0
        } else {
            1
        };
        changes(registry, records.drop_last()) + changed
    }
}

proof fn lemma_last_with_id(registry: Seq<RecordView>, id: Seq<char>)
    ensures
        -1 <= last_with_id(registry, id) < registry.len(),
        last_with_id(registry, id) >= 0 ==> registry[last_with_id(registry, id)].id == id,
    decreases registry.len(),
{
    if registry.len() > 0 && registry.last().id != id {
        lemma_last_with_id(registry.drop_last(), id);
    }
}

/// The first record with the id `id`.
pub fn find_record<'a>(registry: &'a Vec<RepoRecord>, id: &str) -> (r: Option<&'a RepoRecord>)
    ensures
        match r {
            Some(record) => {
                let at = first_with_id(registry.deep_view(), id@);
                0 <= at < registry.len() && *record == registry[at] && record.id@ == id@
            },
            None => first_with_id(registry.deep_view(), id@) == registry.len(),
        },
{
    let n: usize = registry.len();
    let mut i: usize = 0;
    let ghost all = registry.deep_view();
    assert(all.skip(0) == all);
    while i < n
        invariant
            i <= n == registry.len(),
            all == registry.deep_view(),
            first_with_id(all, id@) == i + first_with_id(all.skip(i as int), id@),
        decreases n - i,
    {
        assert(all.skip(i as int).first() == registry[i as int]@);
        if same_text(registry[i].id.as_str(), id) {
            return Some(&registry[i]);
        }
        assert(all.skip(i as int).drop_first() == all.skip(i + 1));
        i += 1;
    }
    None
}

/// A copy of the first record with the id `id`; where no record has the id,
/// the repository is not found.
pub fn lookup(registry: &Vec<RepoRecord>, id: &str) -> (r: Result<RepoRecord, AppError>)
    ensures
        match r {
            Ok(record) => {
                let at = first_with_id(registry.deep_view(), id@);
                0 <= at < registry.len() && record@ == registry[at]@
            },
            Err(e) => e == AppError::RepoNotFound && first_with_id(registry.deep_view(), id@)
                == registry.len(),
        },
{
    match find_record(registry, id) {
        Some(record) => Ok(record.duplicate()),
        None => Err(AppError::RepoNotFound),
    }
}

fn find_last(registry: &Vec<RepoRecord>, id: &str) -> (r: Option<usize>)
    ensures
        match r {
            Some(at) => at == last_with_id(registry.deep_view(), id@),
            None => last_with_id(registry.deep_view(), id@) == -1,
        },
{
    let mut i: usize = registry.len();
    let ghost all = registry.deep_view();
    assert(all.take(i as int) == all);
    while i > 0
        invariant
            i <= registry.len(),
            all == registry.deep_view(),
            last_with_id(all, id@) == last_with_id(all.take(i as int), id@),
        decreases i,
    {
        assert(all.take(i as int).last() == registry[i - 1]@);
        if same_text(registry[i - 1].id.as_str(), id) {
            return Some(i - 1);
        }
        assert(all.take(i as int).drop_last() == all.take(i - 1));
        i -= 1;
    }
    None
}

/// Puts `record` into the registry and says whether the registry changed.
pub fn upsert(registry: &mut Vec<RepoRecord>, record: RepoRecord) -> (changed: bool)
    ensures
        final(registry).deep_view() == upserted(old(registry).deep_view(), record@),
        changed == (final(registry).deep_view() != old(registry).deep_view()),
{
    let ghost before = registry.deep_view();
    proof {
        lemma_last_with_id(before, record.id@);
    }
    match find_last(registry, record.id.as_str()) {
        Some(at) => {
            let same: bool = registry[at].same_as(&record);
            assert(before[at as int] == registry[at as int]@);
            if same {
                assert(before.update(at as int, record@) == before);
                false
            } else {
                registry.set(at, record);
                assert(registry.deep_view() == before.update(at as int, record@));
                assert(registry.deep_view()[at as int] != before[at as int]);
                true
            }
        },
        None => {
            registry.push(record);
            assert(registry.deep_view() == before.push(record@));
            assert(registry.deep_view().len() != before.len());
            true
        },
    }
}

/// Puts each of `records` into the registry, in order, and counts those that
/// changed it.
pub fn merge_records(registry: &mut Vec<RepoRecord>, records: &Vec<RepoRecord>) -> (count: usize)
    ensures
        final(registry).deep_view() == merged(old(registry).deep_view(), records.deep_view()),
        count == changes(old(registry).deep_view(), records.deep_view()),
{
    let ghost start = registry.deep_view();
    let ghost incoming = records.deep_view();
    let n: usize = records.len();
    let mut count: usize = 0;
    let mut i: usize = 0;
    while i < n
        invariant
            i <= n == records.len(),
            incoming == records.deep_view(),
            registry.deep_view() == merged(start, incoming.take(i as int)),
            count == changes(start, incoming.take(i as int)),
            count <= i,
        decreases n - i,
    {
        let record: RepoRecord = records[i].duplicate();
        assert(incoming.take(i + 1).drop_last() == incoming.take(i as int));
        assert(incoming.take(i + 1).last() == record@);
        if upsert(registry, record) {
            count += 1;
        }
        i += 1;
    }
    assert(incoming.take(n as int) == incoming);
    count
}

/// Mirrors carry the repository's name followed by `-vv-search`.
pub fn is_mirror_name(name: &str) -> (r: bool)
    ensures
        r == has_suffix(name@, "-vv-search"@),
{
    let chars: Vec<char> = to_chars(name);
    let pat: Vec<char> = to_chars("-vv-search");
    if pat.len() > chars.len() {
        return false;
    }
    matches_at(&chars, chars.len() - pat.len(), &pat)
}

/// `uuid::Uuid::new_v4`, written as text: a random identifier in the
/// hyphenated form, which has 36 characters.
#[verifier::external_body]
fn fresh_id() -> (id: String)
    ensures
        id@.len() == 36,
{
    Uuid::new_v4().to_string()
}

/// The record of the repository at `repo_url` under the id `id`; an invalid
/// URL gives no record.
pub fn record_with_id(repo_url: &str, id: String) -> (r: Result<RepoRecord, AppError>)
    ensures
        match parsed_repo_url(repo_url@) {
            Some((owner, name)) => r matches Ok(record) && record@ == (RecordView {
                id: id@,
                repo_url: repo_url@,
                owner,
                name,
            }),
            None => r == Err::<RepoRecord, AppError>(AppError::InvalidRepoUrl),
        },
{
    match parse_repo_url(repo_url) {
        Ok((owner, name)) => Ok(RepoRecord { id, repo_url: repo_url.to_owned(), owner, name }),
        Err(_) => Err(AppError::InvalidRepoUrl),
    }
}

/// Registers the repository at `repo_url` under a generated id; an invalid
/// URL gives no record.
pub fn register(repo_url: &str) -> (r: Result<RepoRecord, AppError>)
    ensures
        match parsed_repo_url(repo_url@) {
            Some((owner, name)) => r matches Ok(record) && record.id@.len() == 36
                && record.repo_url@ == repo_url@ && record.owner@ == owner && record.name@
                == name,
            None => r == Err::<RepoRecord, AppError>(AppError::InvalidRepoUrl),
        },
{
    match parse_repo_url(repo_url) {
        Ok((owner, name)) => Ok(
            RepoRecord { id: fresh_id(), repo_url: repo_url.to_owned(), owner, name },
        ),
        Err(_) => Err(AppError::InvalidRepoUrl),
    }
}

} // verus!
