//! The summarization client's policies and the versioned store of summaries.

use crate::classify::{
    extension_of, guess_language, language_of_extension, sanitize_vespa_content, sanitized,
};
use crate::embedding::{truncate_for_embedding, truncated};
use crate::error::AppError;
use crate::registry::{RecordView, RepoRecord};
use crate::text::{contains_text, decimal, join, joined, push_decimal, same_text, str_contains};
use std::borrow::Cow;
use vstd::prelude::*;
use vstd::string::StringExecFns;

verus! {

/// One generated summary.
#[derive(Clone, Debug, PartialEq, Eq)]
pub struct SummaryEntry {
    /// Counts the summaries of a repository, from 1.
    pub version: u32,
    /// When the summary was generated, in milliseconds since the epoch.
    pub created_at: i64,
    pub summary: String,
}

/// The content of a `SummaryEntry`.
pub struct EntryView {
    pub version: u32,
    pub created_at: i64,
    pub summary: Seq<char>,
}

impl View for SummaryEntry {
    type V = EntryView;

    open spec fn view(&self) -> EntryView {
        EntryView { version: self.version, created_at: self.created_at, summary: self.summary@ }
    }
}

impl DeepView for SummaryEntry {
    type V = EntryView;

    open spec fn deep_view(&self) -> EntryView {
        self@
    }
}

/// The summaries of one repository, oldest first. Entries are only ever added.
#[derive(Clone, Debug, PartialEq, Eq)]
pub struct SummaryStore {
    pub entries: Vec<SummaryEntry>,
}

impl View for SummaryStore {
    type V = Seq<EntryView>;

    open spec fn view(&self) -> Seq<EntryView> {
        self.entries.deep_view()
    }
}

/// The version of the summary that comes after `entries`: one more than the
/// last version, and 1 for the first summary.
pub open spec fn next_version_of(entries: Seq<EntryView>) -> int {
    if entries.len() == 0 {
        1
    } else {
        entries.last().version + 1
    }
}

/// `entries` with one more summary, generated at `created_at`.
pub open spec fn recorded(entries: Seq<EntryView>, summary: Seq<char>, created_at: i64) -> Seq<
    EntryView,
> {
    entries.push(
        EntryView { version: next_version_of(entries) as u32, created_at, summary },
    )
}

/// The store after the summaries `generated`, each with its time, were
/// recorded one after the other in an empty store.
pub open spec fn generations(generated: Seq<(Seq<char>, i64)>) -> Seq<EntryView>
    decreases generated.len(),
{
    if generated.len() == 0 {
        Seq::empty()
    } else {
        recorded(generations(generated.drop_last()), generated.last().0, generated.last().1)
    }
}

impl Default for SummaryStore {
    fn default() -> (store: SummaryStore)
        ensures
            store@ == Seq::<EntryView>::empty(),
    {
        SummaryStore::new()
    }
}

impl SummaryStore {
    /// A store without summaries.
    pub fn new() -> (store: SummaryStore)
        ensures
            store@ == Seq::<EntryView>::empty(),
    {
        let store = SummaryStore { entries: Vec::new() };
        assert(store@ == Seq::<EntryView>::empty());
        store
    }

    /// A next version exists: the last version is not the largest number.
    pub open spec fn can_grow(&self) -> bool {
        next_version_of(self@) <= u32::MAX
    }

    /// The current summary: the entry that was added last.
    pub fn latest(&self) -> (r: Option<&SummaryEntry>)
        ensures
            self@.len() == 0 <==> r is None,
            r matches Some(entry) ==> entry@ == self@.last() && *entry == self.entries@.last(),
    {
        let n: usize = self.entries.len();
        if n == 0 {
            None
        } else {
            assert(self@[n - 1] == self.entries@[n - 1]@);
            Some(&self.entries[n - 1])
        }
    }

    /// Whether one more summary can be recorded.
    pub fn has_room(&self) -> (r: bool)
        ensures
            r == self.can_grow(),
    {
        match self.latest() {
            Some(entry) => entry.version < u32::MAX,
            None => true,
        }
    }

    /// The version of the summary that comes next: 1 in an empty store, else
    /// one more than the last version.
    pub fn next_version(&self) -> (version: u32)
        requires
            self.can_grow(),
        ensures
            version == next_version_of(self@),
            self@.len() == 0 ==> version == 1,
    {
        match self.latest() {
            Some(entry) => entry.version + 1,
            None => 1,
        }
    }

    /// Adds `summary`, generated at `created_at`, under the next version.
    pub fn record(&mut self, summary: String, created_at: i64)
        requires
            old(self).can_grow(),
        ensures
            final(self)@ == recorded(old(self)@, summary@, created_at),
    {
        let version: u32 = self.next_version();
        let ghost before = self@;
        let entry = SummaryEntry { version, created_at, summary };
        self.entries.push(entry);
        assert(self@ == before.push(entry@));
    }

    /// The text of the current summary; `placeholder` where there is none yet.
    pub fn current_text(&self, placeholder: &str) -> (text: String)
        ensures
            text@ == if self@.len() == 0 {
                placeholder@
            } else {
                self@.last().summary
            },
    {
        match self.latest() {
            Some(entry) => entry.summary.clone(),
            None => placeholder.to_owned(),
        }
    }

    /// The summaries, newest first.
    pub fn history(&self) -> (entries: Vec<SummaryEntry>)
        ensures
            entries.deep_view() == self@.reverse(),
    {
        let n: usize = self.entries.len();
        let mut entries: Vec<SummaryEntry> = Vec::new();
        let mut i: usize = n;
        assert(entries.deep_view() == Seq::<EntryView>::empty());
        while i > 0
            invariant
                i <= n == self.entries.len(),
                entries.deep_view().len() == n - i,
                forall|k: int|
                    0 <= k < n - i ==> #[trigger] entries.deep_view()[k] == self@[n - 1 - k],
            decreases i,
        {
            let entry: &SummaryEntry = &self.entries[i - 1];
            let copy = SummaryEntry {
                version: entry.version,
                created_at: entry.created_at,
                summary: entry.summary.clone(),
            };
            let ghost before = entries.deep_view();
            assert(copy@ == self@[i - 1]);
            entries.push(copy);
            assert(entries.deep_view() == before.push(copy@));
            i -= 1;
        }
        entries
    }
}

/// After any number of summaries were recorded in an empty store, the store
/// holds as many entries, their versions count up from 1 in order, and the
/// current summary is the one recorded last, under the version that equals
/// the number of summaries.
pub proof fn lemma_versions_count_up(generated: Seq<(Seq<char>, i64)>)
    requires
        generated.len() <= u32::MAX,
    ensures
        generations(generated).len() == generated.len(),
        forall|i: int|
            0 <= i < generated.len() ==> {
                &&& (#[trigger] generations(generated)[i]).version == i + 1
                &&& generations(generated)[i].summary == generated[i].0
                &&& generations(generated)[i].created_at == generated[i].1
            },
        generated.len() > 0 ==> generations(generated).last().version == generated.len(),
        next_version_of(generations(generated)) == generated.len() + 1,
    decreases generated.len(),
{
    if generated.len() > 0 {
        lemma_versions_count_up(generated.drop_last());
        let earlier = generations(generated.drop_last());
        assert forall|i: int| 0 <= i < generated.len() implies {
            &&& (#[trigger] generations(generated)[i]).version == i + 1
            &&& generations(generated)[i].summary == generated[i].0
            &&& generations(generated)[i].created_at == generated[i].1
        } by {
            if i < generated.len() - 1 {
                assert(generations(generated)[i] == earlier[i]);
                assert(generated.drop_last()[i] == generated[i]);
            }
        }
    }
}

/// The text that is sent for summarizing: `input`, cut after `max_chars`
/// characters where it is longer.
pub fn truncate_for_summary<'a>(input: &'a str, max_chars: usize) -> (out: Cow<'a, str>)
    ensures
        out@ == truncated(input@, max_chars),
        input@.len() <= max_chars <==> out is Borrowed,
{
    truncate_for_embedding(input, max_chars)
}

/// The first item of a list that the service answered with.
#[derive(Clone, Debug, PartialEq, Eq)]
pub struct SummaryItem {
    /// The text of the item's `summary_text` field, where it holds a text.
    pub summary_text: Option<String>,
}

/// The service's answer to a summary request, as far as it is read.
#[derive(Clone, Debug, PartialEq, Eq)]
pub enum SummaryReply {
    /// A list, with its first item where it has one.
    List(Option<SummaryItem>),
    /// An object, with the texts of its `error` and `summary_text` fields.
    Object { error: Option<String>, summary_text: Option<String> },
    /// Anything else.
    Other,
}

/// The summary that the answer holds, or the reason why it holds none.
///
/// A list gives the summary of its first item. An object with an error text
/// fails with that text, even where it holds a summary too.
pub open spec fn summary_of(reply: SummaryReply) -> Result<Seq<char>, Seq<char>> {
    match reply {
        SummaryReply::List(None) => Err("empty summary response"@),
        SummaryReply::List(Some(item)) => match item.summary_text {
            Some(text) => Ok(text@),
            None => Err("missing summary_text in response"@),
        },
        SummaryReply::Object { error: Some(text), .. } => Err(text@),
        SummaryReply::Object { error: None, summary_text: Some(text) } => Ok(text@),
        SummaryReply::Object { error: None, summary_text: None } => Err(
            "unexpected summary response"@,
        ),
        SummaryReply::Other => Err("unexpected summary response"@),
    }
}

fn summary_failure(message: &str) -> (r: Result<String, AppError>)
    ensures
        r matches Err(AppError::HuggingFace(detail)) && detail@ == message@,
{
    Err(AppError::HuggingFace(message.to_owned()))
}

/// Reads the service's answer to a summary request.
pub fn parse_hf_summary(reply: &SummaryReply) -> (r: Result<String, AppError>)
    ensures
        match summary_of(*reply) {
            Ok(text) => r matches Ok(summary) && summary@ == text,
            Err(message) => r matches Err(AppError::HuggingFace(detail)) && detail@ == message,
        },
{
    match reply {
        SummaryReply::List(None) => summary_failure("empty summary response"),
        SummaryReply::List(Some(item)) => match &item.summary_text {
            Some(text) => Ok(text.clone()),
            None => summary_failure("missing summary_text in response"),
        },
        SummaryReply::Object { error: Some(text), .. } => Err(AppError::HuggingFace(text.clone())),
        SummaryReply::Object { error: None, summary_text: Some(text) } => Ok(text.clone()),
        SummaryReply::Object { error: None, summary_text: None } => summary_failure(
            "unexpected summary response",
        ),
        SummaryReply::Other => summary_failure("unexpected summary response"),
    }
}

/// The input of the second attempt holds at most this many characters.
pub const FALLBACK_CHARS: usize = 2000;

/// A failure that tells of an input that was too long or malformed: an error
/// of the inference service whose text holds `index out of range` or `Bad
/// Request`.
pub open spec fn input_was_refused(error: AppError) -> bool {
    error matches AppError::HuggingFace(detail) && (contains_text(
        detail@,
        "index out of range"@,
    ) || contains_text(detail@, "Bad Request"@))
}

/// Whether a failed summary request is tried once more with a shorter input.
pub fn wants_shorter_input(error: &AppError) -> (r: bool)
    ensures
        r == input_was_refused(*error),
{
    match error {
        AppError::HuggingFace(detail) => str_contains(detail.as_str(), "index out of range")
            || str_contains(detail.as_str(), "Bad Request"),
        _ => false,
    }
}

/// With which input a summary is asked for.
#[derive(Clone, Copy, Debug, PartialEq, Eq, Structural)]
pub enum SummaryTier {
    /// The whole digest of the repository.
    Full,
    /// The first `FALLBACK_CHARS` characters of the digest.
    Shortened,
}

impl SummaryTier {
    /// The tier that is tried after this tier failed with `error`: the
    /// shortened input, once, after the full input was refused. Any other
    /// failure, and a failure of the shortened input, is final.
    pub open spec fn following(self, error: AppError) -> Option<SummaryTier> {
        if self == SummaryTier::Full && input_was_refused(error) {
            Some(SummaryTier::Shortened)
        } else {
            None
        }
    }

    /// The tier that is tried after this tier failed with `error`, if any.
    pub fn after_failure(self, error: &AppError) -> (next: Option<SummaryTier>)
        ensures
            next == self.following(*error),
    {
        match self {
            SummaryTier::Full => {
                if wants_shorter_input(error) {
                    Some(SummaryTier::Shortened)
                } else {
                    None
                }
            },
            SummaryTier::Shortened => None,
        }
    }

    /// The input of this tier.
    pub fn input<'a>(self, digest: &'a str) -> (out: Cow<'a, str>)
        ensures
            out@ == match self {
                SummaryTier::Full => digest@,
                SummaryTier::Shortened => truncated(digest@, FALLBACK_CHARS),
            },
    {
        match self {
            SummaryTier::Full => Cow::Borrowed(digest),
            SummaryTier::Shortened => truncate_for_summary(digest, FALLBACK_CHARS),
        }
    }
}

/// No more than this many languages are named in the input of a summary.
pub const TOP_LANGUAGES: usize = 8;

/// No more than this many files are listed in the input of a summary.
pub const LISTED_FILES: usize = 120;

/// The input of a summary holds no more than this many characters.
pub const SUMMARY_INPUT_CAP: usize = 6000;

/// The index of the first entry of `counts` for `label`, or `counts.len()`
/// where there is none.
pub open spec fn position_of(counts: Seq<(Seq<char>, usize)>, label: Seq<char>) -> int
    decreases counts.len(),
{
    if counts.len() == 0 || counts.first().0 == label {
        0
    } else {
        1 + position_of(counts.drop_first(), label)
    }
}

/// `counts` with one more file of the language `label`: its entry counts one
/// more; a language that is new gets an entry at the end.
pub open spec fn tallied(counts: Seq<(Seq<char>, usize)>, label: Seq<char>) -> Seq<
    (Seq<char>, usize),
> {
    let at = position_of(counts, label);
    if 0 <= at < counts.len() {
        counts.update(at, (label, (counts[at].1 + 1) as usize))
    } else {
        counts.push((label, 1))
    }
}

/// How many files each language has, the languages in the order in which
/// they first occur in `labels`.
pub open spec fn histogram(labels: Seq<Seq<char>>) -> Seq<(Seq<char>, usize)>
    decreases labels.len(),
{
    if labels.len() == 0 {
        Seq::empty()
    } else {
        tallied(histogram(labels.drop_last()), labels.last())
    }
}

/// The index of the first of the largest counts; 0 for no counts.
pub open spec fn leader(counts: Seq<(Seq<char>, usize)>) -> int
    decreases counts.len(),
{
    if counts.len() <= 1 {
        0
    } else {
        let before = leader(counts.drop_last());
        if counts.last().1 > counts[before].1 {
            counts.len() - 1
        } else {
            before
        }
    }
}

/// The `limit` entries with the largest counts, largest first; of entries
/// with equal counts the one that stands first in `counts` comes first.
pub open spec fn ranked(counts: Seq<(Seq<char>, usize)>, limit: nat) -> Seq<(Seq<char>, usize)>
    decreases limit,
{
    if limit == 0 || counts.len() == 0 {
        Seq::empty()
    } else {
        seq![counts[leader(counts)]] + ranked(counts.remove(leader(counts)), (limit - 1) as nat)
    }
}

/// One language, shown with the number of its files.
pub open spec fn shown_count(entry: (Seq<char>, usize)) -> Seq<char> {
    entry.0 + " ("@ + decimal(entry.1 as nat) + ")"@
}

#[verifier::loop_isolation(false)]
fn tally(counts: &mut Vec<(String, usize)>, label: String, Ghost(cap): Ghost<nat>)
    requires
        cap < usize::MAX,
        forall|i: int| 0 <= i < old(counts)@.len() ==> (#[trigger] old(counts)@[i]).1 <= cap,
    ensures
        final(counts).deep_view() == tallied(old(counts).deep_view(), label@),
        forall|i: int| 0 <= i < final(counts)@.len() ==> (#[trigger] final(counts)@[i]).1 <= cap + 1,
{
    let n: usize = counts.len();
    let ghost before = counts.deep_view();
    let mut i: usize = 0;
    assert(before.skip(0) == before);
    while i < n
        invariant
            i <= n == counts.len(),
            counts@ == old(counts)@,
            before == counts.deep_view(),
            position_of(before, label@) == i + position_of(before.skip(i as int), label@),
        decreases n - i,
    {
        assert(before.skip(i as int).first() == before[i as int]);
        assert(before[i as int] == (counts@[i as int].0@, counts@[i as int].1));
        if same_text(counts[i].0.as_str(), label.as_str()) {
            let count: usize = counts[i].1 + 1;
            counts.set(i, (label, count));
            assert(counts.deep_view() == before.update(i as int, (label@, count)));
            assert forall|k: int| 0 <= k < counts@.len() implies (#[trigger] counts@[k]).1 <= cap
                + 1 by {
                if k != i {
                    assert(counts@[k] == old(counts)@[k]);
                }
            }
            return ;
        }
        assert(before.skip(i as int).drop_first() == before.skip(i + 1));
        i += 1;
    }
    counts.push((label, 1));
    assert(counts.deep_view() == before.push((label@, 1usize)));
    assert forall|k: int| 0 <= k < counts@.len() implies (#[trigger] counts@[k]).1 <= cap + 1 by {
        if k < n {
            assert(counts@[k] == old(counts)@[k]);
        }
    }
}

/// The number of files of each language among `files`, the languages in the
/// order in which they first occur.
pub fn language_histogram(files: &Vec<String>) -> (counts: Vec<(String, usize)>)
    ensures
        counts.deep_view() == histogram(
            files.deep_view().map_values(|path: Seq<char>| language_of_extension(extension_of(path))),
        ),
{
    let n: usize = files.len();
    let mut counts: Vec<(String, usize)> = Vec::new();
    let mut i: usize = 0;
    let ghost labels = files.deep_view().map_values(
        |path: Seq<char>| language_of_extension(extension_of(path)),
    );
    assert(counts.deep_view() == Seq::<(Seq<char>, usize)>::empty());
    while i < n
        invariant
            i <= n == files.len(),
            labels == files.deep_view().map_values(
                |path: Seq<char>| language_of_extension(extension_of(path)),
            ),
            counts.deep_view() == histogram(labels.take(i as int)),
            forall|k: int| 0 <= k < counts@.len() ==> (#[trigger] counts@[k]).1 <= i,
        decreases n - i,
    {
        let label: String = guess_language(files[i].as_str());
        assert(labels.take(i + 1).drop_last() == labels.take(i as int));
        assert(labels.take(i + 1).last() == label@) by {
            assert(files.deep_view()[i as int] == files@[i as int]@);
        }
        tally(&mut counts, label, Ghost(i as nat));
        i += 1;
    }
    assert(labels.take(n as int) == labels);
    counts
}

fn find_leader(counts: &Vec<(String, usize)>) -> (at: usize)
    requires
        counts.len() > 0,
    ensures
        at == leader(counts.deep_view()),
        at < counts.len(),
{
    let n: usize = counts.len();
    let ghost all = counts.deep_view();
    let mut at: usize = 0;
    let mut i: usize = 1;
    assert(leader(all.take(1)) == 0);
    while i < n
        invariant
            1 <= i <= n == counts.len(),
            all == counts.deep_view(),
            at == leader(all.take(i as int)),
            at < i,
        decreases n - i,
    {
        assert(all.take(i + 1).drop_last() == all.take(i as int));
        assert(all.take(i + 1).last().1 == counts@[i as int].1);
        assert(all.take(i + 1)[at as int].1 == counts@[at as int].1);
        if counts[i].1 > counts[at].1 {
            at = i;
        }
        i += 1;
    }
    assert(all.take(n as int) == all);
    at
}

/// The `limit` languages with the most files, the most first; of languages
/// with equally many files the one that stands first in `counts` comes first.
pub fn top_languages(counts: Vec<(String, usize)>, limit: usize) -> (top: Vec<(String, usize)>)
    ensures
        top.deep_view() == ranked(counts.deep_view(), limit as nat),
{
    let mut rest: Vec<(String, usize)> = counts;
    let mut top: Vec<(String, usize)> = Vec::new();
    let mut taken: usize = 0;
    assert(top.deep_view() == Seq::<(Seq<char>, usize)>::empty());
    while taken < limit && rest.len() > 0
        invariant
            taken <= limit,
            top.deep_view() + ranked(rest.deep_view(), (limit - taken) as nat) == ranked(
                counts.deep_view(),
                limit as nat,
            ),
        decreases limit - taken,
    {
        let ghost before = rest.deep_view();
        let ghost chosen = top.deep_view();
        let at: usize = find_leader(&rest);
        let entry: (String, usize) = rest.remove(at);
        assert(rest.deep_view() == before.remove(at as int));
        assert((entry.0@, entry.1) == before[at as int]);
        top.push(entry);
        assert(top.deep_view() == chosen.push(before[at as int]));
        assert(chosen.push(before[at as int]) + ranked(
            before.remove(at as int),
            (limit - taken - 1) as nat,
        ) == chosen + (seq![before[at as int]] + ranked(
            before.remove(at as int),
            (limit - taken - 1) as nat,
        )));
        taken += 1;
    }
    assert(ranked(rest.deep_view(), (limit - taken) as nat) == Seq::<(Seq<char>, usize)>::empty());
    assert(top.deep_view() + Seq::<(Seq<char>, usize)>::empty() == top.deep_view());
    top
}

/// The languages of `files`, the most frequent first, each with the number
/// of its files, separated by commas.
pub open spec fn language_summary(files: Seq<Seq<char>>) -> Seq<char> {
    let labels = files.map_values(|path: Seq<char>| language_of_extension(extension_of(path)));
    joined(
        ranked(histogram(labels), TOP_LANGUAGES as nat).map_values(
            |entry: (Seq<char>, usize)| shown_count(entry),
        ),
        ", "@,
    )
}

/// The first `LISTED_FILES` paths of `files`, one per line, each after a
/// hyphen and a space.
pub open spec fn file_tree(files: Seq<Seq<char>>) -> Seq<char> {
    let shown = if files.len() > LISTED_FILES {
        files.take(LISTED_FILES as int)
    } else {
        files
    };
    joined(shown.map_values(|path: Seq<char>| "- "@ + path), "\n"@)
}

/// The number of characters that the input of a summary may hold.
pub open spec fn summary_limit(max_chars: usize) -> usize {
    if max_chars < SUMMARY_INPUT_CAP {
        max_chars
    } else {
        SUMMARY_INPUT_CAP
    }
}

/// The header of the digest: owner and name.
pub open spec fn head_text(record: RecordView) -> Seq<char> {
    "Repository: "@ + record.owner + "/"@ + record.name + "\n"@
}

/// The part of the digest that tells of the files: the languages and a tree
/// of the files; empty for a repository without files.
pub open spec fn files_text(files: Seq<Seq<char>>) -> Seq<char> {
    if files.len() > 0 {
        "\nLanguages: "@ + language_summary(files) + "\n"@ + "\nFile tree (first 200 files):\n"@
            + file_tree(files) + "\n"@
    } else {
        Seq::empty()
    }
}

/// The part of the digest that quotes the README: its sanitized text, cut
/// after `max_chars` characters; empty where there is no README.
pub open spec fn excerpt_text(readme: Option<&str>, max_chars: usize) -> Seq<char> {
    match readme {
        Some(text) => "\nREADME excerpt:\n"@ + truncated(sanitized(text@), max_chars) + "\n"@,
        None => Seq::empty(),
    }
}

/// The digest of a repository from which its summary is made: a header with
/// owner and name; for a repository with files, its languages and a tree of
/// its files; an excerpt of the README, of at most half the limit, where
/// there is one; the whole cut at the limit.
pub open spec fn summary_input_text(
    record: RecordView,
    files: Seq<Seq<char>>,
    readme: Option<&str>,
    max_chars: usize,
) -> Seq<char> {
    let limit = summary_limit(max_chars);
    truncated(
        head_text(record) + files_text(files) + excerpt_text(readme, (limit / 2) as usize),
        limit,
    )
}

fn show_languages(top: &Vec<(String, usize)>) -> (text: String)
    ensures
        text@ == joined(
            top.deep_view().map_values(|entry: (Seq<char>, usize)| shown_count(entry)),
            ", "@,
        ),
{
    let n: usize = top.len();
    let mut shown: Vec<String> = Vec::new();
    let mut i: usize = 0;
    let ghost wanted = top.deep_view().map_values(|entry: (Seq<char>, usize)| shown_count(entry));
    assert(shown.deep_view() == wanted.take(0));
    while i < n
        invariant
            i <= n == top.len(),
            wanted == top.deep_view().map_values(|entry: (Seq<char>, usize)| shown_count(entry)),
            shown.deep_view() == wanted.take(i as int),
        decreases n - i,
    {
        let mut part = String::new();
        part.append(top[i].0.as_str());
        part.append(" (");
        push_decimal(&mut part, top[i].1 as u64);
        part.append(")");
        let ghost before = shown.deep_view();
        assert(top.deep_view()[i as int] == (top@[i as int].0@, top@[i as int].1));
        assert(part@ == wanted[i as int]);
        shown.push(part);
        assert(shown.deep_view() == before.push(part@));
        assert(wanted.take(i + 1) == wanted.take(i as int).push(wanted[i as int]));
        i += 1;
    }
    assert(wanted.take(n as int) == wanted);
    join(&shown, ", ")
}

fn show_files(files: &Vec<String>) -> (text: String)
    ensures
        text@ == file_tree(files.deep_view()),
{
    let n: usize = if files.len() > LISTED_FILES {
        LISTED_FILES
    } else {
        files.len()
    };
    let mut shown: Vec<String> = Vec::new();
    let mut i: usize = 0;
    let ghost listed = if files.deep_view().len() > LISTED_FILES {
        files.deep_view().take(LISTED_FILES as int)
    } else {
        files.deep_view()
    };
    let ghost wanted = listed.map_values(|path: Seq<char>| "- "@ + path);
    assert(shown.deep_view() == wanted.take(0));
    while i < n
        invariant
            i <= n <= files.len(),
            n == listed.len(),
            forall|k: int| 0 <= k < n ==> listed[k] == #[trigger] files.deep_view()[k],
            wanted == listed.map_values(|path: Seq<char>| "- "@ + path),
            shown.deep_view() == wanted.take(i as int),
        decreases n - i,
    {
        let mut part = String::new();
        part.append("- ");
        part.append(files[i].as_str());
        let ghost before = shown.deep_view();
        assert(files.deep_view()[i as int] == files@[i as int]@);
        assert(part@ == wanted[i as int]);
        shown.push(part);
        assert(shown.deep_view() == before.push(part@));
        assert(wanted.take(i + 1) == wanted.take(i as int).push(wanted[i as int]));
        i += 1;
    }
    assert(wanted.take(n as int) == wanted);
    join(&shown, "\n")
}

fn push_files(input: &mut String, files: &Vec<String>)
    ensures
        final(input)@ == old(input)@ + files_text(files.deep_view()),
{
    if files.len() > 0 {
        let counts: Vec<(String, usize)> = language_histogram(files);
        let top: Vec<(String, usize)> = top_languages(counts, TOP_LANGUAGES);
        let languages: String = show_languages(&top);
        let tree: String = show_files(files);
        let mut part = String::new();
        part.append("\nLanguages: ");
        part.append(languages.as_str());
        part.append("\n");
        part.append("\nFile tree (first 200 files):\n");
        part.append(tree.as_str());
        part.append("\n");
        assert(part@ == files_text(files.deep_view()));
        input.append(part.as_str());
    } else {
        assert(input@ + Seq::<char>::empty() == input@);
    }
}

fn push_excerpt(input: &mut String, readme: Option<&str>, max_chars: usize)
    ensures
        final(input)@ == old(input)@ + excerpt_text(readme, max_chars),
{
    match readme {
        Some(text) => {
            let cleaned: String = sanitize_vespa_content(text);
            let excerpt: Cow<str> = truncate_for_summary(cleaned.as_str(), max_chars);
            let mut part = String::new();
            part.append("\nREADME excerpt:\n");
            part.append(cow_text(&excerpt));
            part.append("\n");
            assert(part@ == excerpt_text(readme, max_chars));
            input.append(part.as_str());
        },
        None => {
            assert(input@ + Seq::<char>::empty() == input@);
        },
    }
}

/// Assembles the digest of a repository from which its summary is made.
pub fn build_repo_summary_input(
    record: &RepoRecord,
    files: &Vec<String>,
    readme: Option<&str>,
    max_chars: usize,
) -> (input: String)
    ensures
        input@ == summary_input_text(record@, files.deep_view(), readme, max_chars),
{
    let limit: usize = if max_chars < SUMMARY_INPUT_CAP {
        max_chars
    } else {
        SUMMARY_INPUT_CAP
    };
    let mut input = String::new();
    input.append("Repository: ");
    input.append(record.owner.as_str());
    input.append("/");
    input.append(record.name.as_str());
    input.append("\n");
    assert(input@ == head_text(record@));
    push_files(&mut input, files);
    push_excerpt(&mut input, readme, limit / 2);
    let cut: Cow<str> = truncate_for_summary(input.as_str(), limit);
    cow_text(&cut).to_owned()
}

fn cow_text<'a>(text: &'a Cow<'a, str>) -> (r: &'a str)
    ensures
        r@ == text@,
{
    match text {
        Cow::Borrowed(borrowed) => borrowed,
        Cow::Owned(owned) => owned.as_str(),
    }
}

/// The text that stands for the summary of a repository until one is generated.
pub fn placeholder_summary(owner: &str, name: &str) -> (text: String)
    ensures
        text@ == "# CodeWiki for "@ + owner@ + "/"@ + name@
            + "\n\nThis is a placeholder wiki generated during ingestion.\n"@,
{
    let mut text = String::new();
    text.append("# CodeWiki for ");
    text.append(owner);
    text.append("/");
    text.append(name);
    text.append("\n\nThis is a placeholder wiki generated during ingestion.\n");
    text
}

/// The summary that is shown for a repository without generated summaries:
/// the stored display text, or a notice where there is none.
pub fn wiki_fallback(display_text: Option<String>) -> (text: String)
    ensures
        match display_text {
            Some(stored) => text == stored,
            None => text@ == "# CodeWiki\n\nWiki content is not yet available."@,
        },
{
    match display_text {
        Some(stored) => stored,
        None => "# CodeWiki\n\nWiki content is not yet available.".to_owned(),
    }
}

/// The notice that is shown where a summary was asked for and the store holds none.
pub fn missing_summary_notice() -> (text: &'static str)
    ensures
        text@ == "Summary not available."@,
{
    "Summary not available."
}

/// The file names under which a README is looked for, in this order.
pub open spec fn readme_names() -> Seq<Seq<char>> {
    seq![
        "README.md"@,
        "README.mdx"@,
        "README.txt"@,
        "README"@,
        "readme.md"@,
        "readme.txt"@,
        "readme"@,
    ]
}

/// The file names under which a README is looked for: the first that can be
/// read is the README.
pub fn readme_candidates() -> (names: Vec<&'static str>)
    ensures
        names@.len() == 7,
        forall|i: int| 0 <= i < 7 ==> (#[trigger] names@[i])@ == readme_names()[i],
{
    let mut names: Vec<&'static str> = Vec::new();
    names.push("README.md");
    names.push("README.mdx");
    names.push("README.txt");
    names.push("README");
    names.push("readme.md");
    names.push("readme.txt");
    names.push("readme");
    names
}

} // verus!
