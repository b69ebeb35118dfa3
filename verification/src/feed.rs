//! The document feed writer: one search document per indexable file, the
//! address under which it is written, and the journal record of a write.

use crate::classify::{
    blank, extension_of, guess_language, indexable, is_blank, is_indexable, language_of_extension,
    last_line, line_count, sanitize_vespa_content, sanitized,
};
use crate::digest::{sha256_hex, sha256_hex_text};
use crate::error::AppError;
use crate::registry::{RecordView, RepoRecord};
use crate::text::{from_chars, to_chars, trim_end_char, without_trailing};
use vstd::prelude::*;
use vstd::string::{StringExecFns, StringSliceAdditionalSpecFns};

verus! {

/// The text that `String::from_utf8_lossy` makes of `bytes`: the decoded
/// text, with U+FFFD in place of what is no valid UTF-8.
pub uninterp spec fn lossy_text(bytes: Seq<u8>) -> Seq<char>;

/// `String::from_utf8_lossy`: decodes `bytes` permissively; the result is a
/// function of the bytes alone and never a failure.
#[verifier::external_body]
fn decode_lossy(bytes: &[u8]) -> (text: String)
    ensures
        text@ == lossy_text(bytes@),
{
    String::from_utf8_lossy(bytes).into_owned()
}

/// Bytes that percent-encoding leaves as they are: ASCII letters and digits,
/// `-`, `.`, `_` and `~`.
pub open spec fn unreserved(b: u8) -> bool {
    ||| 0x30 <= b <= 0x39
    ||| 0x41 <= b <= 0x5A
    ||| 0x61 <= b <= 0x7A
    ||| b == 0x2D
    ||| b == 0x2E
    ||| b == 0x5F
    ||| b == 0x7E
}

/// The upper-case hexadecimal digit of `n`, for `n` below 16.
pub open spec fn upper_hex_digit(n: int) -> char {
    if n < 10 {
        (48 + n) as char
    } else {
        (55 + n) as char
    }
}

/// One byte, percent-encoded.
pub open spec fn percent_encoded_byte(b: u8) -> Seq<char> {
    if unreserved(b) {
        seq![b as char]
    } else {
        seq!['%', upper_hex_digit(b as int / 16), upper_hex_digit(b as int % 16)]
    }
}

/// `bytes`, percent-encoded byte by byte.
pub open spec fn percent_encoded(bytes: Seq<u8>) -> Seq<char>
    decreases bytes.len(),
{
    if bytes.len() == 0 {
        Seq::empty()
    } else {
        percent_encoded(bytes.drop_last()) + percent_encoded_byte(bytes.last())
    }
}

/// `urlencoding::encode`: percent-encodes every byte of the UTF-8 form of
/// `text` except the unreserved ones, with upper-case hexadecimal digits.
#[verifier::external_body]
fn url_encode(text: &str) -> (out: String)
    ensures
        out@ == percent_encoded(text.spec_bytes()),
{
    urlencoding::encode(text).into_owned()
}

/// The id of a chunk: the hash of the repository id, a colon and the file path.
pub open spec fn chunk_id_text(repo_id: Seq<char>, file_path: Seq<char>) -> Seq<char> {
    sha256_hex_text(vstd::utf8::encode_utf8(repo_id + ":"@ + file_path))
}

/// The id of a document in the remote index: repository id, a hyphen, chunk id.
pub open spec fn document_id_text(repo_id: Seq<char>, chunk_id: Seq<char>) -> Seq<char> {
    repo_id + "-"@ + chunk_id
}

/// The deterministic id of the chunk that holds the file at `file_path`.
pub fn chunk_id(repo_id: &str, file_path: &str) -> (id: String)
    ensures
        id@ == chunk_id_text(repo_id@, file_path@),
        id@.len() == 64,
{
    let mut key = String::new();
    key.append(repo_id);
    key.append(":");
    key.append(file_path);
    assert(key@ == repo_id@ + ":"@ + file_path@);
    sha256_hex(key.as_str().as_bytes())
}

/// The id under which a chunk is written to the remote index, so that a file
/// fed again overwrites its earlier document.
pub fn document_id(repo_id: &str, chunk_id: &str) -> (id: String)
    ensures
        id@ == document_id_text(repo_id@, chunk_id@),
{
    let mut id = String::new();
    id.append(repo_id);
    id.append("-");
    id.append(chunk_id);
    id
}

/// One search document, without its embedding.
#[derive(Clone, Debug, PartialEq, Eq)]
pub struct FeedDocument {
    pub repo_id: String,
    pub repo_url: String,
    pub repo_name: String,
    pub repo_owner: String,
    pub commit_sha: String,
    pub branch: String,
    pub file_path: String,
    pub language: String,
    pub license_spdx: String,
    pub chunk_id: String,
    pub chunk_hash: String,
    pub line_start: i32,
    pub line_end: i32,
    pub symbol_names: Vec<String>,
    pub content: String,
    pub content_sha: String,
    pub last_indexed_at: i64,
}

impl FeedDocument {
    /// The document describes the file at `file_path` of the repository
    /// `record`, with the sanitized content `content`, indexed at `now`.
    pub open spec fn describes(
        &self,
        record: RecordView,
        file_path: Seq<char>,
        content: Seq<char>,
        now: i64,
    ) -> bool {
        &&& self.repo_id@ == record.id
        &&& self.repo_url@ == record.repo_url
        &&& self.repo_name@ == record.name
        &&& self.repo_owner@ == record.owner
        &&& self.commit_sha@ == "unknown"@
        &&& self.branch@ == "main"@
        &&& self.file_path@ == file_path
        &&& self.language@ == language_of_extension(extension_of(file_path))
        &&& self.license_spdx@ == "unknown"@
        &&& self.chunk_id@ == chunk_id_text(record.id, file_path)
        &&& self.chunk_hash@ == sha256_hex_text(vstd::utf8::encode_utf8(content))
        &&& self.line_start == 1
        &&& self.line_end == last_line(content)
        &&& self.symbol_names@.len() == 0
        &&& self.content@ == content
        &&& self.content_sha@ == self.chunk_hash@
        &&& self.last_indexed_at == now
    }
}

/// The document for a file whose decoded content is `decoded`: `None` where
/// the content is blank once sanitized.
pub fn document_for(record: &RepoRecord, file_path: &str, decoded: &str, now: i64) -> (r: Option<
    FeedDocument,
>)
    ensures
        r is Some <==> !blank(sanitized(decoded@)),
        r matches Some(doc) ==> doc.describes(record@, file_path@, sanitized(decoded@), now),
{
    let content: String = sanitize_vespa_content(decoded);
    if is_blank(content.as_str()) {
        return None;
    }
    let line_end: i32 = line_count(content.as_str());
    let content_sha: String = sha256_hex(content.as_str().as_bytes());
    let chunk_hash: String = content_sha.clone();
    let chunk: String = chunk_id(record.id.as_str(), file_path);
    Some(
        FeedDocument {
            repo_id: record.id.clone(),
            repo_url: record.repo_url.clone(),
            repo_name: record.name.clone(),
            repo_owner: record.owner.clone(),
            commit_sha: "unknown".to_owned(),
            branch: "main".to_owned(),
            file_path: file_path.to_owned(),
            language: guess_language(file_path),
            license_spdx: "unknown".to_owned(),
            chunk_id: chunk,
            chunk_hash,
            line_start: 1,
            line_end,
            symbol_names: Vec::new(),
            content,
            content_sha,
            last_indexed_at: now,
        },
    )
}

/// The document for a file with the content `bytes`, where the file is
/// indexable and its content is not blank once decoded and sanitized.
///
/// An empty file, a file above the size cap and a file with a NUL byte give
/// no document: they reach neither the embedding step nor the journal.
pub fn prepare_document(record: &RepoRecord, file_path: &str, bytes: &[u8], now: i64) -> (r:
    Option<FeedDocument>)
    ensures
        r is Some <==> indexable(bytes@) && !blank(sanitized(lossy_text(bytes@))),
        r matches Some(doc) ==> doc.describes(
            record@,
            file_path@,
            sanitized(lossy_text(bytes@)),
            now,
        ),
{
    if !is_indexable(bytes) {
        return None;
    }
    let decoded: String = decode_lossy(bytes);
    document_for(record, file_path, decoded.as_str(), now)
}

/// The journal record of one successfully fed file.
#[derive(Clone, Debug, PartialEq, Eq)]
pub struct ChunkRecord {
    pub repo_id: String,
    pub file_path: String,
    pub chunk_id: String,
    pub line_start: i32,
    pub line_end: i32,
    pub content_sha: String,
}

/// The journal record of the document `doc`.
pub fn chunk_record(doc: &FeedDocument) -> (r: ChunkRecord)
    ensures
        r.repo_id@ == doc.repo_id@,
        r.file_path@ == doc.file_path@,
        r.chunk_id@ == doc.chunk_id@,
        r.line_start == 1,
        r.line_end == doc.line_end,
        r.content_sha@ == doc.content_sha@,
{
    ChunkRecord {
        repo_id: doc.repo_id.clone(),
        file_path: doc.file_path.clone(),
        chunk_id: doc.chunk_id.clone(),
        line_start: 1,
        line_end: doc.line_end,
        content_sha: doc.content_sha.clone(),
    }
}

/// What the remote index's answer to a document write means: a non-success
/// answer rejects the document, and with it the whole feed.
pub fn put_outcome(accepted: bool, body: String) -> (r: Result<(), AppError>)
    ensures
        accepted ==> r is Ok,
        !accepted ==> r == Err::<(), AppError>(AppError::VespaRejected(body)),
{
    if accepted {
        Ok(())
    } else {
        Err(AppError::VespaRejected(body))
    }
}

/// The address of the document `doc_id`.
pub open spec fn document_url_text(
    endpoint: Seq<char>,
    namespace: Seq<char>,
    document_type: Seq<char>,
    doc_id: Seq<u8>,
) -> Seq<char> {
    without_trailing(endpoint, '/') + "/document/v1/"@ + namespace + "/"@ + document_type
        + "/docid/"@ + percent_encoded(doc_id)
}

/// The address to which the document `doc_id` is written; a configuration
/// error where no document endpoint is set.
pub fn vespa_document_url(
    endpoint: &str,
    namespace: &str,
    document_type: &str,
    doc_id: &str,
) -> (r: Result<String, AppError>)
    ensures
        blank(endpoint@) ==> (r matches Err(AppError::Config(detail)) && detail@
            == "VESPA_DOCUMENT_ENDPOINT or VESPA_ENDPOINT must be set"@),
        !blank(endpoint@) ==> (r matches Ok(url) && url@ == document_url_text(
            endpoint@,
            namespace@,
            document_type@,
            doc_id.spec_bytes(),
        )),
{
    if is_blank(endpoint) {
        return Err(
            AppError::Config("VESPA_DOCUMENT_ENDPOINT or VESPA_ENDPOINT must be set".to_owned()),
        );
    }
    let mut base: Vec<char> = to_chars(endpoint);
    trim_end_char(&mut base, '/');
    let mut url: String = from_chars(&base, 0, base.len());
    assert(base@.subrange(0, base.len() as int) == base@);
    url.append("/document/v1/");
    url.append(namespace);
    url.append("/");
    url.append(document_type);
    url.append("/docid/");
    let encoded: String = url_encode(doc_id);
    url.append(encoded.as_str());
    Ok(url)
}

/// The address to which queries are sent; a configuration error where no
/// endpoint is set.
pub fn vespa_search_url(endpoint: &str) -> (r: Result<String, AppError>)
    ensures
        blank(endpoint@) ==> (r matches Err(AppError::Config(detail)) && detail@
            == "VESPA_ENDPOINT must be set"@),
        !blank(endpoint@) ==> (r matches Ok(url) && url@ == without_trailing(endpoint@, '/')
            + "/search/"@),
{
    if is_blank(endpoint) {
        return Err(AppError::Config("VESPA_ENDPOINT must be set".to_owned()));
    }
    let mut base: Vec<char> = to_chars(endpoint);
    trim_end_char(&mut base, '/');
    let mut url: String = from_chars(&base, 0, base.len());
    assert(base@.subrange(0, base.len() as int) == base@);
    url.append("/search/");
    Ok(url)
}

/// What is in work for the file at hand.
#[derive(Clone, Copy, Debug, PartialEq, Eq, Structural)]
pub enum FeedPhase {
    /// The file is read and its document is prepared.
    Reading,
    /// The embedding of the document's content is obtained.
    Embedding,
    /// The document is written to the remote index.
    Writing,
    /// The journal record of the document is appended.
    Journaling,
    /// Every file was dealt with.
    Finished,
    /// The feed was aborted.
    Failed,
}

/// What came of the step in work.
#[derive(Clone, Copy, Debug, PartialEq, Eq, Structural)]
pub enum FeedReport {
    /// The file could not be read.
    Unreadable,
    /// The file gives no document.
    NoDocument,
    /// The file gives a document.
    Document,
    /// The step succeeded.
    Done,
    /// The remote index answered the write with a non-success status.
    Rejected,
    /// The step failed with an error.
    Failed,
}

/// Where a feed over the files of a repository stands.
///
/// The files are dealt with one after the other. A file that gives no
/// document is passed over. A failure of the embedding, of the write or of
/// the journal, and a rejection by the remote index, abort the feed; what
/// the journal holds by then stays.
#[derive(Clone, Copy, Debug, PartialEq, Eq)]
pub struct FeedProgress {
    file: usize,
    total: usize,
    indexed: usize,
    phase: FeedPhase,
}

impl FeedProgress {
    #[verifier::type_invariant]
    spec fn well_formed(self) -> bool {
        &&& self.indexed <= self.file <= self.total
        &&& !(self.phase is Finished || self.phase is Failed) ==> self.file < self.total
    }

    /// The index of the file at hand.
    pub closed spec fn file_index(self) -> nat {
        self.file as nat
    }

    /// The number of files of the feed.
    pub closed spec fn file_count(self) -> nat {
        self.total as nat
    }

    /// The number of documents that were written and journaled.
    pub closed spec fn indexed_count(self) -> nat {
        self.indexed as nat
    }

    /// What is in work for the file at hand.
    pub closed spec fn current_phase(self) -> FeedPhase {
        self.phase
    }

    /// The feed was aborted or is through.
    pub open spec fn ended(self) -> bool {
        self.current_phase() is Finished || self.current_phase() is Failed
    }

    /// The phase in which the next file is taken up, or `Finished` after the
    /// last file.
    pub open spec fn phase_after_file(self) -> FeedPhase {
        if self.file_index() + 1 < self.file_count() {
            FeedPhase::Reading
        } else {
            FeedPhase::Finished
        }
    }

    /// The progress follows `self` on `report`: the phase moves on within
    /// the file, to the next file, or to the end; the file index moves on
    /// exactly when a file is done with; the count of indexed documents
    /// moves on exactly when a journal record was appended.
    pub open spec fn follows(self, before: FeedProgress, report: FeedReport) -> bool {
        let file_done = match (before.current_phase(), report) {
            (FeedPhase::Reading, FeedReport::Unreadable) => true,
            (FeedPhase::Reading, FeedReport::NoDocument) => true,
            (FeedPhase::Journaling, FeedReport::Done) => true,
            _ => false,
        };
        let journaled = before.current_phase() == FeedPhase::Journaling && report
            == FeedReport::Done;
        &&& self.file_count() == before.file_count()
        &&& self.file_index() == if file_done {
            before.file_index() + 1
        } else {
            before.file_index()
        }
        &&& self.indexed_count() == if journaled {
            before.indexed_count() + 1
        } else {
            before.indexed_count()
        }
        &&& self.current_phase() == if before.ended() {
            before.current_phase()
        } else if file_done {
            before.phase_after_file()
        } else {
            match (before.current_phase(), report) {
                (FeedPhase::Reading, FeedReport::Document) => FeedPhase::Embedding,
                (FeedPhase::Embedding, FeedReport::Done) => FeedPhase::Writing,
                (FeedPhase::Writing, FeedReport::Done) => FeedPhase::Journaling,
                _ => FeedPhase::Failed,
            }
        }
    }

    /// The feed over `total` files, before the first file.
    pub fn start(total: usize) -> (progress: FeedProgress)
        ensures
            progress.file_index() == 0,
            progress.file_count() == total,
            progress.indexed_count() == 0,
            progress.current_phase() == if total == 0 {
                FeedPhase::Finished
            } else {
                FeedPhase::Reading
            },
    {
        let phase: FeedPhase = if total == 0 {
            FeedPhase::Finished
        } else {
            FeedPhase::Reading
        };
        FeedProgress { file: 0, total, indexed: 0, phase }
    }

    /// The index of the file at hand.
    pub fn file(&self) -> (r: usize)
        ensures
            r == self.file_index(),
    {
        self.file
    }

    /// The number of documents that were written and journaled.
    pub fn indexed(&self) -> (r: usize)
        ensures
            r == self.indexed_count(),
    {
        self.indexed
    }

    /// What is in work for the file at hand.
    pub fn phase(&self) -> (r: FeedPhase)
        ensures
            r == self.current_phase(),
    {
        self.phase
    }

    /// The progress after `report` came of the step in work.
    ///
    /// The embedding step is entered only for a file that gave a document,
    /// and so are the write and the journal.
    pub fn advance(self, report: FeedReport) -> (next: FeedProgress)
        ensures
            next.follows(self, report),
            next.current_phase() == FeedPhase::Embedding && !self.ended() ==> self.current_phase()
                == FeedPhase::Reading && report == FeedReport::Document,
            report == FeedReport::Rejected ==> next.ended(),
    {
        proof {
            use_type_invariant(&self);
        }
        let after_file: FeedPhase = if self.total - self.file > 1 {
            FeedPhase::Reading
        } else {
            FeedPhase::Finished
        };
        match (self.phase, report) {
            (FeedPhase::Finished, _) | (FeedPhase::Failed, _) => self,
            (FeedPhase::Reading, FeedReport::Unreadable)
            | (FeedPhase::Reading, FeedReport::NoDocument) => FeedProgress {
                file: self.file + 1,
                total: self.total,
                indexed: self.indexed,
                phase: after_file,
            },
            (FeedPhase::Reading, FeedReport::Document) => FeedProgress {
                file: self.file,
                total: self.total,
                indexed: self.indexed,
                phase: FeedPhase::Embedding,
            },
            (FeedPhase::Embedding, FeedReport::Done) => FeedProgress {
                file: self.file,
                total: self.total,
                indexed: self.indexed,
                phase: FeedPhase::Writing,
            },
            (FeedPhase::Writing, FeedReport::Done) => FeedProgress {
                file: self.file,
                total: self.total,
                indexed: self.indexed,
                phase: FeedPhase::Journaling,
            },
            (FeedPhase::Journaling, FeedReport::Done) => FeedProgress {
                file: self.file + 1,
                total: self.total,
                indexed: self.indexed + 1,
                phase: after_file,
            },
            _ => FeedProgress {
                file: self.file,
                total: self.total,
                indexed: self.indexed,
                phase: FeedPhase::Failed,
            },
        }
    }
}

/// What reading a file gave: its document, or the reason to pass it over.
///
/// A file that could not be read, an empty file, a file above the size cap, a
/// file with a NUL byte and a file that is blank once sanitized give no
/// document, and with the report of that the feed moves on to the next file.
pub fn examine_file(record: &RepoRecord, file_path: &str, content: Option<&[u8]>, now: i64) -> (r:
    (FeedReport, Option<FeedDocument>))
    ensures
        match content {
            None => r.0 == FeedReport::Unreadable && r.1 is None,
            Some(bytes) => if indexable(bytes@) && !blank(sanitized(lossy_text(bytes@))) {
                r.0 == FeedReport::Document && (r.1 matches Some(doc) && doc.describes(
                    record@,
                    file_path@,
                    sanitized(lossy_text(bytes@)),
                    now,
                ))
            } else {
                r.0 == FeedReport::NoDocument && r.1 is None
            },
        },
{
    match content {
        None => (FeedReport::Unreadable, None),
        Some(bytes) => match prepare_document(record, file_path, bytes, now) {
            Some(doc) => (FeedReport::Document, Some(doc)),
            None => (FeedReport::NoDocument, None),
        },
    }
}

} // verus!
