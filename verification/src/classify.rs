//! The content classifier: which files are indexable, what their content
//! looks like once sanitized, and which language label a path gets.

use crate::text::{
    equals_str, find_char, first_index_of, from_chars, is_control, is_control_char,
    lemma_first_index_of, matches_at, occurs_at, push_char, slice, to_chars, trim_bounds, trimmed,
};
use vstd::prelude::*;

verus! {

/// Files above this size are not indexed.
pub const MAX_CONTENT_BYTES: usize = 200_000;

/// A file is indexable where it is not empty, not above the size cap, and
/// holds no NUL byte.
pub open spec fn indexable(bytes: Seq<u8>) -> bool {
    &&& 0 < bytes.len() <= MAX_CONTENT_BYTES
    &&& forall|i: int| 0 <= i < bytes.len() ==> bytes[i] != 0
}

/// An empty file, a file above the size cap and a file that holds a NUL byte
/// are not indexable, whatever else is in them.
pub proof fn lemma_excluded_content(bytes: Seq<u8>)
    ensures
        bytes.len() == 0 ==> !indexable(bytes),
        bytes.len() > MAX_CONTENT_BYTES ==> !indexable(bytes),
        bytes.contains(0u8) ==> !indexable(bytes),
{
    if bytes.contains(0u8) {
        let at = choose|i: int| 0 <= i < bytes.len() && bytes[i] == 0u8;
        assert(bytes[at] == 0);
    }
}

/// Whether a file with the content `bytes` is indexable.
pub fn is_indexable(bytes: &[u8]) -> (r: bool)
    ensures
        r == indexable(bytes@),
{
    let n: usize = bytes.len();
    if n == 0 || n > MAX_CONTENT_BYTES {
        return false;
    }
    let mut i: usize = 0;
    while i < n
        invariant
            i <= n == bytes.len(),
            forall|j: int| 0 <= j < i ==> bytes[j] != 0,
        decreases n - i,
    {
        if bytes[i] == 0 {
            return false;
        }
        i += 1;
    }
    true
}

/// Sanitizing keeps line feed, carriage return, tab and every character that
/// is no control character.
pub open spec fn kept_char(c: char) -> bool {
    c == '\n' || c == '\r' || c == '\t' || !is_control_char(c)
}

/// `s` without its control characters, but for line feed, carriage return and tab.
pub open spec fn sanitized(s: Seq<char>) -> Seq<char> {
    s.filter(|c: char| kept_char(c))
}

/// Strips the control characters from `input`, keeping line feed, carriage
/// return and tab.
pub fn sanitize_vespa_content(input: &str) -> (out: String)
    ensures
        out@ == sanitized(input@),
{
    let chars: Vec<char> = to_chars(input);
    let n: usize = chars.len();
    let mut out = String::new();
    let mut i: usize = 0;
    let ghost keep = |c: char| kept_char(c);
    assert(chars@.take(0).filter(keep) == Seq::<char>::empty());
    while i < n
        invariant
            i <= n == chars.len(),
            keep == |c: char| kept_char(c),
            out@ == chars@.take(i as int).filter(keep),
        decreases n - i,
    {
        let c: char = chars[i];
        assert(chars@.take(i + 1).drop_last() == chars@.take(i as int));
        assert(chars@.take(i + 1).last() == c);
        proof {
            reveal(Seq::filter);
        }
        if c == '\n' || c == '\r' || c == '\t' || !is_control(c) {
            push_char(&mut out, c);
        }
        i += 1;
    }
    assert(chars@.take(n as int) == chars@);
    out
}

/// Content is blank where nothing but whitespace is in it.
pub open spec fn blank(s: Seq<char>) -> bool {
    trimmed(s).len() == 0
}

/// Whether `content` holds nothing but whitespace.
pub fn is_blank(content: &str) -> (r: bool)
    ensures
        r == blank(content@),
{
    let chars: Vec<char> = to_chars(content);
    let (start, end): (usize, usize) = trim_bounds(&chars);
    start == end
}

/// `line` without the carriage return at its end.
pub open spec fn without_carriage_return(line: Seq<char>) -> Seq<char> {
    if line.len() > 0 && line.last() == '\r' {
        line.drop_last()
    } else {
        line
    }
}

/// The lines of `s`. A line ends at a line feed; the line feed, and a
/// carriage return directly before it, are not part of the line. Text after
/// the last line feed is a line of its own where there is any.
pub open spec fn lines_of(s: Seq<char>) -> Seq<Seq<char>>
    decreases s.len(),
{
    if s.len() == 0 {
        Seq::empty()
    } else {
        let cut = first_index_of(s, '\n');
        if 0 <= cut < s.len() {
            seq![without_carriage_return(s.take(cut))] + lines_of(s.skip(cut + 1))
        } else {
            seq![s]
        }
    }
}

/// The lines of `text`.
pub fn lines(text: &str) -> (out: Vec<String>)
    ensures
        out.deep_view() == lines_of(text@),
{
    let chars: Vec<char> = to_chars(text);
    let n: usize = chars.len();
    let mut out: Vec<String> = Vec::new();
    let mut i: usize = 0;
    assert(chars@.skip(0) == chars@);
    assert(out.deep_view() == Seq::<Seq<char>>::empty());
    while i < n
        invariant
            i <= n == chars.len(),
            out.deep_view() + lines_of(chars@.skip(i as int)) == lines_of(chars@),
        decreases n - i,
    {
        let ghost rest = chars@.skip(i as int);
        let ghost before = out.deep_view();
        let cut: usize = find_char(&chars, i, '\n');
        proof {
            lemma_first_index_of(rest, '\n');
        }
        if cut == n {
            let line: String = from_chars(&chars, i, n);
            assert(chars@.subrange(i as int, n as int) == rest);
            out.push(line);
            assert(out.deep_view() == before.push(rest));
            assert(before.push(rest) == before + seq![rest]);
            assert(chars@.skip(n as int) == Seq::<char>::empty());
            assert(out.deep_view() + Seq::<Seq<char>>::empty() == out.deep_view());
            i = n;
        } else {
            let end: usize = if cut > i && chars[cut - 1] == '\r' {
                cut - 1
            } else {
                cut
            };
            let line: String = from_chars(&chars, i, end);
            let ghost raw = rest.take(cut - i);
            assert(raw == chars@.subrange(i as int, cut as int));
            assert(without_carriage_return(raw) == chars@.subrange(i as int, end as int)) by {
                if cut > i && chars@[cut - 1] == '\r' {
                    assert(raw.last() == '\r');
                    assert(raw.drop_last() == chars@.subrange(i as int, end as int));
                } else if cut > i {
                    assert(raw.last() == chars@[cut - 1]);
                }
            }
            out.push(line);
            assert(out.deep_view() == before.push(without_carriage_return(raw)));
            assert(rest.skip(cut - i + 1) == chars@.skip(cut + 1));
            assert(before.push(without_carriage_return(raw)) + lines_of(chars@.skip(cut + 1))
                == before + (seq![without_carriage_return(raw)] + lines_of(
                chars@.skip(cut + 1),
            )));
            i = cut + 1;
        }
    }
    assert(chars@.skip(n as int) == Seq::<char>::empty());
    assert(out.deep_view() + Seq::<Seq<char>>::empty() == out.deep_view());
    out
}

/// The number of the last line of `content`, counting from 1: the number of
/// its lines, at least 1, and no more than `i32::MAX`.
pub open spec fn last_line(content: Seq<char>) -> int {
    let count = lines_of(content).len() as int;
    if count < 1 {
        1
    } else if count > i32::MAX {
        i32::MAX as int
    } else {
        count
    }
}

/// The number of lines of `s`: one for each line feed, and one more for text
/// after the last line feed.
proof fn lemma_lines_len(s: Seq<char>)
    ensures
        lines_of(s).len() <= s.len(),
    decreases s.len(),
{
    if s.len() > 0 {
        lemma_first_index_of(s, '\n');
        let cut = first_index_of(s, '\n');
        if cut < s.len() {
            lemma_lines_len(s.skip(cut + 1));
        }
    }
}

/// The number of the last line of `content`.
pub fn line_count(content: &str) -> (count: i32)
    ensures
        count == last_line(content@),
{
    let chars: Vec<char> = to_chars(content);
    let n: usize = chars.len();
    let mut count: usize = 0;
    let mut i: usize = 0;
    assert(chars@.skip(0) == chars@);
    proof {
        lemma_lines_len(chars@);
    }
    while i < n
        invariant
            i <= n == chars.len(),
            count + lines_of(chars@.skip(i as int)).len() == lines_of(chars@).len(),
            lines_of(chars@).len() <= n,
        decreases n - i,
    {
        let ghost rest = chars@.skip(i as int);
        let cut: usize = find_char(&chars, i, '\n');
        proof {
            lemma_first_index_of(rest, '\n');
        }
        if cut == n {
            assert(chars@.skip(n as int) == Seq::<char>::empty());
            i = n;
        } else {
            assert(rest.skip(cut - i + 1) == chars@.skip(cut + 1));
            i = cut + 1;
        }
        count += 1;
    }
    assert(chars@.skip(n as int) == Seq::<char>::empty());
    if count < 1 {
        1
    } else if count > 0x7fff_ffff {
        i32::MAX
    } else {
        count as i32
    }
}

/// Directories that a walk over a repository does not enter: version-control
/// internals, ingestion artifacts, dependency and build output, virtual
/// environments.
pub open spec fn skipped_dir(name: Seq<char>) -> bool {
    ||| name == ".git"@
    ||| name == "vv"@
    ||| name == ".vv"@
    ||| name == "node_modules"@
    ||| name == "target"@
    ||| name == "dist"@
    ||| name == "build"@
    ||| name == ".next"@
    ||| name == ".venv"@
    ||| name == "venv"@
    ||| name == "__pycache__"@
}

/// Whether a walk over a repository leaves the directory `name` out.
pub fn should_skip_dir(name: &str) -> (r: bool)
    ensures
        r == skipped_dir(name@),
{
    let chars: Vec<char> = to_chars(name);
    equals_str(&chars, ".git") || equals_str(&chars, "vv") || equals_str(&chars, ".vv")
        || equals_str(&chars, "node_modules") || equals_str(&chars, "target") || equals_str(
        &chars,
        "dist",
    ) || equals_str(&chars, "build") || equals_str(&chars, ".next") || equals_str(&chars, ".venv")
        || equals_str(&chars, "venv") || equals_str(&chars, "__pycache__")
}

/// The index of the last `c` in `s`, or `-1` where there is none.
pub open spec fn last_index_of(s: Seq<char>, c: char) -> int
    decreases s.len(),
{
    if s.len() == 0 {
        -1
    } else if s.last() == c {
        s.len() - 1
    } else {
        last_index_of(s.drop_last(), c)
    }
}

/// The file name of `path`: what follows its last `/`.
pub open spec fn file_name_of(path: Seq<char>) -> Seq<char> {
    path.skip(last_index_of(path, '/') + 1)
}

/// The extension of `path`: what follows the last `.` of its file name;
/// empty where the file name has no `.`, or only one at its very start.
pub open spec fn extension_of(path: Seq<char>) -> Seq<char> {
    let name = file_name_of(path);
    let dot = last_index_of(name, '.');
    if dot <= 0 {
        Seq::empty()
    } else {
        name.skip(dot + 1)
    }
}

/// The language label of a file extension; `unknown` for any other.
pub open spec fn language_of_extension(extension: Seq<char>) -> Seq<char> {
    if extension == "rs"@ {
        "rust"@
    } else if extension == "ts"@ || extension == "tsx"@ {
        "typescript"@
    } else if extension == "js"@ || extension == "jsx"@ {
        "javascript"@
    } else if extension == "py"@ {
        "python"@
    } else if extension == "go"@ {
        "go"@
    } else if extension == "java"@ {
        "java"@
    } else if extension == "rb"@ {
        "ruby"@
    } else if extension == "md"@ {
        "markdown"@
    } else if extension == "json"@ {
        "json"@
    } else if extension == "yml"@ || extension == "yaml"@ {
        "yaml"@
    } else {
        "unknown"@
    }
}

fn find_last_char(chars: &Vec<char>, from: usize, c: char) -> (r: Option<usize>)
    requires
        from <= chars.len(),
    ensures
        match r {
            Some(at) => from <= at < chars.len() && at - from == last_index_of(
                chars@.skip(from as int),
                c,
            ),
            None => last_index_of(chars@.skip(from as int), c) == -1,
        },
{
    let mut i: usize = chars.len();
    let ghost tail = chars@.skip(from as int);
    assert(tail.take(i - from) == tail);
    while i > from
        invariant
            from <= i <= chars.len(),
            tail == chars@.skip(from as int),
            last_index_of(tail, c) == last_index_of(tail.take(i - from), c),
        decreases i,
    {
        assert(tail.take(i - from).last() == chars@[i - 1]);
        if chars[i - 1] == c {
            return Some(i - 1);
        }
        assert(tail.take(i - from).drop_last() == tail.take(i - 1 - from));
        i -= 1;
    }
    None
}

/// The language label of an extension.
pub fn language_for_extension(extension: &Vec<char>) -> (label: &'static str)
    ensures
        label@ == language_of_extension(extension@),
{
    if equals_str(extension, "rs") {
        "rust"
    } else if equals_str(extension, "ts") || equals_str(extension, "tsx") {
        "typescript"
    } else if equals_str(extension, "js") || equals_str(extension, "jsx") {
        "javascript"
    } else if equals_str(extension, "py") {
        "python"
    } else if equals_str(extension, "go") {
        "go"
    } else if equals_str(extension, "java") {
        "java"
    } else if equals_str(extension, "rb") {
        "ruby"
    } else if equals_str(extension, "md") {
        "markdown"
    } else if equals_str(extension, "json") {
        "json"
    } else if equals_str(extension, "yml") || equals_str(extension, "yaml") {
        "yaml"
    } else {
        "unknown"
    }
}

/// The language label of the file at `path`, by its extension.
pub fn guess_language(path: &str) -> (label: String)
    ensures
        label@ == language_of_extension(extension_of(path@)),
{
    let chars: Vec<char> = to_chars(path);
    assert(chars@.skip(0) == chars@);
    let start: usize = match find_last_char(&chars, 0, '/') {
        Some(at) => at + 1,
        None => 0,
    };
    assert(chars@.skip(start as int) == file_name_of(path@));
    let extension: Vec<char> = match find_last_char(&chars, start, '.') {
        Some(dot) => {
            if dot == start {
                Vec::new()
            } else {
                assert(chars@.skip(start as int).skip(dot - start + 1) == chars@.subrange(
                    dot + 1,
                    chars.len() as int,
                ));
                slice(&chars, dot + 1, chars.len())
            }
        },
        None => Vec::new(),
    };
    assert(extension@ == extension_of(path@));
    language_for_extension(&extension).to_owned()
}

/// A path that the version-control tool lists is indexed unless it is the
/// repository's own state directory or lies below it.
pub open spec fn state_path(line: Seq<char>) -> bool {
    line == ".vv"@ || occurs_at(line, ".vv/"@, 0)
}

/// The files of a listing, one path per line, without those of the
/// repository's own state directory.
pub open spec fn listed_files(listing: Seq<char>) -> Seq<Seq<char>> {
    lines_of(listing).filter(|line: Seq<char>| !state_path(line))
}

/// The files that the version-control tool listed, one path per line.
pub fn tracked_files(listing: &str) -> (files: Vec<String>)
    ensures
        files.deep_view() == listed_files(listing@),
{
    let all: Vec<String> = lines(listing);
    let n: usize = all.len();
    let mut files: Vec<String> = Vec::new();
    let mut i: usize = 0;
    let ghost keep = |line: Seq<char>| !state_path(line);
    let ghost every = all.deep_view();
    let prefix: Vec<char> = to_chars(".vv/");
    assert(every.take(0).filter(keep) == Seq::<Seq<char>>::empty()) by {
        reveal(Seq::filter);
    }
    assert(files.deep_view() == Seq::<Seq<char>>::empty());
    while i < n
        invariant
            i <= n == all.len(),
            every == all.deep_view(),
            prefix@ == ".vv/"@,
            keep == |line: Seq<char>| !state_path(line),
            files.deep_view() == every.take(i as int).filter(keep),
        decreases n - i,
    {
        let line: Vec<char> = to_chars(all[i].as_str());
        let ghost before = files.deep_view();
        assert(every.take(i + 1).drop_last() == every.take(i as int));
        assert(every.take(i + 1).last() == line@);
        proof {
            reveal(Seq::filter);
        }
        if !equals_str(&line, ".vv") && !matches_at(&line, 0, &prefix) {
            files.push(all[i].clone());
            assert(files.deep_view() == before.push(line@));
        }
        i += 1;
    }
    assert(every.take(n as int) == every);
    files
}

/// What a walk over a repository does with one directory entry.
#[derive(Clone, Copy, Debug, PartialEq, Eq, Structural)]
pub enum WalkDecision {
    /// A directory that is walked in turn.
    Descend,
    /// A directory that is left out.
    Skip,
    /// A file that is listed.
    Collect,
    /// Neither a directory nor a file: it is passed over.
    Ignore,
}

/// Decides what a walk over a repository does with the entry `name`.
pub fn walk_decision(is_dir: bool, is_file: bool, name: &str) -> (r: WalkDecision)
    ensures
        is_dir ==> r == if skipped_dir(name@) {
            WalkDecision::Skip
        } else {
            WalkDecision::Descend
        },
        !is_dir && is_file ==> r == WalkDecision::Collect,
        !is_dir && !is_file ==> r == WalkDecision::Ignore,
{
    if is_dir {
        if should_skip_dir(name) {
            WalkDecision::Skip
        } else {
            WalkDecision::Descend
        }
    } else if is_file {
        WalkDecision::Collect
    } else {
        WalkDecision::Ignore
    }
}

} // verus!
