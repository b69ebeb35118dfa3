//! The search query builder: how a query text, an optional repository filter
//! and a search mode become a query against the remote index, and how a hit
//! of the index becomes a search result.

use crate::classify::{blank, is_blank};
use crate::text::{
    contains_text, equals_str, from_chars, occurs_at, push_char, to_chars, trim_bounds, trimmed,
    trimmed_chars,
};
use vstd::prelude::*;
use vstd::string::StringExecFns;

verus! {

/// How a query is matched against the index.
#[derive(Clone, Copy, Debug, PartialEq, Eq, Structural)]
pub enum SearchMode {
    /// Lexical and vector retrieval together.
    Hybrid,
    /// Vector nearest-neighbor retrieval only.
    Semantic,
    /// Lexical retrieval only.
    Bm25,
}

impl SearchMode {
    /// Whether the mode retrieves by vector.
    pub open spec fn uses_vector(self) -> bool {
        self == SearchMode::Hybrid || self == SearchMode::Semantic
    }

    /// Whether the mode retrieves by keyword.
    pub open spec fn uses_lexical(self) -> bool {
        self == SearchMode::Hybrid || self == SearchMode::Bm25
    }

    /// The name of the ranking profile of a vector mode.
    pub open spec fn profile_text(self) -> Option<Seq<char>> {
        match self {
            SearchMode::Hybrid => Some("hybrid"@),
            SearchMode::Semantic => Some("semantic"@),
            SearchMode::Bm25 => None,
        }
    }

    /// The ranking profile that the mode asks for; the vector modes have
    /// one, and they alone need the query embedded.
    pub fn profile_name(self) -> (r: Option<&'static str>)
        ensures
            r is Some <==> self.uses_vector(),
            match self.profile_text() {
                Some(name) => r matches Some(text) && text@ == name,
                None => r is None,
            },
    {
        match self {
            SearchMode::Hybrid => Some("hybrid"),
            SearchMode::Semantic => Some("semantic"),
            SearchMode::Bm25 => None,
        }
    }
}

/// The lower-case form of `s` that `str::to_lowercase` gives.
pub uninterp spec fn lowercased(s: Seq<char>) -> Seq<char>;

/// `str::to_lowercase`: the lower-case form of `s`, by the Unicode mapping.
#[verifier::external_body]
fn to_lowercase(s: &str) -> (r: String)
    ensures
        r@ == lowercased(s@),
{
    s.to_lowercase()
}

/// The mode that a normalized label selects: `semantic`, `bm25`, and hybrid
/// for any other.
pub open spec fn mode_of_label(label: Seq<char>) -> SearchMode {
    if label == "semantic"@ {
        SearchMode::Semantic
    } else if label == "bm25"@ {
        SearchMode::Bm25
    } else {
        SearchMode::Hybrid
    }
}

/// The mode that a normalized label selects.
pub fn mode_from_label(label: &str) -> (mode: SearchMode)
    ensures
        mode == mode_of_label(label@),
{
    let chars: Vec<char> = to_chars(label);
    if equals_str(&chars, "semantic") {
        SearchMode::Semantic
    } else if equals_str(&chars, "bm25") {
        SearchMode::Bm25
    } else {
        SearchMode::Hybrid
    }
}

/// The mode that a request selects: lexical where it names none; else the
/// mode of the label, trimmed and in lower case.
pub fn resolve_search_mode(value: Option<&str>) -> (mode: SearchMode)
    ensures
        match value {
            Some(label) => mode == mode_of_label(lowercased(trimmed(label@))),
            None => mode == SearchMode::Bm25,
        },
{
    match value {
        Some(label) => {
            let chars: Vec<char> = trimmed_chars(label);
            let label: String = from_chars(&chars, 0, chars.len());
            assert(chars@.subrange(0, chars.len() as int) == chars@);
            let lower: String = to_lowercase(label.as_str());
            mode_from_label(lower.as_str())
        },
        None => SearchMode::Bm25,
    }
}

/// The structure of a query: which retrieval clauses it holds and whether it
/// is restricted to one repository.
#[derive(Clone, Copy, Debug, PartialEq, Eq, Structural)]
pub struct SearchQuery {
    /// The query holds the nearest-neighbor clause.
    pub nearest_neighbor: bool,
    /// The query holds the lexical clause.
    pub lexical: bool,
    /// The query holds the repository-equality clause.
    pub repo_filter: bool,
}

/// A repository filter applies where it is given and not blank.
pub open spec fn filter_applies(repo_filter: Option<&str>) -> bool {
    repo_filter matches Some(value) && !blank(value@)
}

/// The nearest-neighbor clause.
pub open spec fn vector_clause() -> Seq<char> {
    "{targetHits:100}nearestNeighbor(embedding, query_embedding)"@
}

/// The lexical clause.
pub open spec fn lexical_clause() -> Seq<char> {
    "userInput(@query)"@
}

impl SearchQuery {
    /// The query of `mode`, restricted to a repository where `filtered`.
    pub open spec fn of(mode: SearchMode, filtered: bool) -> SearchQuery {
        SearchQuery {
            nearest_neighbor: mode.uses_vector(),
            lexical: mode.uses_lexical(),
            repo_filter: filtered,
        }
    }

    /// The retrieval clauses: one clause as it is, two joined by `or` in
    /// parentheses.
    pub open spec fn retrieval_text(self) -> Seq<char> {
        if self.nearest_neighbor && self.lexical {
            "("@ + vector_clause() + " or "@ + lexical_clause() + ")"@
        } else if self.nearest_neighbor {
            vector_clause()
        } else if self.lexical {
            lexical_clause()
        } else {
            "()"@
        }
    }

    /// The condition of the query: the retrieval clauses, and the
    /// repository-equality clause where the query is filtered.
    pub open spec fn condition_text(self) -> Seq<char> {
        if self.repo_filter {
            self.retrieval_text() + " and repo_id = @repo_id"@
        } else {
            self.retrieval_text()
        }
    }

    /// The query in the index's query language.
    pub open spec fn yql_text(self) -> Seq<char> {
        "select repo_id, file_path, line_start, line_end, content from sources * where "@
            + self.condition_text() + ";"@
    }

    /// The query structure of `mode` with the given filter.
    pub fn for_mode(mode: SearchMode, repo_filter: Option<&str>) -> (q: SearchQuery)
        ensures
            q == SearchQuery::of(mode, filter_applies(repo_filter)),
    {
        let filtered: bool = match repo_filter {
            Some(value) => !is_blank(value),
            None => false,
        };
        let (nearest_neighbor, lexical): (bool, bool) = match mode {
            SearchMode::Hybrid => (true, true),
            SearchMode::Semantic => (true, false),
            SearchMode::Bm25 => (false, true),
        };
        SearchQuery { nearest_neighbor, lexical, repo_filter: filtered }
    }

    /// Writes the query in the index's query language.
    pub fn render(self) -> (yql: String)
        ensures
            yql@ == self.yql_text(),
    {
        let mut yql = String::new();
        yql.append("select repo_id, file_path, line_start, line_end, content from sources * where ");
        if self.nearest_neighbor && self.lexical {
            yql.append("(");
            yql.append("{targetHits:100}nearestNeighbor(embedding, query_embedding)");
            yql.append(" or ");
            yql.append("userInput(@query)");
            yql.append(")");
        } else if self.nearest_neighbor {
            yql.append("{targetHits:100}nearestNeighbor(embedding, query_embedding)");
        } else if self.lexical {
            yql.append("userInput(@query)");
        } else {
            yql.append("()");
        }
        if self.repo_filter {
            yql.append(" and repo_id = @repo_id");
        }
        yql.append(";");
        yql
    }
}

/// The query text for `mode`: lexical mode holds the lexical clause alone,
/// semantic mode the nearest-neighbor clause alone, hybrid mode both, joined
/// by `or`; a filter that is not blank adds the repository-equality clause.
pub fn build_search_yql(repo_filter: Option<&str>, mode: SearchMode) -> (yql: String)
    ensures
        yql@ == SearchQuery::of(mode, filter_applies(repo_filter)).yql_text(),
{
    SearchQuery::for_mode(mode, repo_filter).render()
}

/// What a mode's query holds: a lexical query never holds the
/// nearest-neighbor clause, a semantic query never the lexical clause, and a
/// hybrid query holds both, with the repository-equality clause exactly where
/// a filter applies.
pub proof fn lemma_mode_clauses(mode: SearchMode, filtered: bool)
    ensures
        mode == SearchMode::Bm25 ==> !SearchQuery::of(mode, filtered).nearest_neighbor
            && SearchQuery::of(mode, filtered).lexical,
        mode == SearchMode::Semantic ==> SearchQuery::of(mode, filtered).nearest_neighbor
            && !SearchQuery::of(mode, filtered).lexical,
        mode == SearchMode::Hybrid ==> SearchQuery::of(mode, filtered).nearest_neighbor
            && SearchQuery::of(mode, filtered).lexical,
        SearchQuery::of(mode, filtered).repo_filter == filtered,
        mode == SearchMode::Bm25 ==> SearchQuery::of(mode, false).condition_text()
            == lexical_clause(),
        mode == SearchMode::Semantic ==> SearchQuery::of(mode, false).condition_text()
            == vector_clause(),
        mode == SearchMode::Hybrid ==> SearchQuery::of(mode, true).condition_text() == "("@
            + vector_clause() + " or "@ + lexical_clause() + ")"@ + " and repo_id = @repo_id"@,
{
}

proof fn reveal_query_texts()
    ensures
        "select repo_id, file_path, line_start, line_end, content from sources * where "@.len()
            == 78,
        vector_clause().len() == 59,
        lexical_clause().len() == 17,
        " and repo_id = @repo_id"@.len() == 23,
        " or "@.len() == 4,
        "("@.len() == 1,
        ")"@.len() == 1,
        ";"@.len() == 1,
        "()"@.len() == 2,
        forall|i: int|
            0 <= i < 78 ==> {
                let c =
                    #[trigger] "select repo_id, file_path, line_start, line_end, content from sources * where "@[i];
                c != 'N' && c != 'I'
            },
        forall|i: int| 0 <= i < 59 ==> #[trigger] vector_clause()[i] != 'I',
        forall|i: int| 0 <= i < 17 ==> #[trigger] lexical_clause()[i] != 'N',
        forall|i: int|
            0 <= i < 23 ==> {
                let c = #[trigger] " and repo_id = @repo_id"@[i];
                c != 'N' && c != 'I'
            },
        "nearestNeighbor"@.len() == 15,
        "nearestNeighbor"@[7] == 'N',
        "userInput"@.len() == 9,
        "userInput"@[4] == 'I',
        ";"@[0] == ';',
{
    reveal_strlit("select repo_id, file_path, line_start, line_end, content from sources * where ");
    reveal_strlit("{targetHits:100}nearestNeighbor(embedding, query_embedding)");
    reveal_strlit("userInput(@query)");
    reveal_strlit(" and repo_id = @repo_id");
    reveal_strlit(" or ");
    reveal_strlit("(");
    reveal_strlit(")");
    reveal_strlit(";");
    reveal_strlit("()");
    reveal_strlit("nearestNeighbor");
    reveal_strlit("userInput");
}

/// The text of a lexical query does not hold the word `nearestNeighbor`,
/// with or without a repository filter.
pub proof fn lemma_lexical_text_has_no_vector_clause(filtered: bool)
    ensures
        !contains_text(
            SearchQuery::of(SearchMode::Bm25, filtered).yql_text(),
            "nearestNeighbor"@,
        ),
{
    reveal_query_texts();
    let text = SearchQuery::of(SearchMode::Bm25, filtered).yql_text();
    let word = "nearestNeighbor"@;
    assert forall|i: int| 0 <= i < text.len() implies text[i] != 'N' by {
        if i < 78 {
        } else if i < 78 + 17 {
            assert(text[i] == lexical_clause()[i - 78]);
        } else if filtered && i < 78 + 17 + 23 {
            assert(text[i] == " and repo_id = @repo_id"@[i - 78 - 17]);
        } else {
            assert(text[i] == ';');
        }
    }
    assert forall|at: int| !occurs_at(text, word, at) by {
        if occurs_at(text, word, at) {
            assert(text.subrange(at, at + word.len())[7] == word[7]);
            assert(text[at + 7] == 'N');
        }
    }
}

/// The text of a semantic query does not hold the word `userInput`, with or
/// without a repository filter.
pub proof fn lemma_semantic_text_has_no_lexical_clause(filtered: bool)
    ensures
        !contains_text(SearchQuery::of(SearchMode::Semantic, filtered).yql_text(), "userInput"@),
{
    reveal_query_texts();
    let text = SearchQuery::of(SearchMode::Semantic, filtered).yql_text();
    let word = "userInput"@;
    assert forall|i: int| 0 <= i < text.len() implies text[i] != 'I' by {
        if i < 78 {
        } else if i < 78 + 59 {
            assert(text[i] == vector_clause()[i - 78]);
        } else if filtered && i < 78 + 59 + 23 {
            assert(text[i] == " and repo_id = @repo_id"@[i - 78 - 59]);
        } else {
            assert(text[i] == ';');
        }
    }
    assert forall|at: int| !occurs_at(text, word, at) by {
        if occurs_at(text, word, at) {
            assert(text.subrange(at, at + word.len())[4] == word[4]);
            assert(text[at + 4] == 'I');
        }
    }
}

/// The text of a hybrid query holds the nearest-neighbor clause and the
/// lexical clause, joined by `or`, and after them the repository-equality
/// clause where a filter applies.
pub proof fn lemma_hybrid_text_holds_both_clauses(filtered: bool)
    ensures
        contains_text(
            SearchQuery::of(SearchMode::Hybrid, filtered).yql_text(),
            vector_clause() + " or "@ + lexical_clause(),
        ),
        filtered ==> contains_text(
            SearchQuery::of(SearchMode::Hybrid, filtered).yql_text(),
            lexical_clause() + ")"@ + " and repo_id = @repo_id"@,
        ),
{
    reveal_query_texts();
    let text = SearchQuery::of(SearchMode::Hybrid, filtered).yql_text();
    let both = vector_clause() + " or "@ + lexical_clause();
    assert(text.subrange(79, 79 + both.len() as int) == both);
    assert(occurs_at(text, both, 79));
    if filtered {
        let tail = lexical_clause() + ")"@ + " and repo_id = @repo_id"@;
        assert(text.subrange(142, 142 + tail.len() as int) == tail);
        assert(occurs_at(text, tail, 142));
    }
}

/// One character, escaped for a string literal of the query language: a
/// backslash before each backslash and each double quote.
pub open spec fn escaped_char(c: char) -> Seq<char> {
    if c == '\\' || c == '"' {
        seq!['\\', c]
    } else {
        seq![c]
    }
}

/// `s`, escaped for a string literal of the query language.
pub open spec fn yql_escaped(s: Seq<char>) -> Seq<char>
    decreases s.len(),
{
    if s.len() == 0 {
        Seq::empty()
    } else {
        yql_escaped(s.drop_last()) + escaped_char(s.last())
    }
}

fn push_escaped(out: &mut String, chars: &Vec<char>)
    ensures
        final(out)@ == old(out)@ + yql_escaped(chars@),
{
    let n: usize = chars.len();
    let mut i: usize = 0;
    assert(old(out)@ + yql_escaped(chars@.take(0)) == old(out)@);
    while i < n
        invariant
            i <= n == chars.len(),
            out@ == old(out)@ + yql_escaped(chars@.take(i as int)),
        decreases n - i,
    {
        let c: char = chars[i];
        let ghost before = out@;
        assert(chars@.take(i + 1).drop_last() == chars@.take(i as int));
        assert(chars@.take(i + 1).last() == c);
        if c == '\\' || c == '"' {
            push_char(out, '\\');
        }
        push_char(out, c);
        assert(out@ == before + escaped_char(c));
        assert(old(out)@ + (yql_escaped(chars@.take(i as int)) + escaped_char(c)) == (old(out)@
            + yql_escaped(chars@.take(i as int))) + escaped_char(c));
        i += 1;
    }
    assert(chars@.take(n as int) == chars@);
}

/// Escapes `value` for a string literal of the query language.
pub fn escape_yql_string(value: &str) -> (out: String)
    ensures
        out@ == yql_escaped(value@),
{
    let chars: Vec<char> = to_chars(value);
    let mut out = String::new();
    push_escaped(&mut out, &chars);
    assert(Seq::<char>::empty() + yql_escaped(chars@) == yql_escaped(chars@));
    out
}

/// Snippets hold at most this many characters of content.
pub const SNIPPET_CHARS: usize = 400;

/// The snippet of `content`: its trimmed text, cut after `SNIPPET_CHARS`
/// characters and followed by three dots where it was cut.
pub open spec fn snippet_text(content: Seq<char>) -> Seq<char> {
    let text = trimmed(content);
    if text.len() > SNIPPET_CHARS {
        text.take(SNIPPET_CHARS as int) + "..."@
    } else {
        text
    }
}

/// The snippet shown for a hit with the content `content`.
pub fn build_snippet(content: &str) -> (snippet: String)
    ensures
        snippet@ == snippet_text(content@),
{
    let chars: Vec<char> = to_chars(content);
    let (start, end): (usize, usize) = trim_bounds(&chars);
    let ghost text = chars@.subrange(start as int, end as int);
    if end - start > SNIPPET_CHARS {
        let mut snippet: String = from_chars(&chars, start, start + SNIPPET_CHARS);
        assert(text.take(SNIPPET_CHARS as int) == chars@.subrange(
            start as int,
            start + SNIPPET_CHARS,
        ));
        snippet.append("...");
        snippet
    } else {
        from_chars(&chars, start, end)
    }
}

/// How many hits a query asks for.
pub const SEARCH_HITS: u32 = 10;

/// One query against the remote index, ready to be sent but for the query
/// embedding, which a vector mode adds.
#[derive(Clone, Debug, PartialEq, Eq)]
pub struct SearchPlan {
    /// Which clauses the query holds.
    pub shape: SearchQuery,
    /// The query in the index's query language.
    pub yql: String,
    /// How many hits are asked for.
    pub hits: u32,
    /// The trimmed query text.
    pub query: String,
    /// The repository id as a quoted, escaped string literal, where a filter applies.
    pub repo_id: Option<String>,
    /// The ranking profile; where it is given, the embedding of `query` goes
    /// with the request as `query_embedding`.
    pub ranking_profile: Option<&'static str>,
}

/// The mode that the label of a request selects.
pub open spec fn resolved_mode(search_mode: Option<&str>) -> SearchMode {
    match search_mode {
        Some(label) => mode_of_label(lowercased(trimmed(label@))),
        None => SearchMode::Bm25,
    }
}

/// The repository id of a filter as a string literal of the query language.
pub open spec fn quoted_filter(value: Seq<char>) -> Seq<char> {
    "\""@ + yql_escaped(trimmed(value)) + "\""@
}

impl SearchPlan {
    /// The plan is the one for `query`, `repo_filter` and `mode`.
    pub open spec fn fits(&self, query: Seq<char>, repo_filter: Option<&str>, mode: SearchMode) -> bool {
        &&& self.shape == SearchQuery::of(mode, filter_applies(repo_filter))
        &&& self.yql@ == self.shape.yql_text()
        &&& self.hits == SEARCH_HITS
        &&& self.query@ == trimmed(query)
        &&& match repo_filter {
            Some(value) if !blank(value@) => self.repo_id matches Some(id) && id@ == quoted_filter(
                value@,
            ),
            _ => self.repo_id is None,
        }
        &&& match mode.profile_text() {
            Some(name) => self.ranking_profile matches Some(text) && text@ == name,
            None => self.ranking_profile is None,
        }
    }

    /// Whether the request needs the embedding of the query text.
    pub fn needs_embedding(&self) -> (r: bool)
        ensures
            r == self.ranking_profile is Some,
    {
        self.ranking_profile.is_some()
    }
}

/// The request for `query` in the mode `mode`: none for a blank query, which
/// has no results.
pub fn plan_search_in_mode(query: &str, repo_filter: Option<&str>, mode: SearchMode) -> (r: Option<
    SearchPlan,
>)
    ensures
        r is None <==> blank(query@),
        r matches Some(plan) ==> plan.fits(query@, repo_filter, mode),
{
    let chars: Vec<char> = trimmed_chars(query);
    if chars.len() == 0 {
        return None;
    }
    let text: String = from_chars(&chars, 0, chars.len());
    assert(chars@.subrange(0, chars.len() as int) == chars@);
    let shape: SearchQuery = SearchQuery::for_mode(mode, repo_filter);
    let repo_id: Option<String> = match repo_filter {
        Some(value) => {
            let id: Vec<char> = trimmed_chars(value);
            if id.len() == 0 {
                None
            } else {
                let mut quoted = String::new();
                quoted.append("\"");
                push_escaped(&mut quoted, &id);
                quoted.append("\"");
                Some(quoted)
            }
        },
        None => None,
    };
    Some(
        SearchPlan {
            shape,
            yql: shape.render(),
            hits: SEARCH_HITS,
            query: text,
            repo_id,
            ranking_profile: mode.profile_name(),
        },
    )
}

/// The request for `query` in the mode that the label `search_mode` selects.
pub fn plan_search(query: &str, repo_filter: Option<&str>, search_mode: Option<&str>) -> (r: Option<
    SearchPlan,
>)
    ensures
        r is None <==> blank(query@),
        r matches Some(plan) ==> plan.fits(query@, repo_filter, resolved_mode(search_mode)),
{
    let mode: SearchMode = resolve_search_mode(search_mode);
    plan_search_in_mode(query, repo_filter, mode)
}

/// The fields of one hit, as far as the index gave them.
#[derive(Clone, Debug, PartialEq, Eq)]
pub struct HitFields {
    pub repo_id: Option<String>,
    pub file_path: Option<String>,
    pub line_start: Option<i64>,
    pub line_end: Option<i64>,
    pub content: Option<String>,
}

/// One search result.
#[derive(Clone, Debug, PartialEq, Eq)]
pub struct SearchResult {
    pub repo_id: String,
    pub file_path: String,
    pub line_start: u64,
    pub line_end: u64,
    pub snippet: String,
}

/// The text of an optional field; empty where the field is missing.
pub open spec fn text_or_empty(field: Option<String>) -> Seq<char> {
    match field {
        Some(text) => text@,
        None => Seq::empty(),
    }
}

/// A line number of a hit: at least 1.
pub open spec fn line_number(value: i64) -> u64 {
    if value < 1 {
        1
    } else {
        value as u64
    }
}

impl HitFields {
    /// The first line of the hit: 1 where the index gave none.
    pub open spec fn first_line(&self) -> u64 {
        match self.line_start {
            Some(value) => line_number(value),
            None => 1,
        }
    }

    /// The last line of the hit: the first line where the index gave none.
    pub open spec fn final_line(&self) -> u64 {
        match self.line_end {
            Some(value) => line_number(value),
            None => self.first_line(),
        }
    }
}

fn text_of(field: &Option<String>) -> (r: String)
    ensures
        r@ == text_or_empty(*field),
{
    match field {
        Some(text) => text.clone(),
        None => String::new(),
    }
}

fn clamp_line(value: i64) -> (r: u64)
    ensures
        r == line_number(value),
{
    if value < 1 {
        1
    } else {
        value as u64
    }
}

/// The search result of one hit: missing texts are empty, line numbers are at
/// least 1, and the content is shown as a snippet.
pub fn result_from_hit(hit: &HitFields) -> (r: SearchResult)
    ensures
        r.repo_id@ == text_or_empty(hit.repo_id),
        r.file_path@ == text_or_empty(hit.file_path),
        r.line_start == hit.first_line(),
        r.line_end == hit.final_line(),
        r.snippet@ == snippet_text(text_or_empty(hit.content)),
{
    let line_start: u64 = match hit.line_start {
        Some(value) => clamp_line(value),
        None => 1,
    };
    let line_end: u64 = match hit.line_end {
        Some(value) => clamp_line(value),
        None => line_start,
    };
    let content: String = text_of(&hit.content);
    SearchResult {
        repo_id: text_of(&hit.repo_id),
        file_path: text_of(&hit.file_path),
        line_start,
        line_end,
        snippet: build_snippet(content.as_str()),
    }
}

} // verus!
