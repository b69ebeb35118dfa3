use repo_ingest::search::{
    build_search_yql, build_snippet, escape_yql_string, mode_from_label, plan_search,
    plan_search_in_mode, resolve_search_mode, result_from_hit, HitFields, SearchMode, SearchQuery,
    SEARCH_HITS,
};

const SELECT: &str =
    "select repo_id, file_path, line_start, line_end, content from sources * where ";
const VECTOR: &str = "{targetHits:100}nearestNeighbor(embedding, query_embedding)";
const LEXICAL: &str = "userInput(@query)";

#[test]
fn bm25_query_has_no_nearest_neighbor_clause() {
    let yql = build_search_yql(None, SearchMode::Bm25);
    assert_eq!(yql, format!("{SELECT}{LEXICAL};"));
    assert!(!yql.contains("nearestNeighbor"));
    assert!(yql.contains("userInput"));
}

#[test]
fn semantic_query_has_no_lexical_clause() {
    let yql = build_search_yql(None, SearchMode::Semantic);
    assert_eq!(yql, format!("{SELECT}{VECTOR};"));
    assert!(!yql.contains("userInput"));
    assert_eq!(yql.matches("nearestNeighbor").count(), 1);
}

#[test]
fn hybrid_query_joins_both_clauses_and_filters() {
    let yql = build_search_yql(Some("repo-1"), SearchMode::Hybrid);
    assert_eq!(
        yql,
        format!("{SELECT}({VECTOR} or {LEXICAL}) and repo_id = @repo_id;")
    );
}

#[test]
fn blank_filter_adds_no_clause() {
    assert_eq!(
        build_search_yql(Some("   "), SearchMode::Hybrid),
        format!("{SELECT}({VECTOR} or {LEXICAL});")
    );
    assert_eq!(
        build_search_yql(Some(""), SearchMode::Bm25),
        format!("{SELECT}{LEXICAL};")
    );
    assert_eq!(
        build_search_yql(Some("r"), SearchMode::Semantic),
        format!("{SELECT}{VECTOR} and repo_id = @repo_id;")
    );
}

#[test]
fn query_structure_per_mode() {
    assert_eq!(
        SearchQuery::for_mode(SearchMode::Bm25, None),
        SearchQuery { nearest_neighbor: false, lexical: true, repo_filter: false }
    );
    assert_eq!(
        SearchQuery::for_mode(SearchMode::Semantic, Some(" ")),
        SearchQuery { nearest_neighbor: true, lexical: false, repo_filter: false }
    );
    assert_eq!(
        SearchQuery::for_mode(SearchMode::Hybrid, Some("x")),
        SearchQuery { nearest_neighbor: true, lexical: true, repo_filter: true }
    );
}

#[test]
fn render_of_query_without_clauses() {
    let q = SearchQuery { nearest_neighbor: false, lexical: false, repo_filter: true };
    assert_eq!(q.render(), format!("{SELECT}() and repo_id = @repo_id;"));
}

#[test]
fn profile_names() {
    assert_eq!(SearchMode::Hybrid.profile_name(), Some("hybrid"));
    assert_eq!(SearchMode::Semantic.profile_name(), Some("semantic"));
    assert_eq!(SearchMode::Bm25.profile_name(), None);
}

#[test]
fn mode_resolution() {
    assert_eq!(resolve_search_mode(None), SearchMode::Bm25);
    assert_eq!(resolve_search_mode(Some("bm25")), SearchMode::Bm25);
    assert_eq!(resolve_search_mode(Some("semantic")), SearchMode::Semantic);
    assert_eq!(resolve_search_mode(Some("hybrid")), SearchMode::Hybrid);
    assert_eq!(resolve_search_mode(Some("anything")), SearchMode::Hybrid);
    assert_eq!(resolve_search_mode(Some("")), SearchMode::Hybrid);
}

#[test]
fn mode_resolution_trims_and_lowercases() {
    assert_eq!(resolve_search_mode(Some("  SEMANTIC \n")), SearchMode::Semantic);
    assert_eq!(resolve_search_mode(Some("Bm25")), SearchMode::Bm25);
    assert_eq!(resolve_search_mode(Some("BM25 ")), SearchMode::Bm25);
}

#[test]
fn mode_from_exact_label() {
    assert_eq!(mode_from_label("semantic"), SearchMode::Semantic);
    assert_eq!(mode_from_label("bm25"), SearchMode::Bm25);
    assert_eq!(mode_from_label("SEMANTIC"), SearchMode::Hybrid);
    assert_eq!(mode_from_label(" bm25"), SearchMode::Hybrid);
}

#[test]
fn escape_backslash_and_quote() {
    assert_eq!(escape_yql_string("plain"), "plain");
    assert_eq!(escape_yql_string("a\"b"), "a\\\"b");
    assert_eq!(escape_yql_string("a\\b"), "a\\\\b");
    assert_eq!(escape_yql_string("\\\""), "\\\\\\\"");
    assert_eq!(escape_yql_string(""), "");
    for s in ["x\\\"y\\", "\"\"", "\\\\", "no escapes", "é\"ü"] {
        assert_eq!(
            escape_yql_string(s),
            s.replace('\\', "\\\\").replace('"', "\\\"")
        );
    }
}

#[test]
fn snippet_of_short_content() {
    assert_eq!(build_snippet("  fn main() {}\n"), "fn main() {}");
    assert_eq!(build_snippet(""), "");
    assert_eq!(build_snippet("   "), "");
}

#[test]
fn snippet_is_cut_after_400_characters() {
    let exact = "x".repeat(400);
    assert_eq!(build_snippet(&exact), exact);
    let longer = format!("  {}y  ", exact);
    assert_eq!(build_snippet(&longer), format!("{exact}..."));
    let wide = "é".repeat(401);
    assert_eq!(build_snippet(&wide), format!("{}...", "é".repeat(400)));
}

#[test]
fn semantic_search_for_parse_expression() {
    let plan = plan_search("parse expression", None, Some("semantic")).unwrap();
    assert_eq!(
        plan.shape,
        SearchQuery { nearest_neighbor: true, lexical: false, repo_filter: false }
    );
    assert_eq!(plan.yql, format!("{SELECT}{VECTOR};"));
    assert_eq!(plan.yql.matches("nearestNeighbor").count(), 1);
    assert!(!plan.yql.contains("userInput"));
    assert_eq!(plan.query, "parse expression");
    assert_eq!(plan.hits, 10);
    assert_eq!(plan.repo_id, None);
    assert_eq!(plan.ranking_profile, Some("semantic"));
    assert!(plan.needs_embedding());
}

#[test]
fn blank_query_has_no_plan() {
    assert_eq!(plan_search("", None, None), None);
    assert_eq!(plan_search("  \n ", Some("r"), Some("hybrid")), None);
}

#[test]
fn lexical_plan_needs_no_embedding() {
    let plan = plan_search("  find me ", None, None).unwrap();
    assert_eq!(plan.query, "find me");
    assert_eq!(plan.ranking_profile, None);
    assert!(!plan.needs_embedding());
    assert_eq!(plan.yql, format!("{SELECT}{LEXICAL};"));
    assert_eq!(plan.hits, SEARCH_HITS);
}

#[test]
fn filtered_plan_quotes_the_repository_id() {
    let plan = plan_search_in_mode("q", Some("  my\"repo\\1 "), SearchMode::Hybrid).unwrap();
    assert_eq!(plan.repo_id, Some("\"my\\\"repo\\\\1\"".to_string()));
    assert_eq!(plan.ranking_profile, Some("hybrid"));
    assert!(plan.shape.repo_filter);
    assert!(plan.yql.ends_with(" and repo_id = @repo_id;"));
    let unfiltered = plan_search_in_mode("q", Some("  "), SearchMode::Hybrid).unwrap();
    assert_eq!(unfiltered.repo_id, None);
    assert!(!unfiltered.shape.repo_filter);
}

#[test]
fn hit_with_all_fields() {
    let hit = HitFields {
        repo_id: Some("r1".to_string()),
        file_path: Some("src/lib.rs".to_string()),
        line_start: Some(3),
        line_end: Some(9),
        content: Some("  body  ".to_string()),
    };
    let r = result_from_hit(&hit);
    assert_eq!(r.repo_id, "r1");
    assert_eq!(r.file_path, "src/lib.rs");
    assert_eq!(r.line_start, 3);
    assert_eq!(r.line_end, 9);
    assert_eq!(r.snippet, "body");
}

#[test]
fn hit_with_missing_fields() {
    let hit = HitFields {
        repo_id: None,
        file_path: None,
        line_start: None,
        line_end: None,
        content: None,
    };
    let r = result_from_hit(&hit);
    assert_eq!(r.repo_id, "");
    assert_eq!(r.file_path, "");
    assert_eq!(r.line_start, 1);
    assert_eq!(r.line_end, 1);
    assert_eq!(r.snippet, "");
}

#[test]
fn hit_line_numbers_are_at_least_one() {
    let hit = HitFields {
        repo_id: None,
        file_path: None,
        line_start: Some(-4),
        line_end: Some(0),
        content: None,
    };
    let r = result_from_hit(&hit);
    assert_eq!((r.line_start, r.line_end), (1, 1));
    let open_end = HitFields {
        repo_id: None,
        file_path: None,
        line_start: Some(12),
        line_end: None,
        content: None,
    };
    let r = result_from_hit(&open_end);
    assert_eq!((r.line_start, r.line_end), (12, 12));
}
