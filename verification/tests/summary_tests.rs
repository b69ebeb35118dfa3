use repo_ingest::error::AppError;
use repo_ingest::registry::RepoRecord;
use repo_ingest::summary::{
    build_repo_summary_input, language_histogram, missing_summary_notice, parse_hf_summary,
    placeholder_summary, readme_candidates, top_languages, truncate_for_summary,
    wants_shorter_input, wiki_fallback, SummaryEntry, SummaryItem, SummaryReply, SummaryStore,
    SummaryTier, FALLBACK_CHARS, LISTED_FILES, SUMMARY_INPUT_CAP, TOP_LANGUAGES,
};
use std::borrow::Cow;

fn record() -> RepoRecord {
    RepoRecord {
        id: "id-1".to_string(),
        repo_url: "https://github.com/acme/widgets".to_string(),
        owner: "acme".to_string(),
        name: "widgets".to_string(),
    }
}

fn paths(names: &[&str]) -> Vec<String> {
    names.iter().map(|n| n.to_string()).collect()
}

fn counts(entries: &[(&str, usize)]) -> Vec<(String, usize)> {
    entries.iter().map(|(l, c)| (l.to_string(), *c)).collect()
}

#[test]
fn next_version_of_empty_store_is_one() {
    let store = SummaryStore::new();
    assert_eq!(store.next_version(), 1);
    assert_eq!(store.latest(), None);
    assert_eq!(SummaryStore::default(), store);
    assert!(store.has_room());
}

#[test]
fn versions_count_up_with_each_summary() {
    let mut store = SummaryStore::new();
    for n in 1..=5u32 {
        assert_eq!(store.next_version(), n);
        store.record(format!("summary {n}"), 1000 + n as i64);
        assert_eq!(store.entries.len(), n as usize);
        let latest = store.latest().unwrap();
        assert_eq!(latest.version, n);
        assert_eq!(latest.summary, format!("summary {n}"));
        assert_eq!(latest.created_at, 1000 + n as i64);
    }
    let versions: Vec<u32> = store.entries.iter().map(|e| e.version).collect();
    assert_eq!(versions, vec![1, 2, 3, 4, 5]);
}

#[test]
fn next_version_follows_the_last_entry() {
    let store = SummaryStore {
        entries: vec![
            SummaryEntry { version: 7, created_at: 1, summary: "a".to_string() },
            SummaryEntry { version: 3, created_at: 2, summary: "b".to_string() },
        ],
    };
    assert_eq!(store.next_version(), 4);
    assert_eq!(store.latest().unwrap().summary, "b");
}

#[test]
fn full_store_has_no_room() {
    let store = SummaryStore {
        entries: vec![SummaryEntry { version: u32::MAX, created_at: 1, summary: String::new() }],
    };
    assert!(!store.has_room());
}

#[test]
fn history_is_newest_first() {
    let mut store = SummaryStore::new();
    store.record("first".to_string(), 1);
    store.record("second".to_string(), 2);
    store.record("third".to_string(), 3);
    let history = store.history();
    let versions: Vec<u32> = history.iter().map(|e| e.version).collect();
    assert_eq!(versions, vec![3, 2, 1]);
    assert_eq!(history[0].summary, "third");
    assert_eq!(SummaryStore::new().history(), vec![]);
}

#[test]
fn current_text_or_placeholder() {
    let mut store = SummaryStore::new();
    assert_eq!(store.current_text("none yet"), "none yet");
    store.record("real".to_string(), 1);
    assert_eq!(store.current_text("none yet"), "real");
    assert_eq!(missing_summary_notice(), "Summary not available.");
}

#[test]
fn summary_truncation() {
    assert!(matches!(truncate_for_summary("short", 10), Cow::Borrowed("short")));
    assert_eq!(truncate_for_summary("0123456789", 4), "0123");
    let long = "z".repeat(FALLBACK_CHARS + 10);
    assert_eq!(SummaryTier::Shortened.input(&long).chars().count(), 2000);
    assert_eq!(SummaryTier::Shortened.input("tiny"), "tiny");
    assert_eq!(SummaryTier::Full.input(&long), long.as_str());
}

#[test]
fn shortened_input_is_tried_once() {
    let refused = AppError::HuggingFace("summary request failed: 400 Bad Request".to_string());
    let other = AppError::HuggingFace("summary request failed: 503 Service Unavailable".to_string());
    assert_eq!(SummaryTier::Full.after_failure(&refused), Some(SummaryTier::Shortened));
    assert_eq!(SummaryTier::Full.after_failure(&other), None);
    assert_eq!(SummaryTier::Shortened.after_failure(&refused), None);
    assert_eq!(SummaryTier::Shortened.after_failure(&other), None);
}

#[test]
fn summary_of_list_reply() {
    let reply = SummaryReply::List(Some(SummaryItem { summary_text: Some("prose".to_string()) }));
    assert_eq!(parse_hf_summary(&reply), Ok("prose".to_string()));
}

#[test]
fn summary_of_object_reply() {
    let reply = SummaryReply::Object { error: None, summary_text: Some("prose".to_string()) };
    assert_eq!(parse_hf_summary(&reply), Ok("prose".to_string()));
}

#[test]
fn summary_reply_errors() {
    let hf = |m: &str| Err::<String, AppError>(AppError::HuggingFace(m.to_string()));
    assert_eq!(parse_hf_summary(&SummaryReply::List(None)), hf("empty summary response"));
    assert_eq!(
        parse_hf_summary(&SummaryReply::List(Some(SummaryItem { summary_text: None }))),
        hf("missing summary_text in response")
    );
    assert_eq!(
        parse_hf_summary(&SummaryReply::Object {
            error: Some("index out of range in self".to_string()),
            summary_text: Some("ignored".to_string()),
        }),
        hf("index out of range in self")
    );
    assert_eq!(
        parse_hf_summary(&SummaryReply::Object { error: None, summary_text: None }),
        hf("unexpected summary response")
    );
    assert_eq!(parse_hf_summary(&SummaryReply::Other), hf("unexpected summary response"));
}

#[test]
fn refused_input_asks_for_a_shorter_one() {
    assert!(wants_shorter_input(&AppError::HuggingFace(
        "summary request failed: 400 Bad Request {}".to_string()
    )));
    assert!(wants_shorter_input(&AppError::HuggingFace(
        "index out of range in self".to_string()
    )));
    assert!(!wants_shorter_input(&AppError::HuggingFace(
        "summary request failed: 503 Service Unavailable".to_string()
    )));
    assert!(!wants_shorter_input(&AppError::HuggingFace("bad request".to_string())));
    assert!(!wants_shorter_input(&AppError::Io("Bad Request".to_string())));
    assert!(!wants_shorter_input(&AppError::RepoNotFound));
}

#[test]
fn histogram_counts_in_order_of_first_occurrence() {
    let files = paths(&["a.py", "b.rs", "c.py", "Makefile", "d.rs", "e.py", "x.ts", "y.tsx"]);
    assert_eq!(
        language_histogram(&files),
        counts(&[("python", 3), ("rust", 2), ("unknown", 1), ("typescript", 2)])
    );
    assert_eq!(language_histogram(&Vec::new()), vec![]);
}

#[test]
fn top_languages_most_frequent_first() {
    let ranked = top_languages(
        counts(&[("go", 1), ("rust", 5), ("python", 5), ("json", 2), ("yaml", 9)]),
        3,
    );
    assert_eq!(ranked, counts(&[("yaml", 9), ("rust", 5), ("python", 5)]));
    assert_eq!(top_languages(counts(&[("go", 1)]), 8), counts(&[("go", 1)]));
    assert_eq!(top_languages(counts(&[("go", 1)]), 0), vec![]);
    assert_eq!(top_languages(vec![], 8), vec![]);
}

#[test]
fn top_languages_agree_with_a_stable_sort() {
    let input = counts(&[
        ("a", 3), ("b", 1), ("c", 3), ("d", 7), ("e", 1), ("f", 0), ("g", 7), ("h", 2), ("i", 3),
        ("j", 9), ("k", 1),
    ]);
    let mut sorted = input.clone();
    sorted.sort_by(|x, y| y.1.cmp(&x.1));
    sorted.truncate(TOP_LANGUAGES);
    assert_eq!(top_languages(input, TOP_LANGUAGES), sorted);
}

#[test]
fn summary_input_of_repository_without_files() {
    assert_eq!(
        build_repo_summary_input(&record(), &Vec::new(), None, 6000),
        "Repository: acme/widgets\n"
    );
}

#[test]
fn summary_input_with_files_and_readme() {
    let files = paths(&["src/main.rs", "src/lib.rs", "README.md"]);
    let input = build_repo_summary_input(&record(), &files, Some("# Widgets\u{7}\nHello"), 6000);
    assert_eq!(
        input,
        "Repository: acme/widgets\n\
         \nLanguages: rust (2), markdown (1)\n\
         \nFile tree (first 200 files):\n- src/main.rs\n- src/lib.rs\n- README.md\n\
         \nREADME excerpt:\n# Widgets\nHello\n"
    );
}

#[test]
fn summary_input_is_cut_at_the_limit() {
    let files = paths(&["a.rs"]);
    let readme = "r".repeat(10_000);
    let input = build_repo_summary_input(&record(), &files, Some(&readme), 100);
    assert_eq!(input.chars().count(), 100);
    assert!(input.starts_with("Repository: acme/widgets\n\nLanguages: rust (1)\n"));
    let capped = build_repo_summary_input(&record(), &files, Some(&readme), 1_000_000);
    assert!(capped.ends_with(&format!("\nREADME excerpt:\n{}\n", "r".repeat(3000))));
    assert!(capped.chars().count() < SUMMARY_INPUT_CAP);
    let halved = build_repo_summary_input(&record(), &files, Some(&readme), 1001);
    assert!(halved.ends_with(&format!("\nREADME excerpt:\n{}\n", "r".repeat(500))));
}

#[test]
fn summary_input_never_exceeds_the_cap() {
    let mut names: Vec<String> = Vec::new();
    for i in 0..120 {
        names.push(format!("{}/file{i}.rs", "d".repeat(60)));
    }
    let input = build_repo_summary_input(&record(), &names, Some("readme"), usize::MAX);
    assert_eq!(input.chars().count(), SUMMARY_INPUT_CAP);
    assert!(!input.contains("README excerpt"));
    assert_eq!(build_repo_summary_input(&record(), &names, None, 0), "");
}

#[test]
fn summary_input_lists_at_most_120_files_and_8_languages() {
    let mut names: Vec<String> = Vec::new();
    for i in 0..130 {
        names.push(format!("f{i}.rs"));
    }
    let input = build_repo_summary_input(&record(), &names, None, 6000);
    assert_eq!(LISTED_FILES, 120);
    assert_eq!(input.matches("\n- ").count(), 120);
    assert!(input.contains("Languages: rust (130)\n"));
    assert!(input.contains("- f119.rs\n"));
    assert!(!input.contains("- f120.rs"));
    let many = paths(&[
        "a.rs", "a.ts", "a.js", "a.py", "a.go", "a.java", "a.rb", "a.md", "a.json", "a.yml", "a",
    ]);
    let input = build_repo_summary_input(&record(), &many, None, 6000);
    assert!(input.contains(
        "Languages: rust (1), typescript (1), javascript (1), python (1), go (1), java (1), ruby (1), markdown (1)\n"
    ));
}

#[test]
fn placeholder_and_fallback_texts() {
    assert_eq!(
        placeholder_summary("acme", "widgets"),
        "# CodeWiki for acme/widgets\n\nThis is a placeholder wiki generated during ingestion.\n"
    );
    assert_eq!(wiki_fallback(Some("stored".to_string())), "stored");
    assert_eq!(wiki_fallback(None), "# CodeWiki\n\nWiki content is not yet available.");
}

#[test]
fn readme_is_looked_for_under_seven_names() {
    assert_eq!(
        readme_candidates(),
        vec!["README.md", "README.mdx", "README.txt", "README", "readme.md", "readme.txt", "readme"]
    );
}
