use repo_ingest::classify::{
    guess_language, is_blank, is_indexable, language_for_extension, line_count, lines,
    sanitize_vespa_content, should_skip_dir, tracked_files, walk_decision, WalkDecision,
    MAX_CONTENT_BYTES,
};

#[test]
fn empty_file_is_not_indexable() {
    assert!(!is_indexable(b""));
}

#[test]
fn file_with_nul_byte_is_not_indexable() {
    assert!(!is_indexable(b"abc\0def"));
    assert!(!is_indexable(b"\0"));
    assert!(!is_indexable(b"abc\0"));
}

#[test]
fn file_above_the_cap_is_not_indexable() {
    let at_cap = vec![b'a'; MAX_CONTENT_BYTES];
    let above = vec![b'a'; MAX_CONTENT_BYTES + 1];
    assert_eq!(MAX_CONTENT_BYTES, 200_000);
    assert!(is_indexable(&at_cap));
    assert!(!is_indexable(&above));
}

#[test]
fn ordinary_file_is_indexable() {
    assert!(is_indexable(b"fn main() {}\n"));
    assert!(is_indexable(&[0xff, 0xfe]));
}

#[test]
fn sanitize_strips_control_characters() {
    assert_eq!(sanitize_vespa_content("a\u{1}b\u{7f}c\u{9f}d"), "abcd");
    assert_eq!(sanitize_vespa_content("line\r\n\tnext"), "line\r\n\tnext");
    assert_eq!(sanitize_vespa_content(""), "");
    assert_eq!(sanitize_vespa_content("\u{0}\u{1b}[0m"), "[0m");
    assert_eq!(sanitize_vespa_content("naïve — ok"), "naïve — ok");
}

#[test]
fn blank_content_is_recognized() {
    assert!(is_blank(""));
    assert!(is_blank(" \n\t\r "));
    assert!(!is_blank(" x "));
}

#[test]
fn lines_agree_with_std() {
    let samples = [
        "",
        "one",
        "one\n",
        "one\ntwo",
        "one\r\ntwo\r\n",
        "foo\nbar\n\r\nbaz\r",
        "\n",
        "\n\n",
        "\r",
        "a\r\r\nb",
        "tail\n\n",
    ];
    for s in samples {
        let expected: Vec<String> = s.lines().map(|l| l.to_string()).collect();
        assert_eq!(lines(s), expected, "{s:?}");
    }
}

#[test]
fn line_count_is_at_least_one() {
    assert_eq!(line_count(""), 1);
    assert_eq!(line_count("one"), 1);
    assert_eq!(line_count("one\n"), 1);
    assert_eq!(line_count("one\ntwo"), 2);
    assert_eq!(line_count("a\nb\nc\n"), 3);
    assert_eq!(line_count("\n\n"), 2);
}

#[test]
fn skipped_directories() {
    for name in [
        ".git", "vv", ".vv", "node_modules", "target", "dist", "build", ".next", ".venv", "venv",
        "__pycache__",
    ] {
        assert!(should_skip_dir(name), "{name}");
    }
    for name in ["src", "", "Target", ".gitignore", "vvv", "builds", " target"] {
        assert!(!should_skip_dir(name), "{name}");
    }
}

#[test]
fn language_by_extension() {
    let cases = [
        ("src/main.rs", "rust"),
        ("a/b/app.ts", "typescript"),
        ("view.tsx", "typescript"),
        ("index.js", "javascript"),
        ("index.jsx", "javascript"),
        ("tool.py", "python"),
        ("cmd/main.go", "go"),
        ("Main.java", "java"),
        ("Rakefile.rb", "ruby"),
        ("README.md", "markdown"),
        ("package.json", "json"),
        ("ci.yml", "yaml"),
        ("ci.yaml", "yaml"),
        ("Makefile", "unknown"),
        (".gitignore", "unknown"),
        ("archive.tar.gz", "unknown"),
        ("dir.rs/file", "unknown"),
        ("file.", "unknown"),
        ("", "unknown"),
        ("a/.rs", "unknown"),
        ("a/b.c.rs", "rust"),
        ("MAIN.RS", "unknown"),
    ];
    for (path, label) in cases {
        assert_eq!(guess_language(path), label, "{path:?}");
    }
}

#[test]
fn language_by_extension_agrees_with_std_path() {
    for path in ["src/lib.rs", "x.py", ".hidden", "a.b/c", "noext", "dir/.env.json", "..", "a/.."] {
        let ext = std::path::Path::new(path)
            .extension()
            .and_then(|e| e.to_str())
            .unwrap_or("");
        let chars: Vec<char> = ext.chars().collect();
        assert_eq!(guess_language(path), language_for_extension(&chars), "{path:?}");
    }
}

#[test]
fn tracked_files_leave_out_state_directory() {
    let listing = "src/main.rs\n.vv/state.json\n.vv\nREADME.md\r\n.vvx\nvv/x\n";
    assert_eq!(
        tracked_files(listing),
        vec!["src/main.rs", "README.md", ".vvx", "vv/x"]
    );
    assert_eq!(tracked_files(""), Vec::<String>::new());
}

#[test]
fn walk_decisions() {
    assert_eq!(walk_decision(true, false, "src"), WalkDecision::Descend);
    assert_eq!(walk_decision(true, false, "node_modules"), WalkDecision::Skip);
    assert_eq!(walk_decision(true, true, ".git"), WalkDecision::Skip);
    assert_eq!(walk_decision(false, true, "target"), WalkDecision::Collect);
    assert_eq!(walk_decision(false, false, "socket"), WalkDecision::Ignore);
}
