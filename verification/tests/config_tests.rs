use repo_ingest::config::{
    client_identity, normalize_pem, parse_number, pem_source, required_ca, unreadable_pem,
    PemSource, RawSettings, Settings,
};
use repo_ingest::error::AppError;
use repo_ingest::inference::RetryPolicy;

fn no_values() -> RawSettings {
    RawSettings {
        vespa_endpoint: None,
        vespa_document_endpoint: None,
        vespa_cluster: None,
        vespa_namespace: None,
        vespa_document_type: None,
        github_org: None,
        github_token: None,
        huggingface_token: None,
        hf_api_token: None,
        embedding_model: None,
        embedding_max_chars: None,
        embedding_base_url: None,
        embedding_max_retries: None,
        embedding_backoff_ms: None,
        embedding_backoff_max_ms: None,
        summary_model: None,
        summary_max_chars: None,
        port: None,
    }
}

fn some(s: &str) -> Option<String> {
    Some(s.to_string())
}

#[test]
fn pem_line_breaks_are_restored() {
    assert_eq!(
        normalize_pem("-----BEGIN CERT-----\\nabc\\n-----END CERT-----"),
        "-----BEGIN CERT-----\nabc\n-----END CERT-----"
    );
    assert_eq!(normalize_pem("already\nbroken"), "already\nbroken");
    assert_eq!(normalize_pem("\\\\n"), "\\\n");
    assert_eq!(normalize_pem("\\"), "\\");
    assert_eq!(normalize_pem(""), "");
}

#[test]
fn pem_given_inline() {
    assert_eq!(
        pem_source("CERT", some("-----BEGIN X-----"), "CERT_PATH", some("/p"), some("/d")),
        PemSource::Inline { pem: "-----BEGIN X-----".to_string(), origin: "CERT".to_string() }
    );
}

#[test]
fn pem_value_that_is_a_path() {
    let source = pem_source("CERT", some("/etc/cert.pem"), "CERT_PATH", some("/p"), some("/d"));
    assert_eq!(
        source,
        PemSource::File { path: "/etc/cert.pem".to_string(), origin: "CERT".to_string() }
    );
    assert_eq!(source.origin(), "CERT");
}

#[test]
fn pem_path_variable_and_default() {
    assert_eq!(
        pem_source("CERT", None, "CERT_PATH", some("/p"), some("/d")),
        PemSource::File { path: "/p".to_string(), origin: "CERT_PATH".to_string() }
    );
    assert_eq!(
        pem_source("CERT", None, "CERT_PATH", None, some("/d")),
        PemSource::File { path: "/d".to_string(), origin: "default path".to_string() }
    );
    let missing = pem_source("CERT", None, "CERT_PATH", None, None);
    assert_eq!(missing, PemSource::Missing);
    assert_eq!(missing.origin(), "missing");
}

#[test]
fn unreadable_pem_is_a_configuration_error() {
    assert_eq!(
        unreadable_pem("Vespa CA cert", "/etc/ca.pem", "No such file"),
        AppError::Config("failed to read Vespa CA cert at /etc/ca.pem: No such file".to_string())
    );
}

#[test]
fn certificate_authority_is_required() {
    assert_eq!(required_ca(some("a\\nb")), Ok("a\nb".to_string()));
    assert_eq!(
        required_ca(None),
        Err(AppError::Config("missing Vespa CA cert".to_string()))
    );
}

#[test]
fn client_identity_needs_both_or_neither() {
    assert_eq!(client_identity(None, None), Ok(None));
    assert_eq!(
        client_identity(some("c\\n"), some("k\\n")),
        Ok(Some(("c\n".to_string(), "k\n".to_string())))
    );
    let error = Err(AppError::Config(
        "both VESPA_CLIENT_CERT and VESPA_CLIENT_KEY must be set for mTLS".to_string(),
    ));
    assert_eq!(client_identity(some("c"), None), error);
    assert_eq!(client_identity(None, some("k")), error);
}

#[test]
fn numbers_are_parsed_like_std() {
    for text in [
        "0", "7", "007", "+5", "4000", "65535", "65536", "18446744073709551615",
        "18446744073709551616", "99999999999999999999999", "", "+", "-1", " 1", "1 ", "1_000",
        "0x10", "１２", "+-1", "++1", "12a",
    ] {
        assert_eq!(parse_number(text, u64::MAX), text.parse::<u64>().ok(), "{text:?}");
        assert_eq!(
            parse_number(text, 65535),
            text.parse::<u16>().ok().map(|n| n as u64),
            "{text:?}"
        );
    }
    assert_eq!(parse_number("10", 9), None);
    assert_eq!(parse_number("9", 9), Some(9));
    assert_eq!(parse_number("0", 0), Some(0));
}

#[test]
fn settings_defaults() {
    let settings = Settings::resolve(no_values());
    assert_eq!(
        settings,
        Settings {
            github_org: None,
            github_token: None,
            huggingface_token: None,
            huggingface_model: "sentence-transformers/all-mpnet-base-v2".to_string(),
            huggingface_max_chars: 4000,
            huggingface_base_url: "https://router.huggingface.co/hf-inference/models".to_string(),
            retry: RetryPolicy { max_retries: 3, base_delay_ms: 500, max_delay_ms: 8000 },
            huggingface_summary_model: "sshleifer/distilbart-cnn-12-6".to_string(),
            huggingface_summary_max_chars: 6000,
            vespa_endpoint: String::new(),
            vespa_document_endpoint: String::new(),
            vespa_cluster: "codesearch".to_string(),
            vespa_namespace: "codesearch".to_string(),
            vespa_document_type: "codesearch".to_string(),
            port: 3001,
        }
    );
}

#[test]
fn settings_from_given_values() {
    let mut raw = no_values();
    raw.vespa_endpoint = some("http://vespa");
    raw.vespa_cluster = some("c");
    raw.vespa_namespace = some("n");
    raw.vespa_document_type = some("d");
    raw.github_org = some("acme");
    raw.github_token = some("SECRET-REDACTED");
    raw.hf_api_token = some("second");
    raw.embedding_model = some("m");
    raw.embedding_max_chars = some("123");
    raw.embedding_base_url = some("http://hf");
    raw.embedding_max_retries = some("0");
    raw.embedding_backoff_ms = some("10");
    raw.embedding_backoff_max_ms = some("20");
    raw.summary_model = some("s");
    raw.summary_max_chars = some("77");
    raw.port = some("8080");
    let settings = Settings::resolve(raw);
    assert_eq!(settings.vespa_endpoint, "http://vespa");
    assert_eq!(settings.vespa_document_endpoint, "http://vespa");
    assert_eq!(settings.vespa_cluster, "c");
    assert_eq!(settings.vespa_namespace, "n");
    assert_eq!(settings.vespa_document_type, "d");
    assert_eq!(settings.github_org, some("acme"));
    assert_eq!(settings.github_token, some("SECRET-REDACTED"));
    assert_eq!(settings.huggingface_token, some("second"));
    assert_eq!(settings.huggingface_model, "m");
    assert_eq!(settings.huggingface_max_chars, 123);
    assert_eq!(settings.huggingface_base_url, "http://hf");
    assert_eq!(
        settings.retry,
        RetryPolicy { max_retries: 0, base_delay_ms: 10, max_delay_ms: 20 }
    );
    assert_eq!(settings.huggingface_summary_model, "s");
    assert_eq!(settings.huggingface_summary_max_chars, 77);
    assert_eq!(settings.port, 8080);
}

#[test]
fn settings_fall_back_on_unreadable_numbers() {
    let mut raw = no_values();
    raw.embedding_max_chars = some("many");
    raw.embedding_max_retries = some("-1");
    raw.embedding_backoff_ms = some("");
    raw.port = some("70000");
    raw.huggingface_token = some("first");
    raw.hf_api_token = some("second");
    raw.vespa_endpoint = some("http://a");
    raw.vespa_document_endpoint = some("http://b");
    let settings = Settings::resolve(raw);
    assert_eq!(settings.huggingface_max_chars, 4000);
    assert_eq!(settings.retry.max_retries, 3);
    assert_eq!(settings.retry.base_delay_ms, 500);
    assert_eq!(settings.port, 3001);
    assert_eq!(settings.huggingface_token, some("first"));
    assert_eq!(settings.vespa_document_endpoint, "http://b");
}
