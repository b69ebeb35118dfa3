//! Configuration: the settings of the service with their defaults, and the
//! rules by which certificates and keys are found.

use crate::error::AppError;
use crate::inference::RetryPolicy;
use crate::text::{contains_text, from_chars, replace, replaced, str_contains, to_chars};
use vstd::prelude::*;
use vstd::string::StringExecFns;

verus! {

/// `value` with each backslash followed by `n` turned into a line feed, as
/// certificates arrive that were squeezed into one line.
pub fn normalize_pem(value: &str) -> (pem: String)
    ensures
        pem@ == replaced(value@, seq!['\\', 'n'], seq!['\n']),
{
    let chars: Vec<char> = to_chars(value);
    let mut pat: Vec<char> = Vec::new();
    pat.push('\\');
    pat.push('n');
    let mut with: Vec<char> = Vec::new();
    with.push('\n');
    assert(pat@ == seq!['\\', 'n']);
    assert(with@ == seq!['\n']);
    let out: Vec<char> = replace(&chars, &pat, &with);
    assert(out@.subrange(0, out.len() as int) == out@);
    from_chars(&out, 0, out.len())
}

/// Where a certificate or key comes from.
#[derive(Clone, Debug, PartialEq, Eq)]
pub enum PemSource {
    /// The text itself was given.
    Inline { pem: String, origin: String },
    /// The text is in the file at `path`.
    File { path: String, origin: String },
    /// Nothing was given and there is no default.
    Missing,
}

/// A value holds the text of a certificate or key, and not a path, where the
/// marker of its first line is in it.
pub open spec fn is_inline_pem(value: Seq<char>) -> bool {
    contains_text(value, "-----BEGIN"@)
}

impl PemSource {
    /// The name under which the source is logged: the variable that named
    /// it, `default path`, or `missing`.
    pub open spec fn origin_text(&self) -> Seq<char> {
        match self {
            PemSource::Inline { origin, .. } => origin@,
            PemSource::File { origin, .. } => origin@,
            PemSource::Missing => "missing"@,
        }
    }

    /// The source is the one that the values of the two variables and the
    /// default path give: the first variable wins, with its value as the text
    /// itself or as a path; then the second variable, as a path; then the
    /// default path.
    pub open spec fn chosen_from(
        &self,
        value_env: Seq<char>,
        value: Option<String>,
        path_env: Seq<char>,
        path: Option<String>,
        default_path: Option<String>,
    ) -> bool {
        match value {
            Some(text) => if is_inline_pem(text@) {
                self matches PemSource::Inline { pem, origin } && pem == text && origin@
                    == value_env
            } else {
                self matches PemSource::File { path: file, origin } && file == text && origin@
                    == value_env
            },
            None => match path {
                Some(given) => self matches PemSource::File { path: file, origin } && file
                    == given && origin@ == path_env,
                None => match default_path {
                    Some(fallback) => self matches PemSource::File { path: file, origin } && file
                        == fallback && origin@ == "default path"@,
                    None => self is Missing,
                },
            },
        }
    }

    /// The name under which the source is logged.
    pub fn origin(&self) -> (name: String)
        ensures
            name@ == self.origin_text(),
    {
        match self {
            PemSource::Inline { origin, .. } => origin.clone(),
            PemSource::File { origin, .. } => origin.clone(),
            PemSource::Missing => "missing".to_owned(),
        }
    }
}

/// Decides where a certificate or key comes from, given the values of the
/// variable `value_env`, of the variable `path_env`, and the default path.
pub fn pem_source(
    value_env: &str,
    value: Option<String>,
    path_env: &str,
    path: Option<String>,
    default_path: Option<String>,
) -> (source: PemSource)
    ensures
        source.chosen_from(value_env@, value, path_env@, path, default_path),
{
    match value {
        Some(text) => {
            if str_contains(text.as_str(), "-----BEGIN") {
                PemSource::Inline { pem: text, origin: value_env.to_owned() }
            } else {
                PemSource::File { path: text, origin: value_env.to_owned() }
            }
        },
        None => match path {
            Some(given) => PemSource::File { path: given, origin: path_env.to_owned() },
            None => match default_path {
                Some(fallback) => PemSource::File {
                    path: fallback,
                    origin: "default path".to_owned(),
                },
                None => PemSource::Missing,
            },
        },
    }
}

/// The error for a certificate or key whose file could not be read.
pub fn unreadable_pem(label: &str, path: &str, cause: &str) -> (e: AppError)
    ensures
        e matches AppError::Config(detail) && detail@ == "failed to read "@ + label@ + " at "@
            + path@ + ": "@ + cause@,
{
    let mut detail = String::new();
    detail.append("failed to read ");
    detail.append(label);
    detail.append(" at ");
    detail.append(path);
    detail.append(": ");
    detail.append(cause);
    AppError::Config(detail)
}

/// The certificate authority of the search index, which must be given.
pub fn required_ca(ca: Option<String>) -> (r: Result<String, AppError>)
    ensures
        match ca {
            Some(text) => r matches Ok(pem) && pem@ == replaced(
                text@,
                seq!['\\', 'n'],
                seq!['\n'],
            ),
            None => r matches Err(AppError::Config(detail)) && detail@
                == "missing Vespa CA cert"@,
        },
{
    match ca {
        Some(text) => Ok(normalize_pem(text.as_str())),
        None => Err(AppError::Config("missing Vespa CA cert".to_owned())),
    }
}

/// The client identity for mutual TLS: certificate and key together, or
/// neither. One without the other is a configuration error.
pub fn client_identity(cert: Option<String>, key: Option<String>) -> (r: Result<
    Option<(String, String)>,
    AppError,
>)
    ensures
        match (cert, key) {
            (None, None) => r matches Ok(None),
            (Some(c), Some(k)) => r matches Ok(Some(pair)) && pair.0@ == replaced(
                c@,
                seq!['\\', 'n'],
                seq!['\n'],
            ) && pair.1@ == replaced(k@, seq!['\\', 'n'], seq!['\n']),
            _ => r matches Err(AppError::Config(detail)) && detail@
                == "both VESPA_CLIENT_CERT and VESPA_CLIENT_KEY must be set for mTLS"@,
        },
{
    match (cert, key) {
        (None, None) => Ok(None),
        (Some(c), Some(k)) => Ok(Some((normalize_pem(c.as_str()), normalize_pem(k.as_str())))),
        _ => Err(
            AppError::Config(
                "both VESPA_CLIENT_CERT and VESPA_CLIENT_KEY must be set for mTLS".to_owned(),
            ),
        ),
    }
}

/// Every character of `s` is a decimal digit.
pub open spec fn all_digits(s: Seq<char>) -> bool {
    forall|i: int| 0 <= i < s.len() ==> '0' <= #[trigger] s[i] <= '9'
}

/// The number that the decimal digits `s` write.
pub open spec fn digits_value(s: Seq<char>) -> nat
    decreases s.len(),
{
    if s.len() == 0 {
        0
    } else {
        digits_value(s.drop_last()) * 10 + (s.last() as u32 - 48) as nat
    }
}

/// The number that `s` writes, where `s` is a number of at most `max`: an
/// optional plus sign and at least one decimal digit, nothing else.
pub open spec fn parsed_number(s: Seq<char>, max: u64) -> Option<u64> {
    let digits = if s.len() > 0 && s[0] == '+' {
        s.drop_first()
    } else {
        s
    };
    if digits.len() > 0 && all_digits(digits) && digits_value(digits) <= max {
        Some(digits_value(digits) as u64)
    } else {
        None
    }
}

proof fn lemma_digits_value_grows(s: Seq<char>, k: int)
    requires
        0 <= k <= s.len(),
        all_digits(s),
    ensures
        digits_value(s.take(k)) <= digits_value(s),
    decreases s.len() - k,
{
    if k < s.len() {
        lemma_digits_value_grows(s, k + 1);
        assert(s.take(k + 1).drop_last() == s.take(k));
        assert('0' <= s[k] <= '9');
        assert(s.take(k + 1).last() == s[k]);
    } else {
        assert(s.take(k) == s);
    }
}

/// Reads a number of at most `max`.
#[verifier::loop_isolation(false)]
pub fn parse_number(text: &str, max: u64) -> (r: Option<u64>)
    ensures
        r == parsed_number(text@, max),
{
    let chars: Vec<char> = to_chars(text);
    let n: usize = chars.len();
    let start: usize = if n > 0 && chars[0] == '+' {
        1
    } else {
        0
    };
    if start == n {
        return None;
    }
    let ghost digits = chars@.subrange(start as int, n as int);
    assert(digits == if chars@.len() > 0 && chars@[0] == '+' {
        chars@.drop_first()
    } else {
        chars@
    });
    let mut value: u64 = 0;
    let mut i: usize = start;
    assert(digits.take(0) == Seq::<char>::empty());
    while i < n
        invariant
            start <= i <= n == chars.len(),
            digits == chars@.subrange(start as int, n as int),
            all_digits(digits.take(i - start)),
            value == digits_value(digits.take(i - start)),
            value <= max,
        decreases n - i,
    {
        let c: char = chars[i];
        assert(digits[i - start] == c);
        assert(digits.take(i - start + 1).drop_last() == digits.take(i - start));
        assert(digits.take(i - start + 1).last() == c);
        if c < '0' || c > '9' {
            assert(!('0' <= digits[i - start] <= '9'));
            return None;
        }
        let d: u64 = (c as u32 - 48) as u64;
        if d > max || value > (max - d) / 10 {
            proof {
                if all_digits(digits) {
                    lemma_digits_value_grows(digits, i - start + 1);
                }
            }
            return None;
        }
        value = value * 10 + d;
        assert forall|k: int| 0 <= k < i - start + 1 implies '0' <= #[trigger] digits.take(
            i - start + 1,
        )[k] <= '9' by {
            if k < i - start {
                assert(digits.take(i - start)[k] == digits.take(i - start + 1)[k]);
            }
        }
        i += 1;
    }
    assert(digits.take(n - start) == digits);
    Some(value)
}

/// The values from which the settings are made, as the environment gave them.
#[derive(Clone, Debug, PartialEq, Eq)]
pub struct RawSettings {
    pub vespa_endpoint: Option<String>,
    pub vespa_document_endpoint: Option<String>,
    pub vespa_cluster: Option<String>,
    pub vespa_namespace: Option<String>,
    pub vespa_document_type: Option<String>,
    pub github_org: Option<String>,
    pub github_token: Option<String>,
    pub huggingface_token: Option<String>,
    pub hf_api_token: Option<String>,
    pub embedding_model: Option<String>,
    pub embedding_max_chars: Option<String>,
    pub embedding_base_url: Option<String>,
    pub embedding_max_retries: Option<String>,
    pub embedding_backoff_ms: Option<String>,
    pub embedding_backoff_max_ms: Option<String>,
    pub summary_model: Option<String>,
    pub summary_max_chars: Option<String>,
    pub port: Option<String>,
}

/// The settings of the service.
#[derive(Clone, Debug, PartialEq, Eq)]
pub struct Settings {
    pub github_org: Option<String>,
    pub github_token: Option<String>,
    pub huggingface_token: Option<String>,
    pub huggingface_model: String,
    pub huggingface_max_chars: usize,
    pub huggingface_base_url: String,
    pub retry: RetryPolicy,
    pub huggingface_summary_model: String,
    pub huggingface_summary_max_chars: usize,
    pub vespa_endpoint: String,
    pub vespa_document_endpoint: String,
    pub vespa_cluster: String,
    pub vespa_namespace: String,
    pub vespa_document_type: String,
    pub port: u16,
}

/// The text of `value`, or `fallback` where nothing was given.
pub open spec fn text_or(value: Option<String>, fallback: Seq<char>) -> Seq<char> {
    match value {
        Some(text) => text@,
        None => fallback,
    }
}

/// The number that `value` writes, or `fallback` where nothing was given or
/// what was given is no number of at most `max`.
pub open spec fn number_or(value: Option<String>, max: u64, fallback: u64) -> u64 {
    match value {
        Some(text) => match parsed_number(text@, max) {
            Some(n) => n,
            None => fallback,
        },
        None => fallback,
    }
}

fn text_or_default(value: Option<String>, fallback: &str) -> (r: String)
    ensures
        r@ == text_or(value, fallback@),
{
    match value {
        Some(text) => text,
        None => fallback.to_owned(),
    }
}

fn number_or_default(value: &Option<String>, max: u64, fallback: u64) -> (r: u64)
    requires
        fallback <= max,
    ensures
        r == number_or(*value, max, fallback),
        r <= max,
{
    match value {
        Some(text) => match parse_number(text.as_str(), max) {
            Some(n) => n,
            None => fallback,
        },
        None => fallback,
    }
}

impl Settings {
    /// The settings are those that `raw` gives, with the default for each
    /// value that is missing and for each number that cannot be read.
    pub open spec fn resolved_from(&self, raw: RawSettings) -> bool {
        &&& self.github_org == raw.github_org
        &&& self.github_token == raw.github_token
        &&& self.huggingface_token == if raw.huggingface_token is Some {
            raw.huggingface_token
        } else {
            raw.hf_api_token
        }
        &&& self.huggingface_model@ == text_or(
            raw.embedding_model,
            "sentence-transformers/all-mpnet-base-v2"@,
        )
        &&& self.huggingface_max_chars == number_or(
            raw.embedding_max_chars,
            usize::MAX as u64,
            4000,
        )
        &&& self.huggingface_base_url@ == text_or(
            raw.embedding_base_url,
            "https://router.huggingface.co/hf-inference/models"@,
        )
        &&& self.retry.max_retries == number_or(raw.embedding_max_retries, usize::MAX as u64, 3)
        &&& self.retry.base_delay_ms == number_or(raw.embedding_backoff_ms, u64::MAX, 500)
        &&& self.retry.max_delay_ms == number_or(raw.embedding_backoff_max_ms, u64::MAX, 8000)
        &&& self.huggingface_summary_model@ == text_or(
            raw.summary_model,
            "sshleifer/distilbart-cnn-12-6"@,
        )
        &&& self.huggingface_summary_max_chars == number_or(
            raw.summary_max_chars,
            usize::MAX as u64,
            6000,
        )
        &&& self.vespa_endpoint@ == text_or(raw.vespa_endpoint, ""@)
        &&& self.vespa_document_endpoint@ == text_or(
            raw.vespa_document_endpoint,
            self.vespa_endpoint@,
        )
        &&& self.vespa_cluster@ == text_or(raw.vespa_cluster, "codesearch"@)
        &&& self.vespa_namespace@ == text_or(raw.vespa_namespace, "codesearch"@)
        &&& self.vespa_document_type@ == text_or(raw.vespa_document_type, "codesearch"@)
        &&& self.port == number_or(raw.port, 65535, 3001)
    }

    /// Makes the settings from the values that the environment gave.
    pub fn resolve(raw: RawSettings) -> (settings: Settings)
        ensures
            settings.resolved_from(raw),
    {
        let max_chars: u64 = number_or_default(&raw.embedding_max_chars, usize::MAX as u64, 4000);
        let max_retries: u64 = number_or_default(&raw.embedding_max_retries, usize::MAX as u64, 3);
        let base_delay_ms: u64 = number_or_default(&raw.embedding_backoff_ms, u64::MAX, 500);
        let max_delay_ms: u64 = number_or_default(&raw.embedding_backoff_max_ms, u64::MAX, 8000);
        let summary_max_chars: u64 = number_or_default(
            &raw.summary_max_chars,
            usize::MAX as u64,
            6000,
        );
        let port: u64 = number_or_default(&raw.port, 65535, 3001);
        let vespa_endpoint: String = text_or_default(raw.vespa_endpoint, "");
        let vespa_document_endpoint: String = match raw.vespa_document_endpoint {
            Some(text) => text,
            None => vespa_endpoint.clone(),
        };
        let huggingface_token: Option<String> = match raw.huggingface_token {
            Some(token) => Some(token),
            None => raw.hf_api_token,
        };
        Settings {
            github_org: raw.github_org,
            github_token: raw.github_token,
            huggingface_token,
            huggingface_model: text_or_default(
                raw.embedding_model,
                "sentence-transformers/all-mpnet-base-v2",
            ),
            huggingface_max_chars: max_chars as usize,
            huggingface_base_url: text_or_default(
                raw.embedding_base_url,
                "https://router.huggingface.co/hf-inference/models",
            ),
            retry: RetryPolicy { max_retries: max_retries as usize, base_delay_ms, max_delay_ms },
            huggingface_summary_model: text_or_default(
                raw.summary_model,
                "sshleifer/distilbart-cnn-12-6",
            ),
            huggingface_summary_max_chars: summary_max_chars as usize,
            vespa_endpoint,
            vespa_document_endpoint,
            vespa_cluster: text_or_default(raw.vespa_cluster, "codesearch"),
            vespa_namespace: text_or_default(raw.vespa_namespace, "codesearch"),
            vespa_document_type: text_or_default(raw.vespa_document_type, "codesearch"),
            port: port as u16,
        }
    }
}

} // verus!
