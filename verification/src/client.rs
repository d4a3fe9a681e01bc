//! Connection configuration for the HTTP client: base URL (normalized),
//! bearer token, optional dataset id, timeout, and the request-URL builder.

use vstd::prelude::*;
use std::time::Duration;
use crate::error::ResoError;
use crate::text::trim_end_char;
use crate::text::trimmed_end;

verus! {

/// The whitespace characters stripped around a count response body.
pub open spec fn is_ascii_space(c: char) -> bool {
    c == ' ' || c == '\t' || c == '\n' || c == '\r'
}

/// `s` with its leading whitespace removed.
pub open spec fn ws_trimmed_start(s: Seq<char>) -> Seq<char>
    decreases s.len(),
{
    if s.len() > 0 && is_ascii_space(s[0]) {
        ws_trimmed_start(s.drop_first())
    } else {
        s
    }
}

/// `s` with its trailing whitespace removed.
pub open spec fn ws_trimmed_end(s: Seq<char>) -> Seq<char>
    decreases s.len(),
{
    if s.len() > 0 && is_ascii_space(s.last()) {
        ws_trimmed_end(s.drop_last())
    } else {
        s
    }
}

/// `s` with whitespace removed from both ends.
pub open spec fn ws_trimmed(s: Seq<char>) -> Seq<char> {
    ws_trimmed_end(ws_trimmed_start(s))
}

/// Whether `c` is a decimal digit.
pub open spec fn is_dec_digit(c: char) -> bool {
    48 <= c as int <= 57
}

/// Whether every character of `s` is a decimal digit.
pub open spec fn all_dec_digits(s: Seq<char>) -> bool {
    forall|i: int| 0 <= i < s.len() ==> is_dec_digit(#[trigger] s[i])
}

/// The value of a decimal digit string (most significant digit first).
pub open spec fn dec_value(s: Seq<char>) -> int
    decreases s.len(),
{
    if s.len() == 0 {
        0
    } else {
        dec_value(s.drop_last()) * 10 + (s.last() as int - 48)
    }
}

/// The digit part of a count response body: the body with surrounding
/// whitespace stripped and one optional leading plus sign removed.
pub open spec fn spec_count_digits(s: Seq<char>) -> Seq<char> {
    let t = ws_trimmed(s);
    if t.len() > 0 && t[0] == '+' {
        t.drop_first()
    } else {
        t
    }
}

/// What a count response body parses to: the value of its digit part, when
/// that part is a nonempty digit string whose value fits in a `u64`.
pub open spec fn spec_parse_count(s: Seq<char>) -> Option<u64> {
    let digits = spec_count_digits(s);
    if digits.len() > 0 && all_dec_digits(digits) && dec_value(digits) <= u64::MAX {
        Some(dec_value(digits) as u64)
    } else {
        None
    }
}

proof fn lemma_dec_value_nonneg(s: Seq<char>)
    requires
        all_dec_digits(s),
    ensures
        dec_value(s) >= 0,
    decreases s.len(),
{
    if s.len() > 0 {
        assert(all_dec_digits(s.drop_last()));
        lemma_dec_value_nonneg(s.drop_last());
    }
}

/// A digit string is worth at least as much as any of its prefixes.
proof fn lemma_dec_value_prefix(s: Seq<char>, k: int)
    requires
        0 <= k <= s.len(),
        all_dec_digits(s),
    ensures
        dec_value(s.take(k)) <= dec_value(s),
    decreases s.len() - k,
{
    if k == s.len() {
        assert(s.take(k) =~= s);
    } else {
        assert(all_dec_digits(s.take(k)));
        lemma_dec_value_nonneg(s.take(k));
        assert(s.take(k + 1).drop_last() =~= s.take(k));
        assert(dec_value(s.take(k + 1)) == dec_value(s.take(k)) * 10 + (s[k] as int - 48));
        lemma_dec_value_prefix(s, k + 1);
    }
}

/// Whether `c` is an ASCII whitespace character.
fn is_space_char(c: char) -> (b: bool)
    ensures
        b == is_ascii_space(c),
{
    c == ' ' || c == '\t' || c == '\n' || c == '\r'
}

/// The parse failure for a count response body.
fn count_parse_error(text: &str) -> (e: ResoError)
    ensures
        e matches ResoError::Parse(m) && m@ == "Failed to parse count '"@ + text@ + "'"@,
{
    let mut m = "Failed to parse count '".to_owned();
    m.append(text);
    m.append("'");
    ResoError::Parse(m)
}

/// Parses the plain-text body of a count response as an unsigned decimal
/// number, ignoring surrounding whitespace and one optional leading plus
/// sign; anything else, including a value too large for `u64`, is a parse
/// error naming the body.
pub fn parse_count(text: &str) -> (r: std::result::Result<u64, ResoError>)
    ensures
        match r {
            Ok(n) => spec_parse_count(text@) == Some(n),
            Err(e) => spec_parse_count(text@) is None && (e matches ResoError::Parse(m) && m@
                == "Failed to parse count '"@ + text@ + "'"@),
        },
{
    let n = text.unicode_len();
    let mut start: usize = 0;
    proof {
        assert(text@.skip(0) =~= text@);
    }
    while start < n && is_space_char(text.get_char(start))
        invariant
            start <= n,
            n == text@.len(),
            ws_trimmed_start(text@) == ws_trimmed_start(text@.skip(start as int)),
        decreases n - start,
    {
        proof {
            assert(text@.skip(start as int)[0] == text@[start as int]);
            assert(text@.skip(start as int).drop_first() =~= text@.skip(start + 1));
        }
        start = start + 1;
    }
    proof {
        assert(ws_trimmed_start(text@) == text@.skip(start as int));
        assert(text@.skip(start as int) =~= text@.subrange(start as int, n as int));
    }

    let mut end: usize = n;
    while end > start && is_space_char(text.get_char(end - 1))
        invariant
            start <= end <= n,
            n == text@.len(),
            ws_trimmed(text@) == ws_trimmed_end(text@.subrange(start as int, end as int)),
        decreases end,
    {
        proof {
            let sub = text@.subrange(start as int, end as int);
            assert(sub.last() == text@[end - 1]);
            assert(sub.drop_last() =~= text@.subrange(start as int, end as int - 1));
        }
        end = end - 1;
    }
    let ghost t = text@.subrange(start as int, end as int);
    proof {
        assert(ws_trimmed(text@) == t);
    }

    let mut i: usize = start;
    if i < end && text.get_char(i) == '+' {
        i = i + 1;
    }
    let ghost digits = spec_count_digits(text@);
    proof {
        if t.len() > 0 && t[0] == '+' {
            assert(t.drop_first() =~= text@.subrange(start as int + 1, end as int));
        }
        assert(digits == text@.subrange(i as int, end as int));
    }

    if i == end {
        return Err(count_parse_error(text));
    }

    let mut acc: u64 = 0;
    let mut j: usize = i;
    while j < end
        invariant
            i <= j <= end,
            end <= text@.len(),
            digits == spec_count_digits(text@),
            digits == text@.subrange(i as int, end as int),
            digits.len() > 0,
            all_dec_digits(text@.subrange(i as int, j as int)),
            acc as int == dec_value(text@.subrange(i as int, j as int)),
        decreases end - j,
    {
        let c = text.get_char(j);
        let cv = c as u32;
        if cv < 48 || cv > 57 {
            proof {
                assert(digits[j - i] == text@[j as int]);
                assert(!is_dec_digit(digits[j - i]));
            }
            return Err(count_parse_error(text));
        }
        let d: u64 = (cv - 48) as u64;
        if acc > (u64::MAX - d) / 10 {
            proof {
                let m = u64::MAX as int;
                let q = (m - d) / 10;
                vstd::arithmetic::div_mod::lemma_fundamental_div_mod(m - d, 10);
                vstd::arithmetic::div_mod::lemma_mod_bound(m - d, 10);
                assert(acc * 10 + d > m) by (nonlinear_arith)
                    requires
                        acc >= q + 1,
                        10 * q + (m - d) % 10 == m - d,
                        (m - d) % 10 < 10,
                        0 <= d <= 9,
                ;
                let prefix = text@.subrange(i as int, j as int + 1);
                assert(prefix.drop_last() =~= text@.subrange(i as int, j as int));
                assert(prefix.last() == text@[j as int]);
                assert(dec_value(prefix) == acc * 10 + d);
                if all_dec_digits(digits) {
                    assert(prefix =~= digits.take(j - i + 1));
                    lemma_dec_value_prefix(digits, j - i + 1);
                    assert(dec_value(digits) > m);
                }
            }
            return Err(count_parse_error(text));
        }
        proof {
            let m = u64::MAX as int;
            let q = (m - d) / 10;
            vstd::arithmetic::div_mod::lemma_fundamental_div_mod(m - d, 10);
            vstd::arithmetic::div_mod::lemma_mod_bound(m - d, 10);
            assert(acc * 10 + d <= m) by (nonlinear_arith)
                requires
                    0 <= acc <= q,
                    10 * q + (m - d) % 10 == m - d,
                    (m - d) % 10 >= 0,
                    0 <= d <= 9,
            ;
            let prefix = text@.subrange(i as int, j as int + 1);
            assert(prefix.drop_last() =~= text@.subrange(i as int, j as int));
            assert(prefix.last() == text@[j as int]);
        }
        acc = acc * 10 + d;
        j = j + 1;
    }
    proof {
        assert(text@.subrange(i as int, j as int) =~= digits);
        assert(spec_parse_count(text@) == Some(acc));
    }
    Ok(acc)
}

/// Relies on `core::time::Duration::from_secs`; nothing is assumed of the
/// opaque duration value.
pub assume_specification[ Duration::from_secs ](secs: u64) -> Duration;

/// Relies on `Clone` for `core::time::Duration`, a `Copy` type: the clone is
/// the same value.
pub assume_specification[ <Duration as Clone>::clone ](d: &Duration) -> (r: Duration)
    ensures
        r == *d,
;

/// The full request URL for a path: the base URL, then the dataset id when
/// one is configured, then the path, separated by single slashes.
pub open spec fn spec_request_url(
    base_url: Seq<char>,
    dataset_id: Option<Seq<char>>,
    path: Seq<char>,
) -> Seq<char> {
    match dataset_id {
        Some(d) => base_url + "/"@ + d + "/"@ + path,
        None => base_url + "/"@ + path,
    }
}

/// The redacting description of a configuration: every field in clear text
/// except the token, which never appears.
pub open spec fn spec_config_description(
    base_url: Seq<char>,
    dataset_id: Option<Seq<char>>,
) -> Seq<char> {
    "ClientConfig { base_url: "@ + base_url + ", token: <redacted>, dataset_id: "@ + (
    match dataset_id {
        Some(d) => "Some("@ + d + ")"@,
        None => "None"@,
    }) + " }"@
}

/// Configuration for a RESO Web API connection: where to connect, how to
/// authenticate, and how long to wait.
#[derive(Clone)]
pub struct ClientConfig {
    /// Base URL of the RESO Web API server, stored without trailing slashes.
    pub base_url: String,
    /// OAuth bearer token.
    pub token: String,
    /// Optional dataset id, inserted between the base URL and the resource.
    pub dataset_id: Option<String>,
    /// HTTP timeout duration.
    pub timeout: Duration,
}

impl ClientConfig {
    /// Creates a configuration from a base URL and token; trailing slashes
    /// are stripped from the base URL and the timeout defaults to thirty
    /// seconds.
    pub fn new(base_url: &str, token: &str) -> (r: ClientConfig)
        ensures
            r.base_url@ == trimmed_end(base_url@, '/'),
            r.token@ == token@,
            r.dataset_id is None,
    {
        ClientConfig {
            base_url: trim_end_char(base_url, '/'),
            token: token.to_owned(),
            dataset_id: None,
            timeout: Duration::from_secs(30),
        }
    }

    /// Sets the dataset id, leaving every other field unchanged.
    pub fn with_dataset_id(self, dataset_id: &str) -> (r: ClientConfig)
        ensures
            r.base_url == self.base_url,
            r.token == self.token,
            r.dataset_id matches Some(d) && d@ == dataset_id@,
            r.timeout == self.timeout,
    {
        ClientConfig {
            base_url: self.base_url,
            token: self.token,
            dataset_id: Some(dataset_id.to_owned()),
            timeout: self.timeout,
        }
    }

    /// Sets the timeout, leaving every other field unchanged.
    pub fn with_timeout(self, timeout: Duration) -> (r: ClientConfig)
        ensures
            r.base_url == self.base_url,
            r.token == self.token,
            r.dataset_id == self.dataset_id,
            r.timeout == timeout,
    {
        ClientConfig {
            base_url: self.base_url,
            token: self.token,
            dataset_id: self.dataset_id,
            timeout,
        }
    }

    /// Builds the full request URL for a serialized query path, inserting
    /// the dataset id when one is configured.
    pub fn build_url(&self, path: &str) -> (r: String)
        ensures
            r@ == spec_request_url(self.base_url@, self.dataset_id.deep_view(), path@),
    {
        let mut r = self.base_url.clone();
        r.append("/");
        if let Some(dataset_id) = &self.dataset_id {
            r.append(dataset_id.as_str());
            r.append("/");
        }
        r.append(path);
        r
    }

    /// A description of this configuration with the token redacted, for
    /// diagnostics.
    pub fn debug_string(&self) -> (r: String)
        ensures
            r@ == spec_config_description(self.base_url@, self.dataset_id.deep_view()),
    {
        let mut r = "ClientConfig { base_url: ".to_owned();
        r.append(self.base_url.as_str());
        r.append(", token: <redacted>, dataset_id: ");
        if let Some(dataset_id) = &self.dataset_id {
            r.append("Some(");
            r.append(dataset_id.as_str());
            r.append(")");
        } else {
            r.append("None");
        }
        r.append(" }");
        r
    }
}

} // verus!
