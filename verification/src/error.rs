//! The error taxonomy and the classifier that turns an HTTP status code and
//! response body into one typed error.

use vstd::prelude::*;
use crate::text::decimal;

verus! {

/// The detail part of a structured OData error response body.
#[derive(Debug, Clone)]
pub struct ODataErrorDetail {
    pub code: String,
    pub message: String,
}

/// A structured OData error response body: `{"error": {"code": ..., "message": ...}}`,
/// where `code` may be absent (read as empty).
#[derive(Debug, Clone)]
pub struct ODataErrorResponse {
    pub error: ODataErrorDetail,
}

/// The `(code, message)` pair of the OData error envelope that `serde_json`
/// reads from `body`, or `None` where the body is not JSON of that shape.
pub uninterp spec fn error_envelope(body: Seq<char>) -> Option<(Seq<char>, Seq<char>)>;

/// Relies on `serde_json::from_str` and `serde_json::Value`'s accessors: the
/// outcome of parsing a string as JSON and reading the `error.code` and
/// `error.message` string members depends on the string's characters alone.
#[verifier::external_body]
fn decode_error_envelope(body: &str) -> (r: Option<ODataErrorResponse>)
    ensures
        match r {
            Some(env) => error_envelope(body@) == Some((env.error.code@, env.error.message@)),
            None => error_envelope(body@) is None,
        },
{
    let v: serde_json::Value = serde_json::from_str(body).ok()?;
    let detail = v.get("error")?;
    let message = detail.get("message")?.as_str()?.to_string();
    let code = match detail.get("code") {
        Some(c) => c.as_str()?.to_string(),
        None => String::new(),
    };
    Some(ODataErrorResponse { error: ODataErrorDetail { code, message } })
}

/// Errors returned by this library: builder validation failures, and the
/// typed forms of transport and server failures.
#[derive(Debug)]
pub enum ResoError {
    /// Configuration error
    Config(String),
    /// Network/HTTP error
    Network(String),
    /// 401 Unauthorized - invalid or missing authentication token
    Unauthorized { message: String, status_code: u16 },
    /// 403 Forbidden - valid credentials but insufficient permissions
    Forbidden { message: String, status_code: u16 },
    /// 404 Not Found - resource or endpoint not found
    NotFound { message: String, status_code: u16 },
    /// 429 Too Many Requests - rate limit exceeded
    RateLimited { message: String, status_code: u16 },
    /// 5xx server-side error
    ServerError { message: String, status_code: u16 },
    /// Generic OData server error for other status codes
    ODataError { message: String, status_code: u16 },
    /// Parsing error
    Parse(String),
    /// Invalid query
    InvalidQuery(String),
}

/// The message extracted from an error response body: the envelope's message
/// (with the code appended when one is present), or the body itself,
/// truncated past five hundred characters.
pub open spec fn spec_error_message(body: Seq<char>) -> Seq<char> {
    match error_envelope(body) {
        Some((code, message)) => if code.len() > 0 {
            message + " (code: "@ + code + ")"@
        } else {
            message
        },
        None => if body.len() > 500 {
            body.take(500) + "... (truncated)"@
        } else {
            body
        },
    }
}

/// Whether `r` is the error that an HTTP response with the given status code
/// and extracted message `msg` classifies to: one variant per recognized
/// status, `ServerError` for the 5xx range, `ODataError` for everything else.
pub open spec fn classifies(r: ResoError, status: u16, msg: Seq<char>) -> bool {
    match r {
        ResoError::Unauthorized { message, status_code } => status == 401 && status_code == status
            && message@ == msg,
        ResoError::Forbidden { message, status_code } => status == 403 && status_code == status
            && message@ == msg,
        ResoError::NotFound { message, status_code } => status == 404 && status_code == status
            && message@ == msg,
        ResoError::RateLimited { message, status_code } => status == 429 && status_code == status
            && message@ == msg,
        ResoError::ServerError { message, status_code } => 500 <= status <= 599 && status_code
            == status && message@ == msg,
        ResoError::ODataError { message, status_code } => status != 401 && status != 403 && status
            != 404 && status != 429 && !(500 <= status <= 599) && status_code == status && message@
            == msg,
        _ => false,
    }
}

/// The display text of each error variant.
pub open spec fn spec_display(e: ResoError) -> Seq<char> {
    match e {
        ResoError::Config(m) => "Configuration error: "@ + m@,
        ResoError::Network(m) => "Network error: "@ + m@,
        ResoError::Unauthorized { message, .. } => "Unauthorized (401): "@ + message@,
        ResoError::Forbidden { message, .. } => "Forbidden (403): "@ + message@,
        ResoError::NotFound { message, .. } => "Not Found (404): "@ + message@,
        ResoError::RateLimited { message, .. } => "Rate Limited (429): "@ + message@,
        ResoError::ServerError { message, status_code } => "Server Error ("@ + decimal(
            status_code as nat,
        ) + "): "@ + message@,
        ResoError::ODataError { message, status_code } => "OData error ("@ + decimal(
            status_code as nat,
        ) + "): "@ + message@,
        ResoError::Parse(m) => "Parse error: "@ + m@,
        ResoError::InvalidQuery(m) => "Invalid query: "@ + m@,
    }
}

impl ResoError {
    /// Extracts the OData error message from a response body if the body is a
    /// structured error envelope, and falls back to the (truncated) body.
    pub fn parse_error_body(body: &str) -> (r: String)
        ensures
            r@ == spec_error_message(body@),
    {
        match decode_error_envelope(body) {
            Some(env) => {
                if !env.error.code.as_str().is_empty() {
                    let mut r = env.error.message;
                    r.append(" (code: ");
                    r.append(env.error.code.as_str());
                    r.append(")");
                    r
                } else {
                    env.error.message
                }
            },
            None => {
                let len = body.unicode_len();
                if len > 500 {
                    let mut r = body.substring_char(0, 500).to_owned();
                    proof {
                        assert(body@.subrange(0, 500) =~= body@.take(500));
                    }
                    r.append("... (truncated)");
                    r
                } else {
                    body.to_owned()
                }
            },
        }
    }

    /// Classifies an HTTP status code and response body as the matching
    /// error variant, carrying the extracted message and the status.
    pub fn from_status(status_code: u16, body: &str) -> (r: ResoError)
        ensures
            classifies(r, status_code, spec_error_message(body@)),
    {
        let message = Self::parse_error_body(body);

        if status_code == 401 {
            ResoError::Unauthorized { message, status_code }
        } else if status_code == 403 {
            ResoError::Forbidden { message, status_code }
        } else if status_code == 404 {
            ResoError::NotFound { message, status_code }
        } else if status_code == 429 {
            ResoError::RateLimited { message, status_code }
        } else if 500 <= status_code && status_code <= 599 {
            ResoError::ServerError { message, status_code }
        } else {
            ResoError::ODataError { message, status_code }
        }
    }

    /// The display text of this error, as `Display` would render it.
    pub fn display_string(&self) -> (r: String)
        ensures
            r@ == spec_display(*self),
    {
        match self {
            ResoError::Config(m) => {
                let mut r = "Configuration error: ".to_owned();
                r.append(m.as_str());
                r
            },
            ResoError::Network(m) => {
                let mut r = "Network error: ".to_owned();
                r.append(m.as_str());
                r
            },
            ResoError::Unauthorized { message, .. } => {
                let mut r = "Unauthorized (401): ".to_owned();
                r.append(message.as_str());
                r
            },
            ResoError::Forbidden { message, .. } => {
                let mut r = "Forbidden (403): ".to_owned();
                r.append(message.as_str());
                r
            },
            ResoError::NotFound { message, .. } => {
                let mut r = "Not Found (404): ".to_owned();
                r.append(message.as_str());
                r
            },
            ResoError::RateLimited { message, .. } => {
                let mut r = "Rate Limited (429): ".to_owned();
                r.append(message.as_str());
                r
            },
            ResoError::ServerError { message, status_code } => {
                let mut r = "Server Error (".to_owned();
                r.append(crate::text::u16_string(*status_code).as_str());
                r.append("): ");
                r.append(message.as_str());
                r
            },
            ResoError::ODataError { message, status_code } => {
                let mut r = "OData error (".to_owned();
                r.append(crate::text::u16_string(*status_code).as_str());
                r.append("): ");
                r.append(message.as_str());
                r
            },
            ResoError::Parse(m) => {
                let mut r = "Parse error: ".to_owned();
                r.append(m.as_str());
                r
            },
            ResoError::InvalidQuery(m) => {
                let mut r = "Invalid query: ".to_owned();
                r.append(m.as_str());
                r
            },
        }
    }
}

} // verus!
