use vstd::prelude::*;
use vstd::string::StringExecFns;

verus! {

broadcast use vstd::string::group_string_axioms;

/// What the transport reported when a request could not be carried out.
///
/// The transport itself lives outside this crate; the retry logic only ever
/// reads these three plain facts about a failure, so they are carried as
/// plain values.
#[derive(Debug)]
pub struct NetworkCause {
    /// The attempt timed out.
    pub is_timeout: bool,
    /// The connection could not be established.
    pub is_connect: bool,
    /// Human-readable description of the underlying failure.
    pub detail: String,
}

/// The closed set of failure kinds every component of this crate reports.
#[derive(Debug)]
pub enum Error {
    /// Missing or invalid settings.
    Configuration(String),
    /// Reserved for authentication-specific failures.
    Authentication(String),
    /// Generic message-carrying error.
    Api(String),
    /// Underlying transport failure.
    Network(NetworkCause),
    /// Retry budget exceeded without success.
    RetryExhausted(String),
    /// Malformed URL construction.
    InvalidUrl(String),
    /// JSON encode/decode failure.
    Serialization(String),
    /// Structured remote failure.
    ApiError {
        status_code: u16,
        code: String,
        message: String,
        trace_id: Option<String>,
    },
}

/// A failure is transient exactly when the transport reported a timeout or a
/// connection failure; every other kind is permanent and stops a retry loop.
pub open spec fn spec_is_transient(e: &Error) -> bool {
    match e {
        Error::Network(cause) => cause.is_timeout || cause.is_connect,
        _ => false,
    }
}

/// The decimal spelling of a digit.
pub open spec fn spec_dec_digit(d: int) -> Seq<char> {
    if d == 0 {
        "0"@
    } else if d == 1 {
        "1"@
    } else if d == 2 {
        "2"@
    } else if d == 3 {
        "3"@
    } else if d == 4 {
        "4"@
    } else if d == 5 {
        "5"@
    } else if d == 6 {
        "6"@
    } else if d == 7 {
        "7"@
    } else if d == 8 {
        "8"@
    } else {
        "9"@
    }
}

/// The decimal spelling of a non-negative number.
pub open spec fn spec_dec(n: int) -> Seq<char>
    decreases n,
{
    if n < 10 {
        spec_dec_digit(n)
    } else {
        spec_dec(n / 10) + spec_dec_digit(n % 10)
    }
}

fn dec_digit(d: u16) -> (r: &'static str)
    requires
        d < 10,
    ensures
        r@ == spec_dec_digit(d as int),
{
    if d == 0 {
        "0"
    } else if d == 1 {
        "1"
    } else if d == 2 {
        "2"
    } else if d == 3 {
        "3"
    } else if d == 4 {
        "4"
    } else if d == 5 {
        "5"
    } else if d == 6 {
        "6"
    } else if d == 7 {
        "7"
    } else if d == 8 {
        "8"
    } else {
        "9"
    }
}

fn dec_u16(n: u16) -> (r: String)
    ensures
        r@ == spec_dec(n as int),
    decreases n,
{
    if n < 10 {
        dec_digit(n).to_owned()
    } else {
        let mut s = dec_u16(n / 10);
        s.append(dec_digit(n % 10));
        s
    }
}

/// The spelling the trace identifier has in a formatted error.
pub open spec fn spec_trace_text(t: Option<String>) -> Seq<char> {
    match t {
        None => "None"@,
        Some(s) => "Some(\""@ + s@ + "\")"@,
    }
}

/// The one-line rendering of each error kind.
pub open spec fn spec_message(e: Error) -> Seq<char> {
    match e {
        Error::Configuration(m) => "Configuration error: "@ + m@,
        Error::Authentication(m) => "Authentication failed: "@ + m@,
        Error::Api(m) => "API error: "@ + m@,
        Error::Network(c) => "Network error: "@ + c.detail@,
        Error::RetryExhausted(m) => "Retry exhausted: "@ + m@,
        Error::InvalidUrl(m) => "Invalid URL: "@ + m@,
        Error::Serialization(m) => "Serialization error: "@ + m@,
        Error::ApiError { status_code, code, message, trace_id } => "API error: "@ + message@
            + " (Code: "@ + code@ + ", Status: "@ + spec_dec(status_code as int) + ", Trace: "@
            + spec_trace_text(trace_id) + ")"@,
    }
}

impl Error {
    /// Whether the retry loop may attempt this request again.
    pub fn is_transient(&self) -> (r: bool)
        ensures
            r == spec_is_transient(self),
    {
        match self {
            Error::Network(cause) => cause.is_timeout || cause.is_connect,
            _ => false,
        }
    }

    /// Renders the error as one line of text.
    pub fn message(&self) -> (r: String)
        ensures
            r@ == spec_message(*self),
    {
        match self {
            Error::Configuration(m) => prefixed("Configuration error: ", m.as_str()),
            Error::Authentication(m) => prefixed("Authentication failed: ", m.as_str()),
            Error::Api(m) => prefixed("API error: ", m.as_str()),
            Error::Network(c) => prefixed("Network error: ", c.detail.as_str()),
            Error::RetryExhausted(m) => prefixed("Retry exhausted: ", m.as_str()),
            Error::InvalidUrl(m) => prefixed("Invalid URL: ", m.as_str()),
            Error::Serialization(m) => prefixed("Serialization error: ", m.as_str()),
            Error::ApiError { status_code, code, message, trace_id } => {
                let mut s: String = "API error: ".to_owned();
                s.append(message.as_str());
                s.append(" (Code: ");
                s.append(code.as_str());
                s.append(", Status: ");
                let num = dec_u16(*status_code);
                s.append(num.as_str());
                s.append(", Trace: ");
                match trace_id {
                    None => s.append("None"),
                    Some(t) => {
                        s.append("Some(\"");
                        s.append(t.as_str());
                        s.append("\")");
                    },
                }
                s.append(")");
                s
            },
        }
    }
}

fn prefixed(prefix: &str, rest: &str) -> (r: String)
    ensures
        r@ == prefix@ + rest@,
{
    let mut s: String = prefix.to_owned();
    s.append(rest);
    s
}

} // verus!
