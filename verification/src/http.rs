//! The decisions around one proxied HTTP request: which method to use, and
//! what to tell the caller once the exchange is over. Sending the request and
//! reading the answer are the host's part.

use vstd::prelude::*;
use crate::text::same_text;

verus! {

/// The methods the proxy knows.
#[derive(Debug, Clone, Copy, PartialEq, Eq, Structural)]
pub enum HttpMethod {
    Get,
    Post,
    Put,
    Delete,
}

/// What the caller may say about the request besides its address.
#[derive(Debug, Clone, PartialEq, Eq)]
pub struct HttpRequestOptions {
    /// The name of the method, if the caller asks for one.
    pub method: Option<String>,
}

/// The status code of an answer: a number from 100 to 999.
#[derive(Debug, Clone, Copy, PartialEq, Eq)]
pub struct HttpStatus {
    code: u16,
}

/// How far an exchange got.
#[derive(Debug, Clone, PartialEq, Eq)]
pub enum Exchange {
    /// The request could not be sent; holds the reason.
    Unsent(String),
    /// An answer came, but its body could not be read.
    Unread { status: HttpStatus, reason: String },
    /// An answer came and its body was read as text.
    Answered { status: HttpStatus, body: String },
}

/// The method that a name stands for. The name is matched as it is written,
/// in capitals; any other name, and no name, stand for `Get`.
pub open spec fn method_named(name: Option<Seq<char>>) -> HttpMethod {
    match name {
        Some(text) => if text == "POST"@ {
            HttpMethod::Post
        } else if text == "PUT"@ {
            HttpMethod::Put
        } else if text == "DELETE"@ {
            HttpMethod::Delete
        } else {
            HttpMethod::Get
        },
        None => HttpMethod::Get,
    }
}

/// The method name that the options ask for, if there are options and they
/// name one.
pub open spec fn requested_name(options: Option<HttpRequestOptions>) -> Option<Seq<char>> {
    match options {
        Some(given) => match given.method {
            Some(name) => Some(name@),
            None => None,
        },
        None => None,
    }
}

/// Picks the method for a request from the caller's options.
pub fn select_method(options: &Option<HttpRequestOptions>) -> (method: HttpMethod)
    ensures
        method == method_named(requested_name(*options)),
{
    match options {
        Some(given) => match &given.method {
            Some(name) => {
                if same_text(name.as_str(), "POST") {
                    HttpMethod::Post
                } else if same_text(name.as_str(), "PUT") {
                    HttpMethod::Put
                } else if same_text(name.as_str(), "DELETE") {
                    HttpMethod::Delete
                } else {
                    HttpMethod::Get
                }
            },
            None => HttpMethod::Get,
        },
        None => HttpMethod::Get,
    }
}

/// The text that `reqwest::StatusCode` displays for a code: the number, a
/// space, and the standard reason phrase of that number.
pub uninterp spec fn status_text(code: u16) -> Seq<char>;

/// Formats a status code the way `reqwest::StatusCode` displays itself.
///
/// Taken on trust from the source of `StatusCode`: `from_u16` accepts every
/// number from 100 to 999, and what `Display` writes depends on that number
/// alone.
#[verifier::external_body]
fn display_status(code: u16) -> (text: String)
    requires
        100 <= code <= 999,
    ensures
        text@ == status_text(code),
{
    match reqwest::StatusCode::from_u16(code) {
        Ok(status) => status.to_string(),
        Err(_) => String::new(),
    }
}

impl HttpStatus {
    #[verifier::type_invariant]
    spec fn in_range(self) -> bool {
        100 <= self.code <= 999
    }

    /// The number of the status.
    pub closed spec fn number(self) -> u16 {
        self.code
    }

    /// Whether the status reports success: a number from 200 to 299.
    pub open spec fn succeeded(self) -> bool {
        200 <= self.number() <= 299
    }

    /// The status with the given number, if the number is one a status can
    /// have.
    pub fn new(code: u16) -> (status: Option<HttpStatus>)
        ensures
            status is Some <==> 100 <= code <= 999,
            status matches Some(made) ==> made.number() == code,
    {
        if 100 <= code && code <= 999 {
            Some(HttpStatus { code })
        } else {
            None
        }
    }

    /// The number of the status.
    pub fn code(&self) -> (code: u16)
        ensures
            code == self.number(),
            100 <= code <= 999,
    {
        proof {
            use_type_invariant(self);
        }
        self.code
    }

    /// Whether the status reports success.
    pub fn is_success(&self) -> (success: bool)
        ensures
            success == self.succeeded(),
    {
        200 <= self.code && self.code <= 299
    }

    /// The status as it is shown to the caller.
    pub fn label(&self) -> (text: String)
        ensures
            text@ == status_text(self.number()),
    {
        proof {
            use_type_invariant(self);
        }
        display_status(self.code)
    }
}

/// The error for a request that could not be sent.
pub fn unsent_error(reason: &str) -> (message: String)
    ensures
        message@ == "Failed to send request: "@ + reason@,
{
    String::from_str("Failed to send request: ").concat(reason)
}

/// The error for an answer whose body could not be read; `status` is the
/// status as shown.
pub fn unread_error(reason: &str, status: &str) -> (message: String)
    ensures
        message@ == "Failed to get response text: "@ + reason@ + " (Status: "@ + status@ + ")"@,
{
    String::from_str("Failed to get response text: ").concat(reason).concat(" (Status: ").concat(
        status,
    ).concat(")")
}

/// The error for an answer that does not report success; `status` is the
/// status as shown.
pub fn status_error(status: &str, body: &str) -> (message: String)
    ensures
        message@ == "HTTP Error: "@ + status@ + " - "@ + body@,
{
    String::from_str("HTTP Error: ").concat(status).concat(" - ").concat(body)
}

/// What the caller is told about an exchange, as text.
pub open spec fn conclusion(exchange: Exchange) -> Result<Seq<char>, Seq<char>> {
    match exchange {
        Exchange::Unsent(reason) => Err("Failed to send request: "@ + reason@),
        Exchange::Unread { status, reason } => Err(
            "Failed to get response text: "@ + reason@ + " (Status: "@ + status_text(
                status.number(),
            ) + ")"@,
        ),
        Exchange::Answered { status, body } => if status.succeeded() {
            Ok(body@)
        } else {
            Err("HTTP Error: "@ + status_text(status.number()) + " - "@ + body@)
        },
    }
}

/// Ends an exchange: the body of an answer that reports success, and an
/// error that names the status or the failure for everything else.
pub fn conclude(exchange: Exchange) -> (reply: Result<String, String>)
    ensures
        match conclusion(exchange) {
            Ok(text) => reply matches Ok(body) && body@ == text,
            Err(text) => reply matches Err(message) && message@ == text,
        },
{
    match exchange {
        Exchange::Unsent(reason) => Err(unsent_error(reason.as_str())),
        Exchange::Unread { status, reason } => {
            let shown = status.label();
            Err(unread_error(reason.as_str(), shown.as_str()))
        },
        Exchange::Answered { status, body } => {
            if status.is_success() {
                Ok(body)
            } else {
                let shown = status.label();
                Err(status_error(shown.as_str(), body.as_str()))
            }
        },
    }
}

} // verus!
