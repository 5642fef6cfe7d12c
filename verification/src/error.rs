//! The failures that a call to the service can end in, the rule that turns an
//! HTTP status into one of them, and their text.

use crate::text::{decimal, lemma_prefix_occurs, occurs_in, push_decimal};
use vstd::prelude::*;

verus! {

/// `reqwest::Error`, carried through as it is: nothing inside it is visible here.
#[verifier::external_type_specification]
#[verifier::external_body]
pub struct ExRequestError(reqwest::Error);

/// `serde_json::Error`, carried through as it is: nothing inside it is visible here.
#[verifier::external_type_specification]
#[verifier::external_body]
pub struct ExJsonError(serde_json::Error);

/// All the ways in which a call to the service can fail.
#[derive(Debug)]
pub enum ElevenLabsTTDError {
    /// No response was received: the transport failed below HTTP.
    RequestError(reqwest::Error),
    /// The service answered with a status that has no kind of its own.
    ApiError { status: u16, message: String },
    /// A response body that should have been structured data did not decode.
    ParseError(serde_json::Error),
    /// The service refused the API key.
    AuthenticationError(String),
    /// Too many requests were made; `retry_after` is in seconds.
    RateLimitError { retry_after: Option<u64>, message: String },
    /// The account has too few credits left.
    QuotaExceededError(String),
    /// The caller's input is not acceptable.
    ValidationError(String),
}

/// An error with its texts as character sequences.
pub enum ErrorView {
    RequestError(reqwest::Error),
    ApiError { status: u16, message: Seq<char> },
    ParseError(serde_json::Error),
    AuthenticationError(Seq<char>),
    RateLimitError { retry_after: Option<u64>, message: Seq<char> },
    QuotaExceededError(Seq<char>),
    ValidationError(Seq<char>),
}

impl View for ElevenLabsTTDError {
    type V = ErrorView;

    open spec fn view(&self) -> ErrorView {
        match self {
            ElevenLabsTTDError::RequestError(e) => ErrorView::RequestError(*e),
            ElevenLabsTTDError::ApiError { status, message } => ErrorView::ApiError {
                status: *status,
                message: message@,
            },
            ElevenLabsTTDError::ParseError(e) => ErrorView::ParseError(*e),
            ElevenLabsTTDError::AuthenticationError(m) => ErrorView::AuthenticationError(m@),
            ElevenLabsTTDError::RateLimitError { retry_after, message } => {
                ErrorView::RateLimitError { retry_after: *retry_after, message: message@ }
            },
            ElevenLabsTTDError::QuotaExceededError(m) => ErrorView::QuotaExceededError(m@),
            ElevenLabsTTDError::ValidationError(m) => ErrorView::ValidationError(m@),
        }
    }
}

impl ErrorView {
    /// The error that a response with this status and body text stands for.
    /// Three statuses have a kind and a fixed message of their own, and the
    /// body text is then dropped; every other status keeps both.
    pub open spec fn for_status(status: u16, text: Seq<char>) -> ErrorView {
        if status == 401 {
            ErrorView::AuthenticationError("Invalid API key"@)
        } else if status == 429 {
            ErrorView::RateLimitError { retry_after: None, message: "Too many requests"@ }
        } else if status == 402 {
            ErrorView::QuotaExceededError("Insufficient credits"@)
        } else {
            ErrorView::ApiError { status, message: text }
        }
    }

    /// The error that a failure of the transport stands for, given the status
    /// that it carries and the text that it displays. A failure without a
    /// status is wrapped as it is; one with a status is classified by it,
    /// with the text as the message.
    pub open spec fn for_request(
        error: reqwest::Error,
        status: Option<u16>,
        text: Seq<char>,
    ) -> ErrorView {
        match status {
            Some(status) => ErrorView::for_status(status, text),
            None => ErrorView::RequestError(error),
        }
    }

    /// Whether the error is what the failure `error` converts to.
    pub open spec fn converts_from(self, error: reqwest::Error) -> bool {
        match request_status(error) {
            Some(status) => exists|text: String| #[trigger]
                vstd::string::to_string_from_display_ensures::<reqwest::Error>(&error, text)
                    && self == ErrorView::for_status(status, text@),
            None => self == ErrorView::RequestError(error),
        }
    }

    /// Whether the error wraps one of another library, whose text is not known here.
    pub open spec fn wraps_cause(self) -> bool {
        self is RequestError || self is ParseError
    }

    /// The words that name the kind of the error.
    pub open spec fn keyword(self) -> Seq<char> {
        match self {
            ErrorView::RequestError(_) => "Request failed"@,
            ErrorView::ApiError { .. } => "API error"@,
            ErrorView::ParseError(_) => "Failed to parse response"@,
            ErrorView::AuthenticationError(_) => "Authentication failed"@,
            ErrorView::RateLimitError { .. } => "Rate limit exceeded"@,
            ErrorView::QuotaExceededError(_) => "Quota exceeded"@,
            ErrorView::ValidationError(_) => "Validation error"@,
        }
    }

    /// Whether the two errors are of one kind.
    pub open spec fn same_kind(self, other: ErrorView) -> bool {
        match (self, other) {
            (ErrorView::RequestError(_), ErrorView::RequestError(_)) => true,
            (ErrorView::ApiError { .. }, ErrorView::ApiError { .. }) => true,
            (ErrorView::ParseError(_), ErrorView::ParseError(_)) => true,
            (ErrorView::AuthenticationError(_), ErrorView::AuthenticationError(_)) => true,
            (ErrorView::RateLimitError { .. }, ErrorView::RateLimitError { .. }) => true,
            (ErrorView::QuotaExceededError(_), ErrorView::QuotaExceededError(_)) => true,
            (ErrorView::ValidationError(_), ErrorView::ValidationError(_)) => true,
            _ => false,
        }
    }

    /// The text of the error. `cause` is the text of the wrapped error and is
    /// used by the two kinds that wrap one.
    pub open spec fn rendering(self, cause: Seq<char>) -> Seq<char> {
        match self {
            ErrorView::RequestError(_) => "Request failed: "@ + cause,
            ErrorView::ApiError { status, message } => "API error ("@ + decimal(status as nat)
                + "): "@ + message,
            ErrorView::ParseError(_) => "Failed to parse response: "@ + cause,
            ErrorView::AuthenticationError(m) => "Authentication failed: "@ + m,
            ErrorView::RateLimitError { retry_after: Some(seconds), message } =>
                "Rate limit exceeded (retry in "@ + decimal(seconds as nat) + "s): "@ + message,
            ErrorView::RateLimitError { retry_after: None, message } => "Rate limit exceeded: "@
                + message,
            ErrorView::QuotaExceededError(m) => "Quota exceeded: "@ + m,
            ErrorView::ValidationError(m) => "Validation error: "@ + m,
        }
    }
}

/// The text of an error begins with the words that name its kind, whatever
/// the error holds, and so the words stand in the text.
pub proof fn lemma_rendering_names_kind(error: ErrorView, cause: Seq<char>)
    ensures
        error.keyword().is_prefix_of(error.rendering(cause)),
        occurs_in(error.keyword(), error.rendering(cause)),
{
    reveal_strlit("Request failed");
    reveal_strlit("Request failed: ");
    reveal_strlit("API error");
    reveal_strlit("API error (");
    reveal_strlit("Failed to parse response");
    reveal_strlit("Failed to parse response: ");
    reveal_strlit("Authentication failed");
    reveal_strlit("Authentication failed: ");
    reveal_strlit("Rate limit exceeded");
    reveal_strlit("Rate limit exceeded (retry in ");
    reveal_strlit("Rate limit exceeded: ");
    reveal_strlit("Quota exceeded");
    reveal_strlit("Quota exceeded: ");
    reveal_strlit("Validation error");
    reveal_strlit("Validation error: ");
    let keyword = error.keyword();
    let text = error.rendering(cause);
    assert(keyword.len() <= text.len());
    assert(keyword =~= text.subrange(0, keyword.len() as int));
    lemma_prefix_occurs(keyword, text);
}

/// The words that name a kind name no other kind.
pub proof fn lemma_keyword_tells_kind(a: ErrorView, b: ErrorView)
    ensures
        a.keyword() == b.keyword() <==> a.same_kind(b),
{
    reveal_strlit("Request failed");
    reveal_strlit("API error");
    reveal_strlit("Failed to parse response");
    reveal_strlit("Authentication failed");
    reveal_strlit("Rate limit exceeded");
    reveal_strlit("Quota exceeded");
    reveal_strlit("Validation error");
    // The seven differ in length, but for two that differ in their first letter.
    assert("Request failed"@.len() == 14);
    assert("API error"@.len() == 9);
    assert("Failed to parse response"@.len() == 24);
    assert("Authentication failed"@.len() == 21);
    assert("Rate limit exceeded"@.len() == 19);
    assert("Quota exceeded"@.len() == 14);
    assert("Validation error"@.len() == 16);
    assert("Request failed"@[0] != "Quota exceeded"@[0]);
}

/// The status that a failure of the transport carries: that of the response
/// it was made from, where it was made from one. It is what
/// `reqwest::Error::status` reads from the failure, as a number.
pub uninterp spec fn request_status(error: reqwest::Error) -> Option<u16>;

/// `reqwest::Error::status`, with the status as a number by
/// `StatusCode::as_u16`. The call reads the kind that the failure holds, so
/// its result is a function of the failure alone: the contract gives that
/// result its name and claims nothing else of it.
#[verifier::external_body]
fn request_error_status(error: &reqwest::Error) -> (status: Option<u16>)
    ensures
        status == request_status(*error),
{
    error.status().map(|code| code.as_u16())
}

impl ElevenLabsTTDError {
    /// The error for a response with a status that is no success, and with
    /// the text of its body.
    pub fn from_status(status: u16, text: String) -> (error: Self)
        ensures
            error@ == ErrorView::for_status(status, text@),
    {
        if status == 401 {
            ElevenLabsTTDError::AuthenticationError(String::from_str("Invalid API key"))
        } else if status == 429 {
            ElevenLabsTTDError::RateLimitError {
                retry_after: None,
                message: String::from_str("Too many requests"),
            }
        } else if status == 402 {
            ElevenLabsTTDError::QuotaExceededError(String::from_str("Insufficient credits"))
        } else {
            ElevenLabsTTDError::ApiError { status, message: text }
        }
    }

    /// The error for a failure of the transport, given the status that the
    /// failure carries and the text that it displays.
    pub fn from_request_parts(error: reqwest::Error, status: Option<u16>, text: String) -> (result:
        Self)
        ensures
            result@ == ErrorView::for_request(error, status, text@),
    {
        match status {
            Some(status) => ElevenLabsTTDError::from_status(status, text),
            None => ElevenLabsTTDError::RequestError(error),
        }
    }

    /// The error for a failure of the transport. One without a status, as
    /// when no response was received, is wrapped as it is. One that was made
    /// from a response is classified by that response's status, with the
    /// text that the failure displays as the message.
    pub fn from_request_error(error: reqwest::Error) -> (result: Self)
        ensures
            request_status(error) is None ==> result@ == ErrorView::RequestError(error),
            request_status(error) is Some ==> exists|text: String| #[trigger]
                vstd::string::to_string_from_display_ensures::<reqwest::Error>(&error, text)
                    && result@ == ErrorView::for_status(request_status(error)->0, text@),
    {
        let status = request_error_status(&error);
        let text = match status {
            Some(_) => error.to_string(),
            None => String::new(),
        };
        ElevenLabsTTDError::from_request_parts(error, status, text)
    }

    /// Whether `cause` is a text that the wrapped error displays; for an
    /// error that wraps none, whether `cause` is empty.
    pub open spec fn shows_cause(&self, cause: String) -> bool {
        match self {
            ElevenLabsTTDError::RequestError(e) => vstd::string::to_string_from_display_ensures::<
                reqwest::Error,
            >(e, cause),
            ElevenLabsTTDError::ParseError(e) => vstd::string::to_string_from_display_ensures::<
                serde_json::Error,
            >(e, cause),
            _ => cause@ == Seq::<char>::empty(),
        }
    }

    /// The text of the error, given the text of the error that it wraps.
    pub fn render(&self, cause: &str) -> (text: String)
        ensures
            text@ == self@.rendering(cause@),
    {
        match self {
            ElevenLabsTTDError::RequestError(_) => {
                let mut text = String::from_str("Request failed: ");
                text.append(cause);
                text
            },
            ElevenLabsTTDError::ApiError { status, message } => {
                let mut text = String::from_str("API error (");
                push_decimal(&mut text, *status as u64);
                text.append("): ");
                text.append(message.as_str());
                text
            },
            ElevenLabsTTDError::ParseError(_) => {
                let mut text = String::from_str("Failed to parse response: ");
                text.append(cause);
                text
            },
            ElevenLabsTTDError::AuthenticationError(message) => {
                let mut text = String::from_str("Authentication failed: ");
                text.append(message.as_str());
                text
            },
            ElevenLabsTTDError::RateLimitError { retry_after, message } => {
                match retry_after {
                    Some(seconds) => {
                        let mut text = String::from_str("Rate limit exceeded (retry in ");
                        push_decimal(&mut text, *seconds);
                        text.append("s): ");
                        text.append(message.as_str());
                        text
                    },
                    None => {
                        let mut text = String::from_str("Rate limit exceeded: ");
                        text.append(message.as_str());
                        text
                    },
                }
            },
            ElevenLabsTTDError::QuotaExceededError(message) => {
                let mut text = String::from_str("Quota exceeded: ");
                text.append(message.as_str());
                text
            },
            ElevenLabsTTDError::ValidationError(message) => {
                let mut text = String::from_str("Validation error: ");
                text.append(message.as_str());
                text
            },
        }
    }

    /// The text of the error, as it is shown to a person. For an error that
    /// wraps another the text ends in what that one displays.
    pub fn to_string(&self) -> (text: String)
        ensures
            exists|cause: String| #[trigger]
                self.shows_cause(cause) && text@ == self@.rendering(cause@),
            !self@.wraps_cause() ==> text@ == self@.rendering(Seq::empty()),
            self@.keyword().is_prefix_of(text@),
            occurs_in(self@.keyword(), text@),
    {
        let cause = match self {
            ElevenLabsTTDError::RequestError(e) => e.to_string(),
            ElevenLabsTTDError::ParseError(e) => e.to_string(),
            _ => String::new(),
        };
        assert(self.shows_cause(cause));
        proof {
            lemma_rendering_names_kind(self@, cause@);
        }
        self.render(cause.as_str())
    }
}

impl From<reqwest::Error> for ElevenLabsTTDError {
    /// The error for a failure of the transport: see `from_request_error`.
    fn from(error: reqwest::Error) -> (result: Self)
        ensures
            request_status(error) is None ==> result@ == ErrorView::RequestError(error),
            request_status(error) is Some ==> exists|text: String| #[trigger]
                vstd::string::to_string_from_display_ensures::<reqwest::Error>(&error, text)
                    && result@ == ErrorView::for_status(request_status(error)->0, text@),
    {
        ElevenLabsTTDError::from_request_error(error)
    }
}

impl vstd::std_specs::convert::FromSpecImpl<reqwest::Error> for ElevenLabsTTDError {
    /// The message of a classified failure is the text that the failure
    /// displays, which specifications know as a relation and not as a value:
    /// the conversion is therefore stated by the clauses of `from` itself.
    open spec fn obeys_from_spec() -> bool {
        false
    }

    /// Some error that the failure converts to.
    open spec fn from_spec(error: reqwest::Error) -> Self {
        choose|result: ElevenLabsTTDError| result@.converts_from(error)
    }
}

impl From<serde_json::Error> for ElevenLabsTTDError {
    fn from(error: serde_json::Error) -> (result: Self) {
        ElevenLabsTTDError::ParseError(error)
    }
}

impl vstd::std_specs::convert::FromSpecImpl<serde_json::Error> for ElevenLabsTTDError {
    open spec fn obeys_from_spec() -> bool {
        true
    }

    open spec fn from_spec(error: serde_json::Error) -> Self {
        ElevenLabsTTDError::ParseError(error)
    }
}

} // verus!
