//! What goes to the HTTP transport and what comes back from it, as plain values, and the
//! rules that turn an answer into a document or an error.

use crate::error::{outcome, AppError, AppErrorView};
use crate::json::{parse_outcome, JsonValue, JsonView};
use crate::text::{join, decimal, decimal_digits};
use vstd::prelude::*;
use vstd::string::*;

verus! {

/// The two methods that the service is called with.
#[derive(Debug, Clone, Copy, PartialEq, Eq, Structural)]
pub enum HttpMethod {
    Get,
    Post,
}

/// A request, ready to be sent.
#[derive(Debug, Clone)]
pub struct HttpRequest {
    pub method: HttpMethod,
    pub url: String,
    /// Name and value of each header, in the order in which they are set.
    pub headers: Vec<(String, String)>,
    /// The JSON text of the body, if the request has one.
    pub body: Option<String>,
}

/// An [`HttpRequest`] over sequences of characters.
pub struct HttpRequestView {
    pub method: HttpMethod,
    pub url: Seq<char>,
    pub headers: Seq<(Seq<char>, Seq<char>)>,
    pub body: Option<Seq<char>>,
}

impl View for HttpRequest {
    type V = HttpRequestView;

    open spec fn view(&self) -> HttpRequestView {
        HttpRequestView {
            method: self.method,
            url: self.url@,
            headers: self.headers.deep_view(),
            body: self.body.deep_view(),
        }
    }
}

impl DeepView for HttpRequest {
    type V = HttpRequestView;

    open spec fn deep_view(&self) -> HttpRequestView {
        self@
    }
}

/// How an attempt to send a request ended.
#[derive(Debug, Clone)]
pub enum TransportOutcome {
    /// The service answered.
    Response { status: u16, body: String },
    /// The deadline passed first.
    TimedOut,
    /// No answer: name lookup, connect or TLS failed. Holds the transport's message.
    Failed(String),
}

/// A [`TransportOutcome`] over sequences of characters.
pub enum TransportOutcomeView {
    Response { status: u16, body: Seq<char> },
    TimedOut,
    Failed(Seq<char>),
}

impl View for TransportOutcome {
    type V = TransportOutcomeView;

    open spec fn view(&self) -> TransportOutcomeView {
        match self {
            TransportOutcome::Response { status, body } => TransportOutcomeView::Response {
                status: *status,
                body: body@,
            },
            TransportOutcome::TimedOut => TransportOutcomeView::TimedOut,
            TransportOutcome::Failed(message) => TransportOutcomeView::Failed(message@),
        }
    }
}

/// How the transport is to be set up, once for the lifetime of a client.
#[derive(Debug, Clone)]
pub struct TransportSettings {
    /// The deadline for a whole request, in seconds.
    pub timeout_secs: u64,
    /// The deadline for connecting, in seconds.
    pub connect_timeout_secs: u64,
    /// Whether anything but HTTPS is refused.
    pub https_only: bool,
    /// The tag that names this client to the service.
    pub user_agent: String,
}

impl TransportSettings {
    /// The settings that every client uses: 30 s for a request, 10 s to connect, HTTPS only.
    pub fn standard() -> (settings: TransportSettings)
        ensures
            settings.timeout_secs == 30,
            settings.connect_timeout_secs == 10,
            settings.https_only,
            settings.user_agent@ == "OnetimesecretDesktop/0.1.0"@,
    {
        TransportSettings {
            timeout_secs: 30,
            connect_timeout_secs: 10,
            https_only: true,
            user_agent: String::from_str("OnetimesecretDesktop/0.1.0"),
        }
    }
}

/// Whether `status` reports success.
pub open spec fn is_success(status: u16) -> bool {
    200 <= status <= 299
}

/// The error that a status outside 200 to 299 stands for. `body` is the text of the answer.
pub open spec fn status_error(status: u16, body: Seq<char>) -> AppErrorView {
    if status == 401 {
        AppErrorView::Authentication("Invalid credentials"@)
    } else if status == 403 {
        AppErrorView::PermissionDenied(body)
    } else if status == 404 {
        AppErrorView::NotFound
    } else if status == 400 {
        AppErrorView::InvalidInput(body)
    } else if status == 429 {
        AppErrorView::RateLimited
    } else if 500 <= status <= 599 {
        AppErrorView::ServiceUnavailable(body)
    } else {
        AppErrorView::Api("HTTP "@ + decimal_digits(status as nat) + ": "@ + body)
    }
}

/// The error that a failed attempt stands for, if it failed.
pub open spec fn failure(answer: TransportOutcomeView) -> Option<AppErrorView> {
    match answer {
        TransportOutcomeView::Response { status, body } => if is_success(status) {
            None
        } else {
            Some(status_error(status, body))
        },
        TransportOutcomeView::TimedOut => Some(AppErrorView::Timeout),
        TransportOutcomeView::Failed(message) => Some(AppErrorView::Network(message)),
    }
}

/// The document in a successful answer, or the error that the attempt stands for.
pub open spec fn answer_document(answer: TransportOutcomeView) -> Result<JsonView, AppErrorView> {
    match failure(answer) {
        Some(e) => Err(e),
        None => parse_outcome(answer->body),
    }
}

/// Whether the service answered with success, for an attempt that got an answer at all.
pub open spec fn answer_reachable(answer: TransportOutcomeView) -> Result<bool, AppErrorView> {
    match answer {
        TransportOutcomeView::Response { status, body } => Ok(is_success(status)),
        TransportOutcomeView::TimedOut => Err(AppErrorView::Timeout),
        TransportOutcomeView::Failed(message) => Err(AppErrorView::Network(message)),
    }
}

/// Whether `status` reports success.
pub fn status_is_success(status: u16) -> (success: bool)
    ensures
        success == is_success(status),
{
    200 <= status && status <= 299
}

/// The error for an answer whose status is outside 200 to 299. The kind depends on the
/// status alone; the body only ever supplies the message.
pub fn classify_status(status: u16, body: &str) -> (e: AppError)
    ensures
        e@ == status_error(status, body@),
{
    if status == 401 {
        AppError::Authentication(String::from_str("Invalid credentials"))
    } else if status == 403 {
        AppError::PermissionDenied(String::from_str(body))
    } else if status == 404 {
        AppError::NotFound
    } else if status == 400 {
        AppError::InvalidInput(String::from_str(body))
    } else if status == 429 {
        AppError::RateLimited
    } else if 500 <= status && status <= 599 {
        AppError::ServiceUnavailable(String::from_str(body))
    } else {
        let mut message = join("HTTP ", decimal(status as u64).as_str());
        message.append(": ");
        message.append(body);
        AppError::Api(message)
    }
}

/// The error that `answer` stands for, if the attempt failed.
pub fn check_answer(answer: &TransportOutcome) -> (result: Result<(), AppError>)
    ensures
        match result {
            Ok(_) => failure(answer@) is None,
            Err(e) => failure(answer@) == Some(e@),
        },
{
    match answer {
        TransportOutcome::Response { status, body } => {
            if status_is_success(*status) {
                Ok(())
            } else {
                Err(classify_status(*status, body.as_str()))
            }
        },
        TransportOutcome::TimedOut => Err(AppError::Timeout),
        TransportOutcome::Failed(message) => Err(AppError::Network(message.clone())),
    }
}

/// Reads the answer to a request whose success carries a JSON document: the document of a
/// successful answer, `Serialization` where its body is no JSON, and otherwise the error
/// that the status, the deadline or the transport stands for.
pub fn handle_response(answer: &TransportOutcome) -> (result: Result<JsonValue, AppError>)
    ensures
        outcome(result) == answer_document(answer@),
{
    match answer {
        TransportOutcome::Response { status, body } => {
            if status_is_success(*status) {
                JsonValue::parse(body.as_str())
            } else {
                Err(classify_status(*status, body.as_str()))
            }
        },
        TransportOutcome::TimedOut => Err(AppError::Timeout),
        TransportOutcome::Failed(message) => Err(AppError::Network(message.clone())),
    }
}

/// Reads the answer to a probe: whether the service answered with success, whatever the
/// body holds. Only an attempt without an answer is an error.
pub fn handle_probe(answer: &TransportOutcome) -> (result: Result<bool, AppError>)
    ensures
        outcome(result) == answer_reachable(answer@),
{
    match answer {
        TransportOutcome::Response { status, body } => Ok(status_is_success(*status)),
        TransportOutcome::TimedOut => Err(AppError::Timeout),
        TransportOutcome::Failed(message) => Err(AppError::Network(message.clone())),
    }
}

/// Each status of 400, 401, 403, 404, 429 and 500 to 599 gives one kind of error, and the
/// kind of any status is the same whatever the body holds.
pub proof fn lemma_status_decides_kind(status: u16, body: Seq<char>, other_body: Seq<char>)
    ensures
        status_error(status, body).same_kind(status_error(status, other_body)),
        status == 400 ==> status_error(status, body) is InvalidInput,
        status == 401 ==> status_error(status, body) is Authentication,
        status == 403 ==> status_error(status, body) is PermissionDenied,
        status == 404 ==> status_error(status, body) is NotFound,
        status == 429 ==> status_error(status, body) is RateLimited,
        500 <= status <= 599 ==> status_error(status, body) is ServiceUnavailable,
        !(status == 400 || status == 401 || status == 403 || status == 404 || status == 429 || 500
            <= status <= 599) ==> status_error(status, body) is Api,
{
}

} // verus!
