//! The closed set of failures and their form for callers outside the process.

use vstd::prelude::*;
use vstd::std_specs::convert::FromSpecImpl;
use vstd::string::*;

verus! {

/// Every failure that leaves the vault or the client.
#[derive(Debug, Clone)]
pub enum AppError {
    /// The secure store refused or failed an access.
    Storage(String),
    /// The service answered with a status that has no kind of its own.
    Api(String),
    /// The request never got an answer: name lookup, connect or TLS failed.
    Network(String),
    /// A body that should be JSON of a known shape is not.
    Serialization(String),
    /// The caller, or the service with status 400, rejected the input.
    InvalidInput(String),
    /// The credentials are missing or were refused (status 401).
    Authentication(String),
    /// No usable configuration.
    Configuration(String),
    /// Status 404: the secret does not exist, or was already read or burned.
    NotFound,
    /// Status 429.
    RateLimited,
    /// Status 500 to 599.
    ServiceUnavailable(String),
    /// The request ran into its deadline.
    Timeout,
    /// Status 403.
    PermissionDenied(String),
}

/// An [`AppError`] with its message as a sequence of characters.
pub enum AppErrorView {
    Storage(Seq<char>),
    Api(Seq<char>),
    Network(Seq<char>),
    Serialization(Seq<char>),
    InvalidInput(Seq<char>),
    Authentication(Seq<char>),
    Configuration(Seq<char>),
    NotFound,
    RateLimited,
    ServiceUnavailable(Seq<char>),
    Timeout,
    PermissionDenied(Seq<char>),
}

impl View for AppError {
    type V = AppErrorView;

    open spec fn view(&self) -> AppErrorView {
        match self {
            AppError::Storage(m) => AppErrorView::Storage(m@),
            AppError::Api(m) => AppErrorView::Api(m@),
            AppError::Network(m) => AppErrorView::Network(m@),
            AppError::Serialization(m) => AppErrorView::Serialization(m@),
            AppError::InvalidInput(m) => AppErrorView::InvalidInput(m@),
            AppError::Authentication(m) => AppErrorView::Authentication(m@),
            AppError::Configuration(m) => AppErrorView::Configuration(m@),
            AppError::NotFound => AppErrorView::NotFound,
            AppError::RateLimited => AppErrorView::RateLimited,
            AppError::ServiceUnavailable(m) => AppErrorView::ServiceUnavailable(m@),
            AppError::Timeout => AppErrorView::Timeout,
            AppError::PermissionDenied(m) => AppErrorView::PermissionDenied(m@),
        }
    }
}

/// The result of an operation of this library.
pub type AppResult<T> = Result<T, AppError>;

impl DeepView for AppError {
    type V = AppErrorView;

    open spec fn deep_view(&self) -> AppErrorView {
        self@
    }
}

/// A result with both of its sides as mathematical values.
pub open spec fn outcome<T: DeepView>(result: Result<T, AppError>) -> Result<T::V, AppErrorView> {
    match result {
        Ok(value) => Ok(value.deep_view()),
        Err(e) => Err(e@),
    }
}

impl AppErrorView {
    /// The tag by which a caller tells the kinds apart.
    pub open spec fn kind(self) -> Seq<char> {
        match self {
            AppErrorView::Storage(_) => "Storage"@,
            AppErrorView::Api(_) => "Api"@,
            AppErrorView::Network(_) => "Network"@,
            AppErrorView::Serialization(_) => "Serialization"@,
            AppErrorView::InvalidInput(_) => "InvalidInput"@,
            AppErrorView::Authentication(_) => "Authentication"@,
            AppErrorView::Configuration(_) => "Configuration"@,
            AppErrorView::NotFound => "NotFound"@,
            AppErrorView::RateLimited => "RateLimited"@,
            AppErrorView::ServiceUnavailable(_) => "ServiceUnavailable"@,
            AppErrorView::Timeout => "Timeout"@,
            AppErrorView::PermissionDenied(_) => "PermissionDenied"@,
        }
    }

    /// The text shown to a person.
    pub open spec fn text(self) -> Seq<char> {
        match self {
            AppErrorView::Storage(m) => "Storage error: "@ + m,
            AppErrorView::Api(m) => "API error: "@ + m,
            AppErrorView::Network(m) => "Network error: "@ + m,
            AppErrorView::Serialization(m) => "Serialization error: "@ + m,
            AppErrorView::InvalidInput(m) => "Invalid input: "@ + m,
            AppErrorView::Authentication(m) => "Authentication failed: "@ + m,
            AppErrorView::Configuration(m) => "Configuration error: "@ + m,
            AppErrorView::NotFound => "Not found"@,
            AppErrorView::RateLimited => "Rate limit exceeded"@,
            AppErrorView::ServiceUnavailable(m) => "Service unavailable: "@ + m,
            AppErrorView::Timeout => "Request timed out"@,
            AppErrorView::PermissionDenied(m) => "Permission denied: "@ + m,
        }
    }

    /// Whether two errors are of one kind, whatever their messages.
    pub open spec fn same_kind(self, other: AppErrorView) -> bool {
        match self {
            AppErrorView::Storage(_) => other is Storage,
            AppErrorView::Api(_) => other is Api,
            AppErrorView::Network(_) => other is Network,
            AppErrorView::Serialization(_) => other is Serialization,
            AppErrorView::InvalidInput(_) => other is InvalidInput,
            AppErrorView::Authentication(_) => other is Authentication,
            AppErrorView::Configuration(_) => other is Configuration,
            AppErrorView::NotFound => other is NotFound,
            AppErrorView::RateLimited => other is RateLimited,
            AppErrorView::ServiceUnavailable(_) => other is ServiceUnavailable,
            AppErrorView::Timeout => other is Timeout,
            AppErrorView::PermissionDenied(_) => other is PermissionDenied,
        }
    }
}

impl AppError {
    /// The tag by which a caller tells the kinds apart.
    pub fn kind(&self) -> (tag: String)
        ensures
            tag@ == self@.kind(),
    {
        let tag = match self {
            AppError::Storage(_) => "Storage",
            AppError::Api(_) => "Api",
            AppError::Network(_) => "Network",
            AppError::Serialization(_) => "Serialization",
            AppError::InvalidInput(_) => "InvalidInput",
            AppError::Authentication(_) => "Authentication",
            AppError::Configuration(_) => "Configuration",
            AppError::NotFound => "NotFound",
            AppError::RateLimited => "RateLimited",
            AppError::ServiceUnavailable(_) => "ServiceUnavailable",
            AppError::Timeout => "Timeout",
            AppError::PermissionDenied(_) => "PermissionDenied",
        };
        String::from_str(tag)
    }

    /// The text shown to a person: what went wrong, then the message where the kind has one.
    pub fn to_string(&self) -> (text: String)
        ensures
            text@ == self@.text(),
    {
        match self {
            AppError::Storage(m) => crate::text::join("Storage error: ", m.as_str()),
            AppError::Api(m) => crate::text::join("API error: ", m.as_str()),
            AppError::Network(m) => crate::text::join("Network error: ", m.as_str()),
            AppError::Serialization(m) => crate::text::join("Serialization error: ", m.as_str()),
            AppError::InvalidInput(m) => crate::text::join("Invalid input: ", m.as_str()),
            AppError::Authentication(m) => crate::text::join(
                "Authentication failed: ",
                m.as_str(),
            ),
            AppError::Configuration(m) => crate::text::join("Configuration error: ", m.as_str()),
            AppError::NotFound => String::from_str("Not found"),
            AppError::RateLimited => String::from_str("Rate limit exceeded"),
            AppError::ServiceUnavailable(m) => crate::text::join(
                "Service unavailable: ",
                m.as_str(),
            ),
            AppError::Timeout => String::from_str("Request timed out"),
            AppError::PermissionDenied(m) => crate::text::join("Permission denied: ", m.as_str()),
        }
    }
}

/// An error as it crosses the process boundary: its text and the tag of its kind.
#[derive(Debug, Clone)]
pub struct ErrorResponse {
    pub error: String,
    pub kind: String,
}

/// An [`ErrorResponse`] over sequences of characters.
pub struct ErrorResponseView {
    pub error: Seq<char>,
    pub kind: Seq<char>,
}

impl View for ErrorResponse {
    type V = ErrorResponseView;

    open spec fn view(&self) -> ErrorResponseView {
        ErrorResponseView { error: self.error@, kind: self.kind@ }
    }
}

impl ErrorResponseView {
    /// The error as a JSON object.
    pub open spec fn document(self) -> crate::json::JsonView {
        crate::json::JsonView::Object(
            seq![
                ("error"@, crate::json::JsonView::Text(self.error)),
                ("kind"@, crate::json::JsonView::Text(self.kind)),
            ],
        )
    }
}

impl ErrorResponse {
    /// The error as a JSON object.
    pub fn to_json(&self) -> (doc: crate::json::JsonValue)
        ensures
            doc@ == self@.document(),
    {
        let mut members = crate::json::ObjectBuilder::new();
        members.text("error", self.error.as_str());
        members.text("kind", self.kind.as_str());
        assert(members.members() =~= seq![
            ("error"@, crate::json::JsonView::Text(self.error@)),
            ("kind"@, crate::json::JsonView::Text(self.kind@)),
        ]);
        members.build()
    }
}

/// The wire form of `err`.
pub open spec fn response_of(err: AppErrorView) -> ErrorResponseView {
    ErrorResponseView { error: err.text(), kind: err.kind() }
}

impl FromSpecImpl<AppError> for ErrorResponse {
    open spec fn obeys_from_spec() -> bool {
        false
    }

    open spec fn from_spec(err: AppError) -> ErrorResponse {
        arbitrary()
    }
}

impl From<AppError> for ErrorResponse {
    fn from(err: AppError) -> (response: ErrorResponse)
        ensures
            response@ == response_of(err@),
    {
        ErrorResponse { error: err.to_string(), kind: err.kind() }
    }
}

/// Two errors carry the same tag exactly when they are of the same kind: a caller can branch
/// on the tag alone.
pub proof fn lemma_kind_tells_kinds_apart(a: AppErrorView, b: AppErrorView)
    ensures
        a.kind() == b.kind() <==> a.same_kind(b),
{
    reveal_strlit("Storage");
    reveal_strlit("Api");
    reveal_strlit("Network");
    reveal_strlit("Serialization");
    reveal_strlit("InvalidInput");
    reveal_strlit("Authentication");
    reveal_strlit("Configuration");
    reveal_strlit("NotFound");
    reveal_strlit("RateLimited");
    reveal_strlit("ServiceUnavailable");
    reveal_strlit("Timeout");
    reveal_strlit("PermissionDenied");
    if a.kind() == b.kind() {
        assert(a.kind().len() == b.kind().len());
        assert(a.kind()[0] == b.kind()[0]);
        assert(a.kind()[1] == b.kind()[1]);
    }
}

} // verus!
