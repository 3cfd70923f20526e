//! The client of the service's wire protocol: requests and answers in the shapes that the
//! service documents.

pub mod client;
pub mod types;

use crate::error::{outcome, AppError, AppErrorView};
use crate::json::{with_integer, with_text, JsonValue, JsonView, ObjectBuilder};
use crate::storage::{require_https, verdict, ApiCredentials, ApiCredentialsView};
use crate::text::{join, trim_trailing_slashes, without_trailing_slashes};
use crate::transport::{
    answer_document, check_answer, failure, handle_response, HttpMethod, HttpRequest,
    HttpRequestView, TransportOutcome, TransportOutcomeView,
};
use vstd::prelude::*;
use vstd::string::*;

verus! {

/// What is sent to create a secret. Absent members are left out of the body.
#[derive(Debug)]
pub struct CreateSecretRequest {
    pub secret: String,
    pub passphrase: Option<String>,
    pub ttl: Option<u32>,
    pub recipient: Option<String>,
}

/// A [`CreateSecretRequest`] over sequences of characters.
pub struct CreateSecretRequestView {
    pub secret: Seq<char>,
    pub passphrase: Option<Seq<char>>,
    pub ttl: Option<u32>,
    pub recipient: Option<Seq<char>>,
}

impl View for CreateSecretRequest {
    type V = CreateSecretRequestView;

    open spec fn view(&self) -> CreateSecretRequestView {
        CreateSecretRequestView {
            secret: self.secret@,
            passphrase: self.passphrase.deep_view(),
            ttl: self.ttl,
            recipient: self.recipient.deep_view(),
        }
    }
}

/// The time to live as a JSON integer, if there is one.
pub open spec fn ttl_integer(ttl: Option<u32>) -> Option<i64> {
    match ttl {
        Some(t) => Some(t as i64),
        None => None,
    }
}

impl CreateSecretRequestView {
    /// The body of the request: the secret, then each member that is present.
    pub open spec fn body(self) -> JsonView {
        JsonView::Object(
            with_text(
                with_integer(
                    with_text(
                        seq![("secret"@, JsonView::Text(self.secret))],
                        "passphrase"@,
                        self.passphrase,
                    ),
                    "ttl"@,
                    ttl_integer(self.ttl),
                ),
                "recipient"@,
                self.recipient,
            ),
        )
    }
}

impl CreateSecretRequest {
    /// The body of the request.
    pub fn to_json(&self) -> (body: JsonValue)
        ensures
            body@ == self@.body(),
    {
        let mut members = ObjectBuilder::new();
        members.text("secret", self.secret.as_str());
        members.optional_text("passphrase", &self.passphrase);
        match self.ttl {
            Some(ttl) => {
                members.integer("ttl", ttl as i64);
            },
            None => {},
        }
        members.optional_text("recipient", &self.recipient);
        assert(Seq::<(Seq<char>, JsonView)>::empty().push(("secret"@, JsonView::Text(self.secret@)))
            =~= seq![("secret"@, JsonView::Text(self.secret@))]);
        members.build()
    }
}

/// What the service answers when a secret was created.
#[derive(Debug)]
pub struct CreateSecretResponse {
    pub secret_key: String,
    pub metadata_key: String,
    pub ttl: u32,
    pub metadata_ttl: Option<u32>,
    pub secret_ttl: Option<u32>,
    pub state: Option<String>,
    /// Seconds since the epoch.
    pub updated: i64,
    /// Seconds since the epoch.
    pub created: i64,
    pub recipient: Option<Vec<String>>,
    pub passphrase_required: Option<bool>,
}

/// A [`CreateSecretResponse`] over sequences of characters.
pub struct CreateSecretResponseView {
    pub secret_key: Seq<char>,
    pub metadata_key: Seq<char>,
    pub ttl: u32,
    pub metadata_ttl: Option<u32>,
    pub secret_ttl: Option<u32>,
    pub state: Option<Seq<char>>,
    pub updated: i64,
    pub created: i64,
    pub recipient: Option<Seq<Seq<char>>>,
    pub passphrase_required: Option<bool>,
}

impl View for CreateSecretResponse {
    type V = CreateSecretResponseView;

    open spec fn view(&self) -> CreateSecretResponseView {
        CreateSecretResponseView {
            secret_key: self.secret_key@,
            metadata_key: self.metadata_key@,
            ttl: self.ttl,
            metadata_ttl: self.metadata_ttl,
            secret_ttl: self.secret_ttl,
            state: self.state.deep_view(),
            updated: self.updated,
            created: self.created,
            recipient: self.recipient.deep_view(),
            passphrase_required: self.passphrase_required,
        }
    }
}

impl DeepView for CreateSecretResponse {
    type V = CreateSecretResponseView;

    open spec fn deep_view(&self) -> CreateSecretResponseView {
        self@
    }
}

impl CreateSecretResponseView {
    /// The record that `doc` holds, or the error for the first member, in the order of the
    /// fields, that is missing or of the wrong type.
    pub open spec fn decode(doc: JsonView) -> Result<CreateSecretResponseView, AppErrorView> {
        if doc.text_member("secret_key"@) is Err {
            Err(doc.text_member("secret_key"@)->Err_0)
        } else if doc.text_member("metadata_key"@) is Err {
            Err(doc.text_member("metadata_key"@)->Err_0)
        } else if doc.u32_member("ttl"@) is Err {
            Err(doc.u32_member("ttl"@)->Err_0)
        } else if doc.optional_u32_member("metadata_ttl"@) is Err {
            Err(doc.optional_u32_member("metadata_ttl"@)->Err_0)
        } else if doc.optional_u32_member("secret_ttl"@) is Err {
            Err(doc.optional_u32_member("secret_ttl"@)->Err_0)
        } else if doc.optional_text_member("state"@) is Err {
            Err(doc.optional_text_member("state"@)->Err_0)
        } else if doc.integer_member("updated"@) is Err {
            Err(doc.integer_member("updated"@)->Err_0)
        } else if doc.integer_member("created"@) is Err {
            Err(doc.integer_member("created"@)->Err_0)
        } else if doc.optional_texts_member("recipient"@) is Err {
            Err(doc.optional_texts_member("recipient"@)->Err_0)
        } else if doc.optional_bool_member("passphrase_required"@) is Err {
            Err(doc.optional_bool_member("passphrase_required"@)->Err_0)
        } else {
            Ok(
                CreateSecretResponseView {
                    secret_key: doc.text_member("secret_key"@)->Ok_0,
                    metadata_key: doc.text_member("metadata_key"@)->Ok_0,
                    ttl: doc.u32_member("ttl"@)->Ok_0,
                    metadata_ttl: doc.optional_u32_member("metadata_ttl"@)->Ok_0,
                    secret_ttl: doc.optional_u32_member("secret_ttl"@)->Ok_0,
                    state: doc.optional_text_member("state"@)->Ok_0,
                    updated: doc.integer_member("updated"@)->Ok_0,
                    created: doc.integer_member("created"@)->Ok_0,
                    recipient: doc.optional_texts_member("recipient"@)->Ok_0,
                    passphrase_required: doc.optional_bool_member("passphrase_required"@)->Ok_0,
                },
            )
        }
    }
}

impl CreateSecretResponseView {
    /// What the answer to a request to create a secret amounts to.
    pub open spec fn read(answer: TransportOutcomeView) -> Result<
        CreateSecretResponseView,
        AppErrorView,
    > {
        match answer_document(answer) {
            Ok(document) => CreateSecretResponseView::decode(document),
            Err(e) => Err(e),
        }
    }
}

impl CreateSecretResponse {
    /// Reads the record from the document of an answer.
    pub fn from_json(doc: &JsonValue) -> (result: Result<CreateSecretResponse, AppError>)
        ensures
            outcome(result) == CreateSecretResponseView::decode(doc@),
    {
        let secret_key = doc.text_member("secret_key")?;
        let metadata_key = doc.text_member("metadata_key")?;
        let ttl = doc.u32_member("ttl")?;
        let metadata_ttl = doc.optional_u32_member("metadata_ttl")?;
        let secret_ttl = doc.optional_u32_member("secret_ttl")?;
        let state = doc.optional_text_member("state")?;
        let updated = doc.integer_member("updated")?;
        let created = doc.integer_member("created")?;
        let recipient = doc.optional_texts_member("recipient")?;
        let passphrase_required = doc.optional_bool_member("passphrase_required")?;
        Ok(
            CreateSecretResponse {
                secret_key,
                metadata_key,
                ttl,
                metadata_ttl,
                secret_ttl,
                state,
                updated,
                created,
                recipient,
                passphrase_required,
            },
        )
    }
}

/// What is sent to read a secret, which burns it.
#[derive(Debug)]
pub struct RetrieveSecretRequest {
    pub secret_key: String,
    pub passphrase: Option<String>,
}

/// A [`RetrieveSecretRequest`] over sequences of characters.
pub struct RetrieveSecretRequestView {
    pub secret_key: Seq<char>,
    pub passphrase: Option<Seq<char>>,
}

impl View for RetrieveSecretRequest {
    type V = RetrieveSecretRequestView;

    open spec fn view(&self) -> RetrieveSecretRequestView {
        RetrieveSecretRequestView {
            secret_key: self.secret_key@,
            passphrase: self.passphrase.deep_view(),
        }
    }
}

/// The body of a request to read a secret: the passphrase where there is one, and an
/// object without members where there is none.
pub open spec fn passphrase_body(passphrase: Option<Seq<char>>) -> JsonView {
    JsonView::Object(with_text(Seq::empty(), "passphrase"@, passphrase))
}

/// The body of a request to burn a secret.
pub open spec fn burn_body() -> JsonView {
    JsonView::Object(seq![("action"@, JsonView::Text("burn"@))])
}

/// The body of a request to read a secret.
pub fn passphrase_json(passphrase: &Option<String>) -> (body: JsonValue)
    ensures
        body@ == passphrase_body(passphrase.deep_view()),
{
    let mut members = ObjectBuilder::new();
    members.optional_text("passphrase", passphrase);
    members.build()
}

/// The body of a request to burn a secret.
pub fn burn_json() -> (body: JsonValue)
    ensures
        body@ == burn_body(),
{
    let mut members = ObjectBuilder::new();
    members.text("action", "burn");
    assert(Seq::<(Seq<char>, JsonView)>::empty().push(("action"@, JsonView::Text("burn"@)))
        =~= seq![("action"@, JsonView::Text("burn"@))]);
    members.build()
}

/// What the service answers when a secret was read.
#[derive(Debug)]
pub struct RetrieveSecretResponse {
    pub secret_key: String,
    /// The secret itself.
    pub value: String,
    pub metadata_key: Option<String>,
}

/// A [`RetrieveSecretResponse`] over sequences of characters.
pub struct RetrieveSecretResponseView {
    pub secret_key: Seq<char>,
    pub value: Seq<char>,
    pub metadata_key: Option<Seq<char>>,
}

impl View for RetrieveSecretResponse {
    type V = RetrieveSecretResponseView;

    open spec fn view(&self) -> RetrieveSecretResponseView {
        RetrieveSecretResponseView {
            secret_key: self.secret_key@,
            value: self.value@,
            metadata_key: self.metadata_key.deep_view(),
        }
    }
}

impl DeepView for RetrieveSecretResponse {
    type V = RetrieveSecretResponseView;

    open spec fn deep_view(&self) -> RetrieveSecretResponseView {
        self@
    }
}

impl RetrieveSecretResponseView {
    /// The record that `doc` holds, or the error for the first member, in the order of the
    /// fields, that is missing or of the wrong type.
    pub open spec fn decode(doc: JsonView) -> Result<RetrieveSecretResponseView, AppErrorView> {
        if doc.text_member("secret_key"@) is Err {
            Err(doc.text_member("secret_key"@)->Err_0)
        } else if doc.text_member("value"@) is Err {
            Err(doc.text_member("value"@)->Err_0)
        } else if doc.optional_text_member("metadata_key"@) is Err {
            Err(doc.optional_text_member("metadata_key"@)->Err_0)
        } else {
            Ok(
                RetrieveSecretResponseView {
                    secret_key: doc.text_member("secret_key"@)->Ok_0,
                    value: doc.text_member("value"@)->Ok_0,
                    metadata_key: doc.optional_text_member("metadata_key"@)->Ok_0,
                },
            )
        }
    }
}

impl RetrieveSecretResponseView {
    /// What the answer to a request to read a secret amounts to.
    pub open spec fn read(answer: TransportOutcomeView) -> Result<
        RetrieveSecretResponseView,
        AppErrorView,
    > {
        match answer_document(answer) {
            Ok(document) => RetrieveSecretResponseView::decode(document),
            Err(e) => Err(e),
        }
    }
}

impl RetrieveSecretResponse {
    /// Reads the record from the document of an answer.
    pub fn from_json(doc: &JsonValue) -> (result: Result<RetrieveSecretResponse, AppError>)
        ensures
            outcome(result) == RetrieveSecretResponseView::decode(doc@),
    {
        let secret_key = doc.text_member("secret_key")?;
        let value = doc.text_member("value")?;
        let metadata_key = doc.optional_text_member("metadata_key")?;
        Ok(RetrieveSecretResponse { secret_key, value, metadata_key })
    }
}

/// What the owner of a secret learns about it.
#[derive(Debug)]
pub struct SecretMetadata {
    pub secret_key: String,
    pub metadata_key: String,
    pub ttl: u32,
    pub metadata_ttl: Option<u32>,
    pub secret_ttl: Option<u32>,
    /// For example `new`, `received` or `burned`.
    pub state: String,
    /// Seconds since the epoch.
    pub updated: i64,
    /// Seconds since the epoch.
    pub created: i64,
    pub recipient: Option<Vec<String>>,
    pub passphrase_required: Option<bool>,
    /// When the secret was read, in seconds since the epoch.
    pub received: Option<i64>,
}

/// A [`SecretMetadata`] over sequences of characters.
pub struct SecretMetadataView {
    pub secret_key: Seq<char>,
    pub metadata_key: Seq<char>,
    pub ttl: u32,
    pub metadata_ttl: Option<u32>,
    pub secret_ttl: Option<u32>,
    pub state: Seq<char>,
    pub updated: i64,
    pub created: i64,
    pub recipient: Option<Seq<Seq<char>>>,
    pub passphrase_required: Option<bool>,
    pub received: Option<i64>,
}

impl View for SecretMetadata {
    type V = SecretMetadataView;

    open spec fn view(&self) -> SecretMetadataView {
        SecretMetadataView {
            secret_key: self.secret_key@,
            metadata_key: self.metadata_key@,
            ttl: self.ttl,
            metadata_ttl: self.metadata_ttl,
            secret_ttl: self.secret_ttl,
            state: self.state@,
            updated: self.updated,
            created: self.created,
            recipient: self.recipient.deep_view(),
            passphrase_required: self.passphrase_required,
            received: self.received,
        }
    }
}

impl DeepView for SecretMetadata {
    type V = SecretMetadataView;

    open spec fn deep_view(&self) -> SecretMetadataView {
        self@
    }
}

impl SecretMetadataView {
    /// The record that `doc` holds, or the error for the first member, in the order of the
    /// fields, that is missing or of the wrong type.
    pub open spec fn decode(doc: JsonView) -> Result<SecretMetadataView, AppErrorView> {
        if doc.text_member("secret_key"@) is Err {
            Err(doc.text_member("secret_key"@)->Err_0)
        } else if doc.text_member("metadata_key"@) is Err {
            Err(doc.text_member("metadata_key"@)->Err_0)
        } else if doc.u32_member("ttl"@) is Err {
            Err(doc.u32_member("ttl"@)->Err_0)
        } else if doc.optional_u32_member("metadata_ttl"@) is Err {
            Err(doc.optional_u32_member("metadata_ttl"@)->Err_0)
        } else if doc.optional_u32_member("secret_ttl"@) is Err {
            Err(doc.optional_u32_member("secret_ttl"@)->Err_0)
        } else if doc.text_member("state"@) is Err {
            Err(doc.text_member("state"@)->Err_0)
        } else if doc.integer_member("updated"@) is Err {
            Err(doc.integer_member("updated"@)->Err_0)
        } else if doc.integer_member("created"@) is Err {
            Err(doc.integer_member("created"@)->Err_0)
        } else if doc.optional_texts_member("recipient"@) is Err {
            Err(doc.optional_texts_member("recipient"@)->Err_0)
        } else if doc.optional_bool_member("passphrase_required"@) is Err {
            Err(doc.optional_bool_member("passphrase_required"@)->Err_0)
        } else if doc.optional_integer_member("received"@) is Err {
            Err(doc.optional_integer_member("received"@)->Err_0)
        } else {
            Ok(
                SecretMetadataView {
                    secret_key: doc.text_member("secret_key"@)->Ok_0,
                    metadata_key: doc.text_member("metadata_key"@)->Ok_0,
                    ttl: doc.u32_member("ttl"@)->Ok_0,
                    metadata_ttl: doc.optional_u32_member("metadata_ttl"@)->Ok_0,
                    secret_ttl: doc.optional_u32_member("secret_ttl"@)->Ok_0,
                    state: doc.text_member("state"@)->Ok_0,
                    updated: doc.integer_member("updated"@)->Ok_0,
                    created: doc.integer_member("created"@)->Ok_0,
                    recipient: doc.optional_texts_member("recipient"@)->Ok_0,
                    passphrase_required: doc.optional_bool_member("passphrase_required"@)->Ok_0,
                    received: doc.optional_integer_member("received"@)->Ok_0,
                },
            )
        }
    }
}

impl SecretMetadataView {
    /// What the answer to a request for metadata, or to burn a secret, amounts to.
    pub open spec fn read(answer: TransportOutcomeView) -> Result<SecretMetadataView, AppErrorView> {
        match answer_document(answer) {
            Ok(document) => SecretMetadataView::decode(document),
            Err(e) => Err(e),
        }
    }
}

impl SecretMetadata {
    /// Reads the record from the document of an answer.
    pub fn from_json(doc: &JsonValue) -> (result: Result<SecretMetadata, AppError>)
        ensures
            outcome(result) == SecretMetadataView::decode(doc@),
    {
        let secret_key = doc.text_member("secret_key")?;
        let metadata_key = doc.text_member("metadata_key")?;
        let ttl = doc.u32_member("ttl")?;
        let metadata_ttl = doc.optional_u32_member("metadata_ttl")?;
        let secret_ttl = doc.optional_u32_member("secret_ttl")?;
        let state = doc.text_member("state")?;
        let updated = doc.integer_member("updated")?;
        let created = doc.integer_member("created")?;
        let recipient = doc.optional_texts_member("recipient")?;
        let passphrase_required = doc.optional_bool_member("passphrase_required")?;
        let received = doc.optional_integer_member("received")?;
        Ok(
            SecretMetadata {
                secret_key,
                metadata_key,
                ttl,
                metadata_ttl,
                secret_ttl,
                state,
                updated,
                created,
                recipient,
                passphrase_required,
                received,
            },
        )
    }
}

/// The request to `path` below the endpoint of `credentials`, signed with them. A request
/// with a body says that the body is JSON.
pub open spec fn signed_request(
    credentials: ApiCredentialsView,
    method: HttpMethod,
    path: Seq<char>,
    body: Option<JsonView>,
) -> HttpRequestView {
    HttpRequestView {
        method,
        url: without_trailing_slashes(credentials.endpoint) + path,
        headers: match body {
            Some(_) => seq![
                ("Authorization"@, credentials.auth_header()),
                ("Content-Type"@, "application/json"@),
            ],
            None => seq![("Authorization"@, credentials.auth_header())],
        },
        body: match body {
            Some(document) => Some(crate::json::json_text(document)),
            None => None,
        },
    }
}

/// The error for a required text that is empty, if it is empty.
pub open spec fn empty_defect(text: Seq<char>, message: Seq<char>) -> Option<AppErrorView> {
    if text.len() == 0 {
        Some(AppErrorView::InvalidInput(message))
    } else {
        None
    }
}

/// A request, or the defect of the input that kept it from being made.
pub open spec fn request_or(defect: Option<AppErrorView>, request: HttpRequestView) -> Result<
    HttpRequestView,
    AppErrorView,
> {
    match defect {
        Some(e) => Err(e),
        None => Ok(request),
    }
}

/// A client of the service. It holds one set of valid credentials for its whole life and
/// keeps no other state: each answer is read on its own, and nothing is kept of it.
pub struct OtsApiClient {
    credentials: ApiCredentials,
    base_url: String,
    auth_header: String,
}

impl OtsApiClient {
    #[verifier::type_invariant]
    spec fn well_formed(self) -> bool {
        &&& self.credentials@.usable()
        &&& self.base_url@ == without_trailing_slashes(self.credentials@.endpoint)
        &&& self.auth_header@ == self.credentials@.auth_header()
    }

    /// The credentials that the client was built from.
    pub closed spec fn credentials(self) -> ApiCredentialsView {
        self.credentials@
    }

    /// Builds a client. The credentials must be valid, and the endpoint must be reached
    /// over HTTPS: the error is the one that validation reports, or `Configuration` for
    /// any other scheme, so that no client exists that could sign a request in plain
    /// text. The `Authorization` header is computed here, once.
    pub fn new(credentials: ApiCredentials) -> (result: Result<OtsApiClient, AppError>)
        ensures
            result is Ok <==> credentials@.usable(),
            match result {
                Ok(client) => client.credentials() == credentials@,
                Err(e) => credentials@.refusal() == Some(e@),
            },
    {
        let scheme = credentials.endpoint_scheme()?;
        require_https(scheme.as_str())?;
        let base_url = trim_trailing_slashes(credentials.endpoint.as_str());
        let auth_header = credentials.get_auth_header();
        Ok(OtsApiClient { credentials, base_url, auth_header })
    }

    /// The endpoint without the slashes at its end: what every path is appended to.
    pub fn base_url(&self) -> (url: &str)
        ensures
            url@ == without_trailing_slashes(self.credentials().endpoint),
    {
        proof {
            use_type_invariant(self);
        }
        self.base_url.as_str()
    }

    /// The request to `path`, signed, with `body` as its JSON body if there is one.
    pub fn request(&self, method: HttpMethod, path: &str, body: Option<&JsonValue>) -> (request:
        HttpRequest)
        ensures
            request@ == signed_request(self.credentials(), method, path@, body.deep_view()),
    {
        proof {
            use_type_invariant(self);
        }
        let url = join(self.base_url.as_str(), path);
        let mut headers: Vec<(String, String)> = Vec::new();
        headers.push((String::from_str("Authorization"), self.auth_header.clone()));
        match body {
            Some(document) => {
                headers.push(
                    (String::from_str("Content-Type"), String::from_str("application/json")),
                );
                let request = HttpRequest { method, url, headers, body: Some(document.render()) };
                assert(request@.headers =~= seq![
                    ("Authorization"@, self.credentials().auth_header()),
                    ("Content-Type"@, "application/json"@),
                ]);
                request
            },
            None => {
                let request = HttpRequest { method, url, headers, body: None };
                assert(request@.headers =~= seq![
                    ("Authorization"@, self.credentials().auth_header()),
                ]);
                request
            },
        }
    }

    /// Prepares the request that creates a secret. An empty secret is refused here, so
    /// that no request exists for it.
    pub fn create_secret(&self, request: CreateSecretRequest) -> (result: Result<
        HttpRequest,
        AppError,
    >)
        ensures
            request@.secret.len() == 0 ==> result is Err && result->Err_0@ is InvalidInput,
            outcome(result) == request_or(
                empty_defect(request@.secret, "Secret value cannot be empty"@),
                signed_request(
                    self.credentials(),
                    HttpMethod::Post,
                    "/api/v2/share"@,
                    Some(request@.body()),
                ),
            ),
    {
        if request.secret.as_str().is_empty() {
            return Err(AppError::InvalidInput(String::from_str("Secret value cannot be empty")));
        }
        let body = request.to_json();
        Ok(self.request(HttpMethod::Post, "/api/v2/share", Some(&body)))
    }

    /// Prepares the request that reads a secret and thereby burns it. The body is always
    /// a JSON object, with the passphrase where there is one.
    pub fn retrieve_secret(&self, request: RetrieveSecretRequest) -> (result: Result<
        HttpRequest,
        AppError,
    >)
        ensures
            outcome(result) == request_or(
                empty_defect(request@.secret_key, "Secret key cannot be empty"@),
                signed_request(
                    self.credentials(),
                    HttpMethod::Post,
                    "/api/v2/secret/"@ + request@.secret_key,
                    Some(passphrase_body(request@.passphrase)),
                ),
            ),
    {
        if request.secret_key.as_str().is_empty() {
            return Err(AppError::InvalidInput(String::from_str("Secret key cannot be empty")));
        }
        let path = join("/api/v2/secret/", request.secret_key.as_str());
        let body = passphrase_json(&request.passphrase);
        Ok(self.request(HttpMethod::Post, path.as_str(), Some(&body)))
    }

    /// Prepares the request that burns a secret.
    pub fn delete_secret(&self, metadata_key: &str) -> (result: Result<HttpRequest, AppError>)
        ensures
            outcome(result) == request_or(
                empty_defect(metadata_key@, "Metadata key cannot be empty"@),
                signed_request(
                    self.credentials(),
                    HttpMethod::Post,
                    "/api/v2/private/"@ + metadata_key@,
                    Some(burn_body()),
                ),
            ),
    {
        if metadata_key.is_empty() {
            return Err(AppError::InvalidInput(String::from_str("Metadata key cannot be empty")));
        }
        let path = join("/api/v2/private/", metadata_key);
        let body = burn_json();
        Ok(self.request(HttpMethod::Post, path.as_str(), Some(&body)))
    }

    /// Prepares the request for the metadata of a secret. It has no body.
    pub fn get_metadata(&self, metadata_key: &str) -> (result: Result<HttpRequest, AppError>)
        ensures
            outcome(result) == request_or(
                empty_defect(metadata_key@, "Metadata key cannot be empty"@),
                signed_request(
                    self.credentials(),
                    HttpMethod::Post,
                    "/api/v2/private/"@ + metadata_key@,
                    None,
                ),
            ),
    {
        if metadata_key.is_empty() {
            return Err(AppError::InvalidInput(String::from_str("Metadata key cannot be empty")));
        }
        let path = join("/api/v2/private/", metadata_key);
        Ok(self.request(HttpMethod::Post, path.as_str(), None))
    }

    /// Prepares the request that probes the service.
    pub fn test_connection(&self) -> (request: HttpRequest)
        ensures
            request@ == signed_request(
                self.credentials(),
                HttpMethod::Get,
                "/api/v2/status"@,
                None,
            ),
    {
        self.request(HttpMethod::Get, "/api/v2/status", None)
    }

    /// Reads the answer to a request made by [`OtsApiClient::create_secret`].
    pub fn read_created(&self, answer: &TransportOutcome) -> (result: Result<
        CreateSecretResponse,
        AppError,
    >)
        ensures
            outcome(result) == CreateSecretResponseView::read(answer@),
    {
        let document = handle_response(answer)?;
        CreateSecretResponse::from_json(&document)
    }

    /// Reads the answer to a request made by [`OtsApiClient::retrieve_secret`]. Nothing
    /// of an earlier answer is kept: an answer with status 404 is `NotFound` whatever
    /// was read before.
    pub fn read_retrieved(&self, answer: &TransportOutcome) -> (result: Result<
        RetrieveSecretResponse,
        AppError,
    >)
        ensures
            outcome(result) == RetrieveSecretResponseView::read(answer@),
    {
        let document = handle_response(answer)?;
        RetrieveSecretResponse::from_json(&document)
    }

    /// Reads the answer to a request made by [`OtsApiClient::get_metadata`] or
    /// [`OtsApiClient::delete_secret`].
    pub fn read_metadata(&self, answer: &TransportOutcome) -> (result: Result<
        SecretMetadata,
        AppError,
    >)
        ensures
            outcome(result) == SecretMetadataView::read(answer@),
    {
        let document = handle_response(answer)?;
        SecretMetadata::from_json(&document)
    }

    /// Reads the answer to a request made by [`OtsApiClient::test_connection`]: success is
    /// a status from 200 to 299, whatever the body holds.
    pub fn read_connection(&self, answer: &TransportOutcome) -> (result: Result<(), AppError>)
        ensures
            outcome(result) == verdict(failure(answer@)),
    {
        check_answer(answer)
    }
}

} // verus!
