//! The client that the desktop application works with: built from the stored
//! configuration, strict about what it sends, and answering with the link to share.

use super::types::{
    CreateSecretRequest, CreateSecretRequestView, CreateSecretResponse, CreateSecretResponseView,
    RetrieveSecretRequest, RetrieveSecretResponse, RetrieveSecretResponseView, SecretMetadata,
    SecretMetadataView,
};
use super::{empty_defect, passphrase_body, passphrase_json, request_or, signed_request, OtsApiClient};
use crate::error::{outcome, AppError, AppErrorView};
use crate::storage::{ApiConfig, ApiConfigView, ApiCredentials, ApiCredentialsView};
use crate::text::{join, without_trailing_slashes};
use crate::transport::{
    answer_reachable, handle_probe, handle_response, HttpMethod, HttpRequest, TransportOutcome,
    TransportOutcomeView,
};
use vstd::prelude::*;
use vstd::string::*;

verus! {

/// The longest time to live that the service accepts: seven days, in seconds.
pub const MAX_TTL_SECONDS: u32 = 604800;

/// Whether the client checks the time to live of a new secret before it sends it.
#[derive(Debug, Clone, Copy, PartialEq, Eq, Structural)]
pub enum TtlPolicy {
    /// Any time to live is sent; the service decides.
    Unchecked,
    /// A time to live outside 1 to [`MAX_TTL_SECONDS`] is refused.
    Bounded,
}

/// The credentials in a stored configuration that has its key.
pub open spec fn credentials_of(config: ApiConfigView) -> ApiCredentialsView
    recommends
        config.api_key is Some,
{
    ApiCredentialsView {
        identity: config.username,
        secret_key: config.api_key->Some_0,
        endpoint: config.base_url,
    }
}

/// Why no client can be built from `config`, if none can: the key is missing, the
/// credentials are not valid, or the endpoint is not reached over HTTPS.
pub open spec fn client_defect(config: ApiConfigView) -> Option<AppErrorView> {
    if config.api_key is None {
        Some(AppErrorView::Authentication("No API key configured"@))
    } else {
        credentials_of(config).refusal()
    }
}

/// Why no client can be built from what the vault holds, if none can.
pub open spec fn stored_defect(stored: Option<ApiConfigView>) -> Option<AppErrorView> {
    match stored {
        None => Some(AppErrorView::Configuration("No API configuration found"@)),
        Some(config) => client_defect(config),
    }
}

/// Why a secret is not sent, if it is not: it is empty, or its time to live is out of the
/// bounds that `policy` sets.
pub open spec fn create_defect(policy: TtlPolicy, request: CreateSecretRequestView) -> Option<
    AppErrorView,
> {
    if request.secret.len() == 0 {
        Some(AppErrorView::InvalidInput("Secret cannot be empty"@))
    } else if policy == TtlPolicy::Bounded && (request.ttl == 0 || request.ttl > MAX_TTL_SECONDS) {
        Some(
            AppErrorView::InvalidInput(
                "TTL must be between 1 second and 7 days (604800 seconds)"@,
            ),
        )
    } else {
        None
    }
}

/// The client of the desktop application.
pub struct OtsClient {
    wire: OtsApiClient,
    ttl_policy: TtlPolicy,
}

impl OtsClient {
    /// The credentials that the client was built from.
    pub closed spec fn credentials(self) -> ApiCredentialsView {
        self.wire.credentials()
    }

    /// Whether the client checks the time to live.
    pub closed spec fn ttl_policy(self) -> TtlPolicy {
        self.ttl_policy
    }

    /// The endpoint without the slashes at its end.
    pub open spec fn base_url(self) -> Seq<char> {
        without_trailing_slashes(self.credentials().endpoint)
    }

    /// Builds a client from what the vault holds. Nothing stored is `Configuration`; a
    /// configuration without its key is `Authentication`.
    pub fn from_config(stored: Option<ApiConfig>) -> (result: Result<OtsClient, AppError>)
        ensures
            match result {
                Ok(client) => {
                    &&& stored_defect(stored.deep_view()) is None
                    &&& client.credentials() == credentials_of(stored->Some_0@)
                    &&& client.ttl_policy() == TtlPolicy::Bounded
                },
                Err(e) => stored_defect(stored.deep_view()) == Some(e@),
            },
    {
        match stored {
            None => Err(AppError::Configuration(String::from_str("No API configuration found"))),
            Some(config) => OtsClient::new(config),
        }
    }

    /// Builds a client that checks the time to live. The configuration must hold a key,
    /// user name, key and base URL must be valid credentials, and the base URL must be
    /// reached over HTTPS.
    pub fn new(config: ApiConfig) -> (result: Result<OtsClient, AppError>)
        ensures
            match result {
                Ok(client) => {
                    &&& client_defect(config@) is None
                    &&& client.credentials() == credentials_of(config@)
                    &&& client.ttl_policy() == TtlPolicy::Bounded
                },
                Err(e) => client_defect(config@) == Some(e@),
            },
    {
        let ApiConfig { base_url, username, api_key } = config;
        match api_key {
            None => Err(AppError::Authentication(String::from_str("No API key configured"))),
            Some(key) => {
                let credentials = ApiCredentials {
                    identity: username,
                    secret_key: key,
                    endpoint: base_url,
                };
                let wire = OtsApiClient::new(credentials)?;
                Ok(OtsClient { wire, ttl_policy: TtlPolicy::Bounded })
            },
        }
    }

    /// The same client with another policy for the time to live.
    pub fn with_ttl_policy(self, policy: TtlPolicy) -> (client: OtsClient)
        ensures
            client.credentials() == self.credentials(),
            client.ttl_policy() == policy,
    {
        OtsClient { wire: self.wire, ttl_policy: policy }
    }

    /// Prepares the request that probes the service.
    pub fn test_connection(&self) -> (request: HttpRequest)
        ensures
            request@ == signed_request(
                self.credentials(),
                HttpMethod::Get,
                "/api/v2/status"@,
                None,
            ),
    {
        self.wire.test_connection()
    }

    /// Reads the answer to a probe: whether the status is one of success. Only an attempt
    /// without an answer is an error.
    pub fn read_connection(&self, answer: &TransportOutcome) -> (result: Result<bool, AppError>)
        ensures
            outcome(result) == answer_reachable(answer@),
    {
        handle_probe(answer)
    }

    /// Prepares the request that creates a secret. The input is checked first: for an
    /// empty secret, or a time to live that the policy refuses, there is no request.
    pub fn create_secret(&self, request: &CreateSecretRequest) -> (result: Result<
        HttpRequest,
        AppError,
    >)
        ensures
            request@.secret.len() == 0 ==> result is Err && result->Err_0@ is InvalidInput,
            outcome(result) == request_or(
                create_defect(self.ttl_policy(), request@),
                signed_request(
                    self.credentials(),
                    HttpMethod::Post,
                    "/api/v2/share"@,
                    Some(request@.body()),
                ),
            ),
    {
        if request.secret.as_str().is_empty() {
            return Err(AppError::InvalidInput(String::from_str("Secret cannot be empty")));
        }
        let bounded = match self.ttl_policy {
            TtlPolicy::Bounded => true,
            TtlPolicy::Unchecked => false,
        };
        if bounded && (request.ttl == 0 || request.ttl > MAX_TTL_SECONDS) {
            return Err(
                AppError::InvalidInput(
                    String::from_str("TTL must be between 1 second and 7 days (604800 seconds)"),
                ),
            );
        }
        let body = request.to_json();
        Ok(self.wire.request(HttpMethod::Post, "/api/v2/share", Some(&body)))
    }

    /// Reads the answer to a request made by [`OtsClient::create_secret`] and builds the
    /// link under the client's endpoint.
    pub fn read_created(&self, answer: &TransportOutcome) -> (result: Result<
        CreateSecretResponse,
        AppError,
    >)
        ensures
            outcome(result) == CreateSecretResponseView::read(answer@, self.base_url()),
    {
        let document = handle_response(answer)?;
        CreateSecretResponse::from_json(&document, self.wire.base_url())
    }

    /// Prepares the request that reads a secret and thereby burns it. The body is always
    /// a JSON object, with the passphrase where there is one.
    pub fn retrieve_secret(&self, request: &RetrieveSecretRequest) -> (result: Result<
        HttpRequest,
        AppError,
    >)
        ensures
            outcome(result) == request_or(
                empty_defect(request@.key, "Secret key cannot be empty"@),
                signed_request(
                    self.credentials(),
                    HttpMethod::Post,
                    "/api/v2/secret/"@ + request@.key,
                    Some(passphrase_body(request@.passphrase)),
                ),
            ),
    {
        if request.key.as_str().is_empty() {
            return Err(AppError::InvalidInput(String::from_str("Secret key cannot be empty")));
        }
        let path = join("/api/v2/secret/", request.key.as_str());
        let body = passphrase_json(&request.passphrase);
        Ok(self.wire.request(HttpMethod::Post, path.as_str(), Some(&body)))
    }

    /// Reads the answer to a request made by [`OtsClient::retrieve_secret`]. The client
    /// keeps nothing of an answer: what this returns depends on `answer` alone.
    pub fn read_retrieved(&self, answer: &TransportOutcome) -> (result: Result<
        RetrieveSecretResponse,
        AppError,
    >)
        ensures
            outcome(result) == RetrieveSecretResponseView::read(answer@),
    {
        let document = handle_response(answer)?;
        RetrieveSecretResponse::from_json(&document)
    }

    /// Prepares the request for the metadata of a secret, which does not burn it.
    pub fn get_metadata(&self, metadata_key: &str) -> (result: Result<HttpRequest, AppError>)
        ensures
            outcome(result) == request_or(
                empty_defect(metadata_key@, "Metadata key cannot be empty"@),
                signed_request(
                    self.credentials(),
                    HttpMethod::Post,
                    "/api/v2/private/"@ + metadata_key@,
                    None,
                ),
            ),
    {
        self.wire.get_metadata(metadata_key)
    }

    /// Reads the answer to a request made by [`OtsClient::get_metadata`].
    pub fn read_metadata(&self, answer: &TransportOutcome) -> (result: Result<
        SecretMetadata,
        AppError,
    >)
        ensures
            outcome(result) == SecretMetadataView::read(answer@),
    {
        let document = handle_response(answer)?;
        SecretMetadata::from_json(&document)
    }
}

/// Reading an answer depends on that answer alone. So where a secret is read twice and
/// the service answers the second request with status 404, the second result is `NotFound`,
/// whatever the first answer held and whatever the body of the second holds.
pub proof fn lemma_second_read_is_not_found(first: TransportOutcomeView, second_body: Seq<char>)
    ensures
        RetrieveSecretResponseView::read(
            TransportOutcomeView::Response { status: 404, body: second_body },
        ) == Err::<RetrieveSecretResponseView, AppErrorView>(AppErrorView::NotFound),
        super::RetrieveSecretResponseView::read(
            TransportOutcomeView::Response { status: 404, body: second_body },
        ) == Err::<super::RetrieveSecretResponseView, AppErrorView>(AppErrorView::NotFound),
{
}

} // verus!
