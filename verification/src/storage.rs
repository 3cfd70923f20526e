//! Credentials, their validation, and the vault that keeps them in the platform's secure
//! store: the API key in one slot, the rest of the configuration in another.

use crate::codec::{base64_encode, base64_standard, parse_url, url_parse_error, url_scheme};
use crate::error::{outcome, AppError, AppErrorView};
use crate::json::{parse_outcome, JsonValue, JsonView, ObjectBuilder};
use crate::text::{join, contains_char};
use vstd::prelude::*;
use vstd::string::*;
use vstd::utf8::encode_utf8;

verus! {

/// The credentials that a client signs its requests with.
#[derive(Debug, Clone)]
pub struct ApiCredentials {
    /// Who calls: by convention an e-mail address.
    pub identity: String,
    /// The API key.
    pub secret_key: String,
    /// The base URL of the service.
    pub endpoint: String,
}

/// [`ApiCredentials`] over sequences of characters.
pub struct ApiCredentialsView {
    pub identity: Seq<char>,
    pub secret_key: Seq<char>,
    pub endpoint: Seq<char>,
}

impl View for ApiCredentials {
    type V = ApiCredentialsView;

    open spec fn view(&self) -> ApiCredentialsView {
        ApiCredentialsView {
            identity: self.identity@,
            secret_key: self.secret_key@,
            endpoint: self.endpoint@,
        }
    }
}

impl DeepView for ApiCredentials {
    type V = ApiCredentialsView;

    open spec fn deep_view(&self) -> ApiCredentialsView {
        self@
    }
}

/// The configuration as the vault keeps it. The API key may be missing: a configuration
/// can be stored before its key is known.
#[derive(Debug, Clone)]
pub struct ApiConfig {
    pub base_url: String,
    pub username: String,
    pub api_key: Option<String>,
}

/// An [`ApiConfig`] over sequences of characters.
pub struct ApiConfigView {
    pub base_url: Seq<char>,
    pub username: Seq<char>,
    pub api_key: Option<Seq<char>>,
}

impl View for ApiConfig {
    type V = ApiConfigView;

    open spec fn view(&self) -> ApiConfigView {
        ApiConfigView {
            base_url: self.base_url@,
            username: self.username@,
            api_key: self.api_key.deep_view(),
        }
    }
}

impl DeepView for ApiConfig {
    type V = ApiConfigView;

    open spec fn deep_view(&self) -> ApiConfigView {
        self@
    }
}

/// The error for an endpoint that is no absolute URL, if it is none.
pub open spec fn endpoint_error(endpoint: Seq<char>) -> Option<AppErrorView> {
    match url_parse_error(endpoint) {
        Some(message) => Some(AppErrorView::InvalidInput("Invalid URL: "@ + message)),
        None => None,
    }
}

impl ApiCredentialsView {
    /// Whether these credentials pass validation: nothing is empty and the endpoint is an
    /// absolute URL.
    pub open spec fn valid(self) -> bool {
        &&& self.identity.len() > 0
        &&& self.secret_key.len() > 0
        &&& self.endpoint.len() > 0
        &&& url_parse_error(self.endpoint) is None
    }

    /// What is wrong with these credentials, if anything: the first of an empty identity,
    /// an empty key, an empty endpoint and an endpoint that is no absolute URL.
    pub open spec fn defect(self) -> Option<AppErrorView> {
        if self.identity.len() == 0 {
            Some(AppErrorView::InvalidInput("Identity cannot be empty"@))
        } else if self.secret_key.len() == 0 {
            Some(AppErrorView::InvalidInput("API key cannot be empty"@))
        } else if self.endpoint.len() == 0 {
            Some(AppErrorView::InvalidInput("Endpoint cannot be empty"@))
        } else {
            endpoint_error(self.endpoint)
        }
    }

    /// The value of the `Authorization` header: `Basic`, then the Base64 text of identity,
    /// colon and key.
    pub open spec fn auth_header(self) -> Seq<char> {
        "Basic "@ + base64_standard(encode_utf8(self.identity + ":"@ + self.secret_key))
    }

    /// Whether a client may send these credentials: they are valid and the endpoint is
    /// reached over HTTPS.
    pub open spec fn usable(self) -> bool {
        self.valid() && url_scheme(self.endpoint) == "https"@
    }

    /// Why no client is built from these credentials, if none is: their defect, or, for
    /// valid credentials, an endpoint that is not reached over HTTPS.
    pub open spec fn refusal(self) -> Option<AppErrorView> {
        match self.defect() {
            Some(defect) => Some(defect),
            None => scheme_error(url_scheme(self.endpoint)),
        }
    }
}

/// The error for an endpoint with the scheme `scheme`, if the scheme is not `https`.
pub open spec fn scheme_error(scheme: Seq<char>) -> Option<AppErrorView> {
    if scheme == "https"@ {
        None
    } else {
        Some(AppErrorView::Configuration("Endpoint must use https"@))
    }
}

/// What the vault asks of a user name beyond that it is not empty. The service itself
/// takes any identity; that it be an e-mail address is a rule of the application.
#[derive(Debug, Clone, Copy, PartialEq, Eq, Structural)]
pub enum IdentityPolicy {
    /// Any text that is not empty.
    Any,
    /// A text with an `@` in it.
    Email,
}

impl ApiConfigView {
    /// Whether the vault accepts this configuration under `policy`: the base URL is a
    /// non-empty absolute URL, the user name is not empty and has an `@` where the policy
    /// asks for one, and the key, if there is one, is not empty.
    pub open spec fn valid_under(self, policy: IdentityPolicy) -> bool {
        &&& self.base_url.len() > 0
        &&& url_parse_error(self.base_url) is None
        &&& self.username.len() > 0
        &&& (policy == IdentityPolicy::Email ==> self.username.contains('@'))
        &&& self.api_key != Some(Seq::<char>::empty())
    }

    /// Whether the vault accepts this configuration where user names are e-mail addresses.
    pub open spec fn valid(self) -> bool {
        self.valid_under(IdentityPolicy::Email)
    }

    /// What is wrong with this configuration under `policy`, if anything, in the order in
    /// which the vault looks.
    pub open spec fn defect_under(self, policy: IdentityPolicy) -> Option<AppErrorView> {
        if self.base_url.len() == 0 {
            Some(AppErrorView::InvalidInput("Base URL cannot be empty"@))
        } else if endpoint_error(self.base_url) is Some {
            endpoint_error(self.base_url)
        } else if self.username.len() == 0 {
            Some(AppErrorView::InvalidInput("Username cannot be empty"@))
        } else if policy == IdentityPolicy::Email && !self.username.contains('@') {
            Some(AppErrorView::InvalidInput("Username must be a valid email address"@))
        } else if self.api_key == Some(Seq::<char>::empty()) {
            Some(AppErrorView::InvalidInput("API key cannot be empty"@))
        } else {
            None
        }
    }

    /// What is wrong with this configuration, if anything, where user names are e-mail
    /// addresses.
    pub open spec fn defect(self) -> Option<AppErrorView> {
        self.defect_under(IdentityPolicy::Email)
    }
}

/// `result` as `Ok` where there is no defect, and as the defect otherwise.
pub open spec fn verdict(defect: Option<AppErrorView>) -> Result<(), AppErrorView> {
    match defect {
        None => Ok(()),
        Some(e) => Err(e),
    }
}

/// The error for an endpoint that `url` could not parse, from the message of its error.
pub fn invalid_url(message: &str) -> (e: AppError)
    ensures
        e@ == AppErrorView::InvalidInput("Invalid URL: "@ + message@),
{
    AppError::InvalidInput(join("Invalid URL: ", message))
}

/// The value of an `Authorization` header for basic authentication, from the Base64 text
/// of identity, colon and key.
pub fn basic_header(encoded: &str) -> (header: String)
    ensures
        header@ == "Basic "@ + encoded@,
{
    join("Basic ", encoded)
}

/// Refuses every scheme but `https`: a client never signs a request that would travel in
/// plain text.
pub fn require_https(scheme: &str) -> (result: Result<(), AppError>)
    ensures
        outcome(result) == verdict(scheme_error(scheme@)),
        result is Ok <==> scheme@ == "https"@,
{
    let wanted = String::from_str("https");
    let given = String::from_str(scheme);
    if given == wanted {
        Ok(())
    } else {
        Err(AppError::Configuration(String::from_str("Endpoint must use https")))
    }
}

/// Checks that `endpoint` is an absolute URL and gives its scheme.
fn check_endpoint(endpoint: &str) -> (result: Result<String, AppError>)
    ensures
        match result {
            Ok(scheme) => endpoint_error(endpoint@) is None && scheme@ == url_scheme(endpoint@),
            Err(e) => endpoint_error(endpoint@) == Some(e@),
        },
{
    match parse_url(endpoint) {
        Ok(scheme) => Ok(scheme),
        Err(message) => Err(invalid_url(message.as_str())),
    }
}

impl ApiCredentials {
    /// Checks the credentials. They pass exactly when identity, key and endpoint are not
    /// empty and the endpoint is an absolute URL; every failure is `InvalidInput`.
    pub fn validate(&self) -> (result: Result<(), AppError>)
        ensures
            outcome(result) == verdict(self@.defect()),
            result is Ok <==> self@.valid(),
            result matches Err(e) ==> e@ is InvalidInput,
    {
        match self.endpoint_scheme() {
            Ok(_) => Ok(()),
            Err(e) => Err(e),
        }
    }

    /// Checks the credentials as [`ApiCredentials::validate`] does and gives the scheme of
    /// the endpoint.
    pub fn endpoint_scheme(&self) -> (result: Result<String, AppError>)
        ensures
            match result {
                Ok(scheme) => self@.valid() && scheme@ == url_scheme(self@.endpoint),
                Err(e) => self@.defect() == Some(e@) && e@ is InvalidInput,
            },
    {
        if self.identity.as_str().is_empty() {
            return Err(AppError::InvalidInput(String::from_str("Identity cannot be empty")));
        }
        if self.secret_key.as_str().is_empty() {
            return Err(AppError::InvalidInput(String::from_str("API key cannot be empty")));
        }
        if self.endpoint.as_str().is_empty() {
            return Err(AppError::InvalidInput(String::from_str("Endpoint cannot be empty")));
        }
        check_endpoint(self.endpoint.as_str())
    }

    /// Identity, colon and key: what is encoded for the `Authorization` header.
    pub fn pair(&self) -> (pair: String)
        ensures
            pair@ == self@.identity + ":"@ + self@.secret_key,
    {
        let mut pair = join(self.identity.as_str(), ":");
        pair.append(self.secret_key.as_str());
        pair
    }

    /// The value of the `Authorization` header for these credentials.
    pub fn get_auth_header(&self) -> (header: String)
        ensures
            header@ == self@.auth_header(),
    {
        let pair = self.pair();
        let encoded = base64_encode(pair.as_str().as_bytes());
        basic_header(encoded.as_str())
    }
}

/// The two slots that the vault uses in the secure store.
#[derive(Debug, Clone, Copy, PartialEq, Eq, Structural)]
pub enum Slot {
    /// Base URL and user name, as a JSON object.
    Config,
    /// The API key, as it is.
    ApiKey,
}

/// One access to the secure store.
#[derive(Debug, Clone)]
pub enum StoreRequest {
    Read(Slot),
    Write(Slot, String),
    Delete(Slot),
}

/// A [`StoreRequest`] over sequences of characters.
pub enum StoreRequestView {
    Read(Slot),
    Write(Slot, Seq<char>),
    Delete(Slot),
}

impl View for StoreRequest {
    type V = StoreRequestView;

    open spec fn view(&self) -> StoreRequestView {
        match self {
            StoreRequest::Read(slot) => StoreRequestView::Read(*slot),
            StoreRequest::Write(slot, text) => StoreRequestView::Write(*slot, text@),
            StoreRequest::Delete(slot) => StoreRequestView::Delete(*slot),
        }
    }
}

/// What the secure store answered to one access. That a slot holds nothing is an answer
/// of its own, told by the store itself, and never an error.
#[derive(Debug, Clone)]
pub enum StoreReply {
    /// The slot holds this text.
    Found(String),
    /// The slot holds nothing.
    Missing,
    /// The slot was written or deleted.
    Done,
    /// The store failed; its message.
    Failed(String),
}

/// A [`StoreReply`] over sequences of characters.
pub enum StoreReplyView {
    Found(Seq<char>),
    Missing,
    Done,
    Failed(Seq<char>),
}

impl View for StoreReply {
    type V = StoreReplyView;

    open spec fn view(&self) -> StoreReplyView {
        match self {
            StoreReply::Found(text) => StoreReplyView::Found(text@),
            StoreReply::Missing => StoreReplyView::Missing,
            StoreReply::Done => StoreReplyView::Done,
            StoreReply::Failed(message) => StoreReplyView::Failed(message@),
        }
    }
}

/// Where an operation of the vault stands: the access that it makes next, and what it
/// has to remember for the steps after it.
#[derive(Debug, Clone)]
pub enum VaultTask {
    /// Saving: write the key, then the configuration.
    SaveKey { key: String, config: String },
    /// Saving: write the configuration.
    SaveConfig { config: String },
    /// Loading: read the configuration.
    LoadConfig,
    /// Loading: read the key that goes with the configuration read.
    LoadKey { base_url: String, username: String },
    /// Read the key alone.
    ReadKey,
    /// Clearing: delete the configuration, then the key.
    ClearConfig,
    /// Clearing: delete the key. `first` is the error of deleting the configuration, where
    /// that failed.
    ClearKey { first: Option<AppError> },
}

/// A [`VaultTask`] over sequences of characters.
pub enum VaultTaskView {
    SaveKey { key: Seq<char>, config: Seq<char> },
    SaveConfig { config: Seq<char> },
    LoadConfig,
    LoadKey { base_url: Seq<char>, username: Seq<char> },
    ReadKey,
    ClearConfig,
    ClearKey { first: Option<AppErrorView> },
}

impl View for VaultTask {
    type V = VaultTaskView;

    open spec fn view(&self) -> VaultTaskView {
        match self {
            VaultTask::SaveKey { key, config } => VaultTaskView::SaveKey {
                key: key@,
                config: config@,
            },
            VaultTask::SaveConfig { config } => VaultTaskView::SaveConfig { config: config@ },
            VaultTask::LoadConfig => VaultTaskView::LoadConfig,
            VaultTask::LoadKey { base_url, username } => VaultTaskView::LoadKey {
                base_url: base_url@,
                username: username@,
            },
            VaultTask::ReadKey => VaultTaskView::ReadKey,
            VaultTask::ClearConfig => VaultTaskView::ClearConfig,
            VaultTask::ClearKey { first } => VaultTaskView::ClearKey { first: first.deep_view() },
        }
    }
}

/// What an operation of the vault ends with when it succeeds.
#[derive(Debug, Clone)]
pub enum VaultOutput {
    /// The configuration was saved.
    Saved,
    /// What the vault holds: nothing, or a configuration with or without its key.
    Loaded(Option<ApiConfig>),
    /// The key that the vault holds, if it holds one.
    Key(Option<String>),
    /// Both slots are empty.
    Cleared,
}

/// A [`VaultOutput`] over sequences of characters.
pub enum VaultOutputView {
    Saved,
    Loaded(Option<ApiConfigView>),
    Key(Option<Seq<char>>),
    Cleared,
}

impl View for VaultOutput {
    type V = VaultOutputView;

    open spec fn view(&self) -> VaultOutputView {
        match self {
            VaultOutput::Saved => VaultOutputView::Saved,
            VaultOutput::Loaded(config) => VaultOutputView::Loaded(config.deep_view()),
            VaultOutput::Key(key) => VaultOutputView::Key(key.deep_view()),
            VaultOutput::Cleared => VaultOutputView::Cleared,
        }
    }
}

impl DeepView for VaultOutput {
    type V = VaultOutputView;

    open spec fn deep_view(&self) -> VaultOutputView {
        self@
    }
}

/// One step of an operation of the vault: an access to make, or the end.
#[derive(Debug)]
pub enum VaultStep {
    /// Make the access that the task names and hand the answer to [`VaultTask::resume`].
    Ask(VaultTask),
    /// The operation is over.
    Finished(Result<VaultOutput, AppError>),
}

/// A [`VaultStep`] over sequences of characters.
pub enum VaultStepView {
    Ask(VaultTaskView),
    Finished(Result<VaultOutputView, AppErrorView>),
}

impl View for VaultStep {
    type V = VaultStepView;

    open spec fn view(&self) -> VaultStepView {
        match self {
            VaultStep::Ask(task) => VaultStepView::Ask(task@),
            VaultStep::Finished(result) => VaultStepView::Finished(outcome(*result)),
        }
    }
}

/// The JSON object that the configuration slot holds for a base URL and a user name.
pub open spec fn config_document(base_url: Seq<char>, username: Seq<char>) -> JsonView {
    JsonView::Object(
        seq![("base_url"@, JsonView::Text(base_url)), ("username"@, JsonView::Text(username))],
    )
}

/// Base URL and user name in a document read from the configuration slot.
pub open spec fn stored_fields(doc: JsonView) -> Result<(Seq<char>, Seq<char>), AppErrorView> {
    if doc.text_member("base_url"@) is Err {
        Err(doc.text_member("base_url"@)->Err_0)
    } else if doc.text_member("username"@) is Err {
        Err(doc.text_member("username"@)->Err_0)
    } else {
        Ok((doc.text_member("base_url"@)->Ok_0, doc.text_member("username"@)->Ok_0))
    }
}

/// Base URL and user name in the text of the configuration slot. Text that is no JSON, or
/// not of this shape, is `Serialization`.
pub open spec fn stored_config(text: Seq<char>) -> Result<(Seq<char>, Seq<char>), AppErrorView> {
    match parse_outcome(text) {
        Ok(doc) => stored_fields(doc),
        Err(e) => Err(e),
    }
}

/// The error for an answer of the store that ends an operation: the store's own failure,
/// or an answer that does not fit the access made.
pub open spec fn store_error(reply: StoreReplyView) -> AppErrorView {
    match reply {
        StoreReplyView::Failed(message) => AppErrorView::Storage(message),
        _ => AppErrorView::Storage("Unexpected answer from the secure store"@),
    }
}

impl VaultTaskView {
    /// The access that the task makes next.
    pub open spec fn request(self) -> StoreRequestView {
        match self {
            VaultTaskView::SaveKey { key, config } => StoreRequestView::Write(Slot::ApiKey, key),
            VaultTaskView::SaveConfig { config } => StoreRequestView::Write(Slot::Config, config),
            VaultTaskView::LoadConfig => StoreRequestView::Read(Slot::Config),
            VaultTaskView::LoadKey { base_url, username } => StoreRequestView::Read(Slot::ApiKey),
            VaultTaskView::ReadKey => StoreRequestView::Read(Slot::ApiKey),
            VaultTaskView::ClearConfig => StoreRequestView::Delete(Slot::Config),
            VaultTaskView::ClearKey { first } => StoreRequestView::Delete(Slot::ApiKey),
        }
    }

    /// The step that follows when the store has answered `reply` to the task's access.
    pub open spec fn resume(self, reply: StoreReplyView) -> VaultStepView {
        match self {
            VaultTaskView::SaveKey { key, config } => match reply {
                StoreReplyView::Done => VaultStepView::Ask(VaultTaskView::SaveConfig { config }),
                _ => VaultStepView::Finished(Err(store_error(reply))),
            },
            VaultTaskView::SaveConfig { config } => match reply {
                StoreReplyView::Done => VaultStepView::Finished(Ok(VaultOutputView::Saved)),
                _ => VaultStepView::Finished(Err(store_error(reply))),
            },
            VaultTaskView::LoadConfig => match reply {
                StoreReplyView::Missing => VaultStepView::Finished(
                    Ok(VaultOutputView::Loaded(None)),
                ),
                StoreReplyView::Found(text) => match stored_config(text) {
                    Ok((base_url, username)) => VaultStepView::Ask(
                        VaultTaskView::LoadKey { base_url, username },
                    ),
                    Err(e) => VaultStepView::Finished(Err(e)),
                },
                _ => VaultStepView::Finished(Err(store_error(reply))),
            },
            VaultTaskView::LoadKey { base_url, username } => match reply {
                StoreReplyView::Found(key) => VaultStepView::Finished(
                    Ok(
                        VaultOutputView::Loaded(
                            Some(ApiConfigView { base_url, username, api_key: Some(key) }),
                        ),
                    ),
                ),
                StoreReplyView::Missing => VaultStepView::Finished(
                    Ok(
                        VaultOutputView::Loaded(
                            Some(ApiConfigView { base_url, username, api_key: None }),
                        ),
                    ),
                ),
                _ => VaultStepView::Finished(Err(store_error(reply))),
            },
            VaultTaskView::ReadKey => match reply {
                StoreReplyView::Found(key) => VaultStepView::Finished(
                    Ok(VaultOutputView::Key(Some(key))),
                ),
                StoreReplyView::Missing => VaultStepView::Finished(
                    Ok(VaultOutputView::Key(None)),
                ),
                _ => VaultStepView::Finished(Err(store_error(reply))),
            },
            VaultTaskView::ClearConfig => match reply {
                StoreReplyView::Done => VaultStepView::Ask(VaultTaskView::ClearKey { first: None }),
                StoreReplyView::Missing => VaultStepView::Ask(
                    VaultTaskView::ClearKey { first: None },
                ),
                _ => VaultStepView::Ask(VaultTaskView::ClearKey { first: Some(store_error(reply)) }),
            },
            VaultTaskView::ClearKey { first } => match first {
                Some(e) => VaultStepView::Finished(Err(e)),
                None => match reply {
                    StoreReplyView::Done => VaultStepView::Finished(Ok(VaultOutputView::Cleared)),
                    StoreReplyView::Missing => VaultStepView::Finished(
                        Ok(VaultOutputView::Cleared),
                    ),
                    _ => VaultStepView::Finished(Err(store_error(reply))),
                },
            },
        }
    }
}

/// The first step of saving `config`: nothing is written for a configuration that is not
/// valid, nor for one whose text for the configuration slot would not read back as written.
/// Otherwise the key is written first where there is one, and the configuration slot gets
/// base URL and user name without the key.
pub open spec fn save_step(config: ApiConfigView, policy: IdentityPolicy) -> VaultStepView {
    match config.defect_under(policy) {
        Some(e) => VaultStepView::Finished(Err(e)),
        None => {
            let text = crate::json::json_text(config_document(config.base_url, config.username));
            if stored_config(text) != Ok::<(Seq<char>, Seq<char>), AppErrorView>(
                (config.base_url, config.username),
            ) {
                VaultStepView::Finished(
                    Err(AppErrorView::Serialization("The configuration does not read back"@)),
                )
            } else {
                match config.api_key {
                    Some(key) => VaultStepView::Ask(VaultTaskView::SaveKey { key, config: text }),
                    None => VaultStepView::Ask(VaultTaskView::SaveConfig { config: text }),
                }
            }
        },
    }
}

/// What the two slots of a secure store hold.
pub struct StoreContents {
    pub config: Option<Seq<char>>,
    pub api_key: Option<Seq<char>>,
}

impl StoreContents {
    /// What `slot` holds.
    pub open spec fn get(self, slot: Slot) -> Option<Seq<char>> {
        match slot {
            Slot::Config => self.config,
            Slot::ApiKey => self.api_key,
        }
    }

    /// The store with `content` in `slot`.
    pub open spec fn put(self, slot: Slot, content: Option<Seq<char>>) -> StoreContents {
        match slot {
            Slot::Config => StoreContents { config: content, api_key: self.api_key },
            Slot::ApiKey => StoreContents { config: self.config, api_key: content },
        }
    }

    /// One access to a store that does not fail and reads back what was written: the
    /// store after the access, and its answer.
    pub open spec fn serve(self, request: StoreRequestView) -> (StoreContents, StoreReplyView) {
        match request {
            StoreRequestView::Read(slot) => (
                self,
                match self.get(slot) {
                    Some(text) => StoreReplyView::Found(text),
                    None => StoreReplyView::Missing,
                },
            ),
            StoreRequestView::Write(slot, text) => (self.put(slot, Some(text)), StoreReplyView::Done),
            StoreRequestView::Delete(slot) => (
                self.put(slot, None),
                if self.get(slot) is Some {
                    StoreReplyView::Done
                } else {
                    StoreReplyView::Missing
                },
            ),
        }
    }
}

/// An operation run from `step` against `store`, with at most `limit` accesses: how it
/// ends, and the store after it.
pub open spec fn run(step: VaultStepView, store: StoreContents, limit: nat) -> (
    Result<VaultOutputView, AppErrorView>,
    StoreContents,
)
    decreases limit,
{
    match step {
        VaultStepView::Finished(result) => (result, store),
        VaultStepView::Ask(task) => if limit == 0 {
            (Err(AppErrorView::Storage("The operation did not end"@)), store)
        } else {
            let (next, reply) = store.serve(task.request());
            run(task.resume(reply), next, (limit - 1) as nat)
        },
    }
}

/// What a load returns after `config` was saved over a store whose key slot held `before`:
/// the key saved, or, where none was saved, the key that was there.
pub open spec fn as_loaded(config: ApiConfigView, before: Option<Seq<char>>) -> ApiConfigView {
    ApiConfigView {
        base_url: config.base_url,
        username: config.username,
        api_key: if config.api_key is Some {
            config.api_key
        } else {
            before
        },
    }
}

/// A save that succeeds is read back by the next load: after it the configuration slot
/// holds the text written for the configuration, the key slot holds the key where the
/// configuration has one, and a load from that store returns the configuration saved. A
/// save that fails before its first access leaves the store as it was; that is so for
/// every configuration that is not valid.
pub proof fn lemma_save_then_load(
    config: ApiConfigView,
    policy: IdentityPolicy,
    store: StoreContents,
)
    ensures
        config.defect_under(policy) matches Some(e) ==> run(save_step(config, policy), store, 2)
            == (Err::<VaultOutputView, AppErrorView>(e), store),
        run(save_step(config, policy), store, 2).0 is Err ==> run(
            save_step(config, policy),
            store,
            2,
        ).1 == store,
        run(save_step(config, policy), store, 2).0 is Ok ==> ({
            let saved = run(save_step(config, policy), store, 2);
            &&& config.valid_under(policy)
            &&& saved.0 == Ok::<VaultOutputView, AppErrorView>(VaultOutputView::Saved)
            &&& saved.1.config == Some(
                crate::json::json_text(config_document(config.base_url, config.username)),
            )
            &&& saved.1.api_key == as_loaded(config, store.api_key).api_key
            &&& run(VaultStepView::Ask(VaultTaskView::LoadConfig), saved.1, 2).0 == Ok::<
                VaultOutputView,
                AppErrorView,
            >(VaultOutputView::Loaded(Some(as_loaded(config, store.api_key))))
        }),
{
    reveal_with_fuel(run, 3);
}

/// A configuration is valid exactly when validation finds no defect in it.
pub proof fn lemma_config_defect_iff_not_valid(config: ApiConfigView, policy: IdentityPolicy)
    ensures
        config.defect_under(policy) is None <==> config.valid_under(policy),
        config.defect_under(policy) matches Some(e) ==> e is InvalidInput,
{
}

/// The document written for a base URL and a user name holds both.
pub proof fn lemma_config_document_fields(base_url: Seq<char>, username: Seq<char>)
    ensures
        stored_fields(config_document(base_url, username)) == Ok::<
            (Seq<char>, Seq<char>),
            AppErrorView,
        >((base_url, username)),
{
    reveal_strlit("base_url");
    reveal_strlit("username");
    reveal_with_fuel(crate::json::member, 3);
    let members = seq![
        ("base_url"@, JsonView::Text(base_url)),
        ("username"@, JsonView::Text(username)),
    ];
    assert("base_url"@ != "username"@) by {
        assert("base_url"@[0] != "username"@[0]);
    }
    assert(members.drop_first()[0] == members[1]);
}

/// Clearing asks for the key slot to be deleted whatever the store answered to deleting
/// the configuration, and where that answer was a failure, clearing ends with its error
/// whatever the store answers next.
pub proof fn lemma_clear_asks_for_both_slots(first: StoreReplyView, second: StoreReplyView)
    ensures
        VaultTaskView::ClearConfig.request() == StoreRequestView::Delete(Slot::Config),
        VaultTaskView::ClearConfig.resume(first) is Ask,
        VaultTaskView::ClearConfig.resume(first)->Ask_0.request() == StoreRequestView::Delete(
            Slot::ApiKey,
        ),
        !(first is Done || first is Missing) ==> VaultTaskView::ClearConfig.resume(
            first,
        )->Ask_0.resume(second) == VaultStepView::Finished(Err(store_error(first))),
{
}

/// After clearing, both slots are empty and a load finds nothing, whatever the store held.
pub proof fn lemma_clear_then_load(store: StoreContents)
    ensures
        run(VaultStepView::Ask(VaultTaskView::ClearConfig), store, 2) == (
            Ok::<VaultOutputView, AppErrorView>(VaultOutputView::Cleared),
            StoreContents { config: None, api_key: None },
        ),
        run(
            VaultStepView::Ask(VaultTaskView::LoadConfig),
            StoreContents { config: None, api_key: None },
            2,
        ).0 == Ok::<VaultOutputView, AppErrorView>(VaultOutputView::Loaded(None)),
{
    reveal_with_fuel(run, 3);
}

/// A load from a store that holds a configuration but no key returns the configuration
/// with its key absent. What the load returns in general: nothing where the configuration
/// slot is empty, the error of reading where its text is not a stored configuration, and
/// else the configuration with the key that the key slot holds.
pub proof fn lemma_load_reads_both_slots(store: StoreContents)
    ensures
        run(VaultStepView::Ask(VaultTaskView::LoadConfig), store, 2).1 == store,
        run(VaultStepView::Ask(VaultTaskView::LoadConfig), store, 2).0 == (match store.config {
            None => Ok::<VaultOutputView, AppErrorView>(VaultOutputView::Loaded(None)),
            Some(text) => match stored_config(text) {
                Err(e) => Err(e),
                Ok((base_url, username)) => Ok(
                    VaultOutputView::Loaded(
                        Some(ApiConfigView { base_url, username, api_key: store.api_key }),
                    ),
                ),
            },
        }),
{
    reveal_with_fuel(run, 3);
}

/// Reading the key alone returns what the key slot holds and changes nothing.
pub proof fn lemma_get_api_key_reads_key_slot(store: StoreContents)
    ensures
        run(VaultStepView::Ask(VaultTaskView::ReadKey), store, 2) == (
            Ok::<VaultOutputView, AppErrorView>(VaultOutputView::Key(store.api_key)),
            store,
        ),
{
    reveal_with_fuel(run, 3);
}

/// The error for an answer of the store that ends an operation.
fn store_failure(reply: StoreReply) -> (e: AppError)
    ensures
        e@ == store_error(reply@),
{
    match reply {
        StoreReply::Failed(message) => AppError::Storage(message),
        _ => AppError::Storage(String::from_str("Unexpected answer from the secure store")),
    }
}

/// Reads base URL and user name from the text of the configuration slot.
fn read_stored_config(text: &str) -> (result: Result<(String, String), AppError>)
    ensures
        outcome(result) == stored_config(text@),
{
    let doc = JsonValue::parse(text)?;
    let base_url = doc.text_member("base_url")?;
    let username = doc.text_member("username")?;
    Ok((base_url, username))
}

/// Writes base URL and user name as the text of the configuration slot.
fn write_stored_config(base_url: &str, username: &str) -> (text: String)
    ensures
        text@ == crate::json::json_text(config_document(base_url@, username@)),
{
    let mut members = ObjectBuilder::new();
    members.text("base_url", base_url);
    members.text("username", username);
    assert(Seq::<(Seq<char>, JsonView)>::empty().push(("base_url"@, JsonView::Text(base_url@))).push(
        ("username"@, JsonView::Text(username@)),
    ) =~= seq![("base_url"@, JsonView::Text(base_url@)), ("username"@, JsonView::Text(username@))]);
    members.build().render()
}

impl Slot {
    /// The name of the slot in the secure store.
    pub fn name(&self) -> (name: &'static str)
        ensures
            name@ == (match *self {
                Slot::Config => "config"@,
                Slot::ApiKey => "api_key"@,
            }),
    {
        match self {
            Slot::Config => "config",
            Slot::ApiKey => "api_key",
        }
    }
}

impl VaultTask {
    /// The access to make now.
    pub fn request(&self) -> (request: StoreRequest)
        ensures
            request@ == self@.request(),
    {
        match self {
            VaultTask::SaveKey { key, config } => StoreRequest::Write(Slot::ApiKey, key.clone()),
            VaultTask::SaveConfig { config } => StoreRequest::Write(Slot::Config, config.clone()),
            VaultTask::LoadConfig => StoreRequest::Read(Slot::Config),
            VaultTask::LoadKey { base_url, username } => StoreRequest::Read(Slot::ApiKey),
            VaultTask::ReadKey => StoreRequest::Read(Slot::ApiKey),
            VaultTask::ClearConfig => StoreRequest::Delete(Slot::Config),
            VaultTask::ClearKey { first } => StoreRequest::Delete(Slot::ApiKey),
        }
    }

    /// Takes the store's answer to the access and says what follows. A failure of the
    /// store ends saving and loading with `Storage`; nothing already written is undone.
    /// Clearing asks for both deletions whatever the first gave, so that a failure on the
    /// configuration slot does not leave the key behind, and then ends with the first
    /// error. That a slot holds nothing is no failure: loading then ends with what there
    /// is, and clearing goes on.
    pub fn resume(self, reply: StoreReply) -> (step: VaultStep)
        ensures
            step@ == self@.resume(reply@),
    {
        match self {
            VaultTask::SaveKey { key, config } => match reply {
                StoreReply::Done => VaultStep::Ask(VaultTask::SaveConfig { config }),
                other => VaultStep::Finished(Err(store_failure(other))),
            },
            VaultTask::SaveConfig { config } => match reply {
                StoreReply::Done => VaultStep::Finished(Ok(VaultOutput::Saved)),
                other => VaultStep::Finished(Err(store_failure(other))),
            },
            VaultTask::LoadConfig => match reply {
                StoreReply::Missing => VaultStep::Finished(Ok(VaultOutput::Loaded(None))),
                StoreReply::Found(text) => match read_stored_config(text.as_str()) {
                    Ok((base_url, username)) => VaultStep::Ask(
                        VaultTask::LoadKey { base_url, username },
                    ),
                    Err(e) => VaultStep::Finished(Err(e)),
                },
                other => VaultStep::Finished(Err(store_failure(other))),
            },
            VaultTask::LoadKey { base_url, username } => match reply {
                StoreReply::Found(key) => VaultStep::Finished(
                    Ok(VaultOutput::Loaded(Some(ApiConfig { base_url, username, api_key: Some(key) }))),
                ),
                StoreReply::Missing => VaultStep::Finished(
                    Ok(VaultOutput::Loaded(Some(ApiConfig { base_url, username, api_key: None }))),
                ),
                other => VaultStep::Finished(Err(store_failure(other))),
            },
            VaultTask::ReadKey => match reply {
                StoreReply::Found(key) => VaultStep::Finished(Ok(VaultOutput::Key(Some(key)))),
                StoreReply::Missing => VaultStep::Finished(Ok(VaultOutput::Key(None))),
                other => VaultStep::Finished(Err(store_failure(other))),
            },
            VaultTask::ClearConfig => match reply {
                StoreReply::Done => VaultStep::Ask(VaultTask::ClearKey { first: None }),
                StoreReply::Missing => VaultStep::Ask(VaultTask::ClearKey { first: None }),
                other => VaultStep::Ask(VaultTask::ClearKey { first: Some(store_failure(other)) }),
            },
            VaultTask::ClearKey { first } => match first {
                Some(e) => VaultStep::Finished(Err(e)),
                None => match reply {
                    StoreReply::Done => VaultStep::Finished(Ok(VaultOutput::Cleared)),
                    StoreReply::Missing => VaultStep::Finished(Ok(VaultOutput::Cleared)),
                    other => VaultStep::Finished(Err(store_failure(other))),
                },
            },
        }
    }
}

/// The vault: the rules by which credentials are kept in the secure store. Each
/// operation is a short run of steps; whoever holds the store makes the accesses.
#[derive(Debug, Clone, Copy)]
pub struct SecureStorage;

impl SecureStorage {
    /// Checks a configuration before it is stored, where user names are e-mail addresses.
    /// Every failure is `InvalidInput`.
    pub fn validate_config(config: &ApiConfig) -> (result: Result<(), AppError>)
        ensures
            outcome(result) == verdict(config@.defect()),
            result is Ok <==> config@.valid(),
            result matches Err(e) ==> e@ is InvalidInput,
    {
        SecureStorage::validate_config_with(config, IdentityPolicy::Email)
    }

    /// Checks a configuration before it is stored. Every failure is `InvalidInput`.
    pub fn validate_config_with(config: &ApiConfig, policy: IdentityPolicy) -> (result: Result<
        (),
        AppError,
    >)
        ensures
            outcome(result) == verdict(config@.defect_under(policy)),
            result is Ok <==> config@.valid_under(policy),
            result matches Err(e) ==> e@ is InvalidInput,
    {
        if config.base_url.as_str().is_empty() {
            return Err(AppError::InvalidInput(String::from_str("Base URL cannot be empty")));
        }
        let _ = check_endpoint(config.base_url.as_str())?;
        if config.username.as_str().is_empty() {
            return Err(AppError::InvalidInput(String::from_str("Username cannot be empty")));
        }
        let email = match policy {
            IdentityPolicy::Email => true,
            IdentityPolicy::Any => false,
        };
        if email && !contains_char(config.username.as_str(), '@') {
            return Err(
                AppError::InvalidInput(String::from_str("Username must be a valid email address")),
            );
        }
        match &config.api_key {
            Some(key) => {
                if key.as_str().is_empty() {
                    assert(key@ =~= Seq::<char>::empty());
                    return Err(
                        AppError::InvalidInput(String::from_str("API key cannot be empty")),
                    );
                }
            },
            None => {},
        }
        Ok(())
    }

    /// The name under which the vault's slots are filed in the secure store.
    pub fn service_name() -> (name: &'static str)
        ensures
            name@ == "com.onetimesecret.desktop"@,
    {
        "com.onetimesecret.desktop"
    }

    /// Begins to save `config`, where user names are e-mail addresses. A configuration
    /// that is not valid ends the operation at once and nothing is written. The same holds, with `Serialization`, where the text
    /// made for the configuration slot does not read back as base URL and user name: the
    /// vault stores nothing that a load could not return.
    pub fn save_config(config: &ApiConfig) -> (step: VaultStep)
        ensures
            step@ == save_step(config@, IdentityPolicy::Email),
    {
        SecureStorage::save_config_with(config, IdentityPolicy::Email)
    }

    /// Begins to save `config` under another rule for user names; in all else as
    /// [`SecureStorage::save_config`].
    pub fn save_config_with(config: &ApiConfig, policy: IdentityPolicy) -> (step: VaultStep)
        ensures
            step@ == save_step(config@, policy),
    {
        match SecureStorage::validate_config_with(config, policy) {
            Err(e) => VaultStep::Finished(Err(e)),
            Ok(_) => {
                let text = write_stored_config(config.base_url.as_str(), config.username.as_str());
                let reads_back = match read_stored_config(text.as_str()) {
                    Ok((base_url, username)) => base_url == config.base_url && username
                        == config.username,
                    Err(_) => false,
                };
                if !reads_back {
                    return VaultStep::Finished(
                        Err(
                            AppError::Serialization(
                                String::from_str("The configuration does not read back"),
                            ),
                        ),
                    );
                }
                match &config.api_key {
                    Some(key) => VaultStep::Ask(
                        VaultTask::SaveKey { key: key.clone(), config: text },
                    ),
                    None => VaultStep::Ask(VaultTask::SaveConfig { config: text }),
                }
            },
        }
    }

    /// Begins to load what the vault holds.
    pub fn load_config() -> (step: VaultStep)
        ensures
            step@ == VaultStepView::Ask(VaultTaskView::LoadConfig),
    {
        VaultStep::Ask(VaultTask::LoadConfig)
    }

    /// Begins to read the key alone.
    pub fn get_api_key() -> (step: VaultStep)
        ensures
            step@ == VaultStepView::Ask(VaultTaskView::ReadKey),
    {
        VaultStep::Ask(VaultTask::ReadKey)
    }

    /// Begins to delete both slots.
    pub fn clear_config() -> (step: VaultStep)
        ensures
            step@ == VaultStepView::Ask(VaultTaskView::ClearConfig),
    {
        VaultStep::Ask(VaultTask::ClearConfig)
    }
}

} // verus!
