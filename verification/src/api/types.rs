//! Requests and results as the desktop application sees them.

use crate::error::{outcome, AppError, AppErrorView};
use crate::json::{
    with_integer, with_text, with_texts, with_value, JsonValue, JsonView, ObjectBuilder,
};
use crate::transport::{answer_document, TransportOutcomeView};
use vstd::prelude::*;
use vstd::string::*;

verus! {

/// A secret to create, with its time to live in seconds.
#[derive(Debug, Clone)]
pub struct CreateSecretRequest {
    pub secret: String,
    pub passphrase: Option<String>,
    pub ttl: u32,
    pub recipient: Option<String>,
}

/// A [`CreateSecretRequest`] over sequences of characters.
pub struct CreateSecretRequestView {
    pub secret: Seq<char>,
    pub passphrase: Option<Seq<char>>,
    pub ttl: u32,
    pub recipient: Option<Seq<char>>,
}

impl View for CreateSecretRequest {
    type V = CreateSecretRequestView;

    open spec fn view(&self) -> CreateSecretRequestView {
        CreateSecretRequestView {
            secret: self.secret@,
            passphrase: self.passphrase.deep_view(),
            ttl: self.ttl,
            recipient: self.recipient.deep_view(),
        }
    }
}

impl CreateSecretRequestView {
    /// The body of the request: the secret and the time to live, and passphrase and
    /// recipient only where they are present.
    pub open spec fn body(self) -> JsonView {
        JsonView::Object(
            with_text(
                with_text(
                    seq![("secret"@, JsonView::Text(self.secret))],
                    "passphrase"@,
                    self.passphrase,
                ).push(("ttl"@, JsonView::Integer(self.ttl as i64))),
                "recipient"@,
                self.recipient,
            ),
        )
    }
}

impl CreateSecretRequest {
    /// The body of the request.
    pub fn to_json(&self) -> (body: JsonValue)
        ensures
            body@ == self@.body(),
    {
        let mut members = ObjectBuilder::new();
        members.text("secret", self.secret.as_str());
        members.optional_text("passphrase", &self.passphrase);
        members.integer("ttl", self.ttl as i64);
        members.optional_text("recipient", &self.recipient);
        assert(Seq::<(Seq<char>, JsonView)>::empty().push(("secret"@, JsonView::Text(self.secret@)))
            =~= seq![("secret"@, JsonView::Text(self.secret@))]);
        members.build()
    }
}

/// A secret that was created: its two keys, the link to hand to the recipient, and what
/// the service recorded.
#[derive(Debug, Clone)]
pub struct CreateSecretResponse {
    /// Where the recipient reads the secret.
    pub link: String,
    pub secret_key: String,
    pub metadata_key: String,
    pub ttl: u32,
    /// Seconds since the epoch.
    pub created: i64,
    /// Seconds since the epoch.
    pub updated: i64,
    pub recipient: Option<Vec<String>>,
}

/// A [`CreateSecretResponse`] over sequences of characters.
pub struct CreateSecretResponseView {
    pub link: Seq<char>,
    pub secret_key: Seq<char>,
    pub metadata_key: Seq<char>,
    pub ttl: u32,
    pub created: i64,
    pub updated: i64,
    pub recipient: Option<Seq<Seq<char>>>,
}

impl View for CreateSecretResponse {
    type V = CreateSecretResponseView;

    open spec fn view(&self) -> CreateSecretResponseView {
        CreateSecretResponseView {
            link: self.link@,
            secret_key: self.secret_key@,
            metadata_key: self.metadata_key@,
            ttl: self.ttl,
            created: self.created,
            updated: self.updated,
            recipient: self.recipient.deep_view(),
        }
    }
}

impl DeepView for CreateSecretResponse {
    type V = CreateSecretResponseView;

    open spec fn deep_view(&self) -> CreateSecretResponseView {
        self@
    }
}

/// The link under `base_url` at which the secret `secret_key` is read.
pub open spec fn share_link(base_url: Seq<char>, secret_key: Seq<char>) -> Seq<char> {
    base_url + "/secret/"@ + secret_key
}

impl CreateSecretResponseView {
    /// The record that `doc` holds, with the link under `base_url`, or the error for the
    /// first member that is missing or of the wrong type.
    pub open spec fn decode(doc: JsonView, base_url: Seq<char>) -> Result<
        CreateSecretResponseView,
        AppErrorView,
    > {
        if doc.text_member("secret_key"@) is Err {
            Err(doc.text_member("secret_key"@)->Err_0)
        } else if doc.text_member("metadata_key"@) is Err {
            Err(doc.text_member("metadata_key"@)->Err_0)
        } else if doc.u32_member("ttl"@) is Err {
            Err(doc.u32_member("ttl"@)->Err_0)
        } else if doc.integer_member("created"@) is Err {
            Err(doc.integer_member("created"@)->Err_0)
        } else if doc.integer_member("updated"@) is Err {
            Err(doc.integer_member("updated"@)->Err_0)
        } else if doc.optional_texts_member("recipient"@) is Err {
            Err(doc.optional_texts_member("recipient"@)->Err_0)
        } else {
            Ok(
                CreateSecretResponseView {
                    link: share_link(base_url, doc.text_member("secret_key"@)->Ok_0),
                    secret_key: doc.text_member("secret_key"@)->Ok_0,
                    metadata_key: doc.text_member("metadata_key"@)->Ok_0,
                    ttl: doc.u32_member("ttl"@)->Ok_0,
                    created: doc.integer_member("created"@)->Ok_0,
                    updated: doc.integer_member("updated"@)->Ok_0,
                    recipient: doc.optional_texts_member("recipient"@)->Ok_0,
                },
            )
        }
    }

    /// What the answer to a request to create a secret amounts to.
    pub open spec fn read(answer: TransportOutcomeView, base_url: Seq<char>) -> Result<
        CreateSecretResponseView,
        AppErrorView,
    > {
        match answer_document(answer) {
            Ok(document) => CreateSecretResponseView::decode(document, base_url),
            Err(e) => Err(e),
        }
    }
}

impl CreateSecretResponseView {
    /// The record as a JSON object.
    pub open spec fn document(self) -> JsonView {
        JsonView::Object(
            with_texts(
                seq![
                    ("link"@, JsonView::Text(self.link)),
                    ("secret_key"@, JsonView::Text(self.secret_key)),
                    ("metadata_key"@, JsonView::Text(self.metadata_key)),
                    ("ttl"@, JsonView::Integer(self.ttl as i64)),
                    ("created"@, JsonView::Integer(self.created)),
                    ("updated"@, JsonView::Integer(self.updated)),
                ],
                "recipient"@,
                self.recipient,
            ),
        )
    }
}

impl CreateSecretResponse {
    /// The record as a JSON object.
    pub fn to_json(&self) -> (doc: JsonValue)
        ensures
            doc@ == self@.document(),
    {
        let mut members = ObjectBuilder::new();
        members.text("link", self.link.as_str());
        members.text("secret_key", self.secret_key.as_str());
        members.text("metadata_key", self.metadata_key.as_str());
        members.integer("ttl", self.ttl as i64);
        members.integer("created", self.created);
        members.integer("updated", self.updated);
        assert(members.members() =~= seq![
            ("link"@, JsonView::Text(self.link@)),
            ("secret_key"@, JsonView::Text(self.secret_key@)),
            ("metadata_key"@, JsonView::Text(self.metadata_key@)),
            ("ttl"@, JsonView::Integer(self.ttl as i64)),
            ("created"@, JsonView::Integer(self.created)),
            ("updated"@, JsonView::Integer(self.updated)),
        ]);
        members.optional_texts("recipient", &self.recipient);
        members.build()
    }

    /// Reads the record from the document of an answer and builds the link under
    /// `base_url`.
    pub fn from_json(doc: &JsonValue, base_url: &str) -> (result: Result<
        CreateSecretResponse,
        AppError,
    >)
        ensures
            outcome(result) == CreateSecretResponseView::decode(doc@, base_url@),
    {
        let secret_key = doc.text_member("secret_key")?;
        let metadata_key = doc.text_member("metadata_key")?;
        let ttl = doc.u32_member("ttl")?;
        let created = doc.integer_member("created")?;
        let updated = doc.integer_member("updated")?;
        let recipient = doc.optional_texts_member("recipient")?;
        let mut link = String::from_str(base_url);
        link.append("/secret/");
        link.append(secret_key.as_str());
        Ok(
            CreateSecretResponse {
                link,
                secret_key,
                metadata_key,
                ttl,
                created,
                updated,
                recipient,
            },
        )
    }
}

/// A secret to read, by its key.
#[derive(Debug, Clone)]
pub struct RetrieveSecretRequest {
    pub key: String,
    pub passphrase: Option<String>,
}

/// A [`RetrieveSecretRequest`] over sequences of characters.
pub struct RetrieveSecretRequestView {
    pub key: Seq<char>,
    pub passphrase: Option<Seq<char>>,
}

impl View for RetrieveSecretRequest {
    type V = RetrieveSecretRequestView;

    open spec fn view(&self) -> RetrieveSecretRequestView {
        RetrieveSecretRequestView { key: self.key@, passphrase: self.passphrase.deep_view() }
    }
}

/// What the owner of a secret learns about it.
#[derive(Debug, Clone)]
pub struct SecretMetadata {
    /// The member `custid`.
    pub customer_id: Option<String>,
    pub metadata_key: String,
    pub secret_key: String,
    pub ttl: u32,
    /// For example `new`, `received` or `burned`.
    pub state: String,
    /// The member `created`, in seconds since the epoch.
    pub created_at: i64,
    /// The member `updated`, in seconds since the epoch.
    pub updated_at: i64,
    pub recipient: Option<Vec<String>>,
    /// When the secret was read, in seconds since the epoch.
    pub received: Option<i64>,
}

/// A [`SecretMetadata`] over sequences of characters.
pub struct SecretMetadataView {
    pub customer_id: Option<Seq<char>>,
    pub metadata_key: Seq<char>,
    pub secret_key: Seq<char>,
    pub ttl: u32,
    pub state: Seq<char>,
    pub created_at: i64,
    pub updated_at: i64,
    pub recipient: Option<Seq<Seq<char>>>,
    pub received: Option<i64>,
}

impl View for SecretMetadata {
    type V = SecretMetadataView;

    open spec fn view(&self) -> SecretMetadataView {
        SecretMetadataView {
            customer_id: self.customer_id.deep_view(),
            metadata_key: self.metadata_key@,
            secret_key: self.secret_key@,
            ttl: self.ttl,
            state: self.state@,
            created_at: self.created_at,
            updated_at: self.updated_at,
            recipient: self.recipient.deep_view(),
            received: self.received,
        }
    }
}

impl DeepView for SecretMetadata {
    type V = SecretMetadataView;

    open spec fn deep_view(&self) -> SecretMetadataView {
        self@
    }
}

impl SecretMetadataView {
    /// The record that `doc` holds, or the error for the first member, in the order of the
    /// fields, that is missing or of the wrong type.
    pub open spec fn decode(doc: JsonView) -> Result<SecretMetadataView, AppErrorView> {
        if doc.optional_text_member("custid"@) is Err {
            Err(doc.optional_text_member("custid"@)->Err_0)
        } else if doc.text_member("metadata_key"@) is Err {
            Err(doc.text_member("metadata_key"@)->Err_0)
        } else if doc.text_member("secret_key"@) is Err {
            Err(doc.text_member("secret_key"@)->Err_0)
        } else if doc.u32_member("ttl"@) is Err {
            Err(doc.u32_member("ttl"@)->Err_0)
        } else if doc.text_member("state"@) is Err {
            Err(doc.text_member("state"@)->Err_0)
        } else if doc.integer_member("created"@) is Err {
            Err(doc.integer_member("created"@)->Err_0)
        } else if doc.integer_member("updated"@) is Err {
            Err(doc.integer_member("updated"@)->Err_0)
        } else if doc.optional_texts_member("recipient"@) is Err {
            Err(doc.optional_texts_member("recipient"@)->Err_0)
        } else if doc.optional_integer_member("received"@) is Err {
            Err(doc.optional_integer_member("received"@)->Err_0)
        } else {
            Ok(
                SecretMetadataView {
                    customer_id: doc.optional_text_member("custid"@)->Ok_0,
                    metadata_key: doc.text_member("metadata_key"@)->Ok_0,
                    secret_key: doc.text_member("secret_key"@)->Ok_0,
                    ttl: doc.u32_member("ttl"@)->Ok_0,
                    state: doc.text_member("state"@)->Ok_0,
                    created_at: doc.integer_member("created"@)->Ok_0,
                    updated_at: doc.integer_member("updated"@)->Ok_0,
                    recipient: doc.optional_texts_member("recipient"@)->Ok_0,
                    received: doc.optional_integer_member("received"@)->Ok_0,
                },
            )
        }
    }

    /// What the answer to a request for metadata amounts to.
    pub open spec fn read(answer: TransportOutcomeView) -> Result<SecretMetadataView, AppErrorView> {
        match answer_document(answer) {
            Ok(document) => SecretMetadataView::decode(document),
            Err(e) => Err(e),
        }
    }
}

impl SecretMetadataView {
    /// The record as a JSON object, under the names that the service uses. Members that
    /// are absent are left out.
    pub open spec fn document(self) -> JsonView {
        JsonView::Object(
            with_integer(
                with_texts(
                    with_text(Seq::empty(), "custid"@, self.customer_id).push(
                        ("metadata_key"@, JsonView::Text(self.metadata_key)),
                    ).push(("secret_key"@, JsonView::Text(self.secret_key))).push(
                        ("ttl"@, JsonView::Integer(self.ttl as i64)),
                    ).push(("state"@, JsonView::Text(self.state))).push(
                        ("created"@, JsonView::Integer(self.created_at)),
                    ).push(("updated"@, JsonView::Integer(self.updated_at))),
                    "recipient"@,
                    self.recipient,
                ),
                "received"@,
                self.received,
            ),
        )
    }
}

impl SecretMetadata {
    /// The record as a JSON object.
    pub fn to_json(&self) -> (doc: JsonValue)
        ensures
            doc@ == self@.document(),
    {
        let mut members = ObjectBuilder::new();
        members.optional_text("custid", &self.customer_id);
        members.text("metadata_key", self.metadata_key.as_str());
        members.text("secret_key", self.secret_key.as_str());
        members.integer("ttl", self.ttl as i64);
        members.text("state", self.state.as_str());
        members.integer("created", self.created_at);
        members.integer("updated", self.updated_at);
        members.optional_texts("recipient", &self.recipient);
        members.optional_integer("received", self.received);
        members.build()
    }

    /// Reads the record from the document of an answer.
    pub fn from_json(doc: &JsonValue) -> (result: Result<SecretMetadata, AppError>)
        ensures
            outcome(result) == SecretMetadataView::decode(doc@),
    {
        let customer_id = doc.optional_text_member("custid")?;
        let metadata_key = doc.text_member("metadata_key")?;
        let secret_key = doc.text_member("secret_key")?;
        let ttl = doc.u32_member("ttl")?;
        let state = doc.text_member("state")?;
        let created_at = doc.integer_member("created")?;
        let updated_at = doc.integer_member("updated")?;
        let recipient = doc.optional_texts_member("recipient")?;
        let received = doc.optional_integer_member("received")?;
        Ok(
            SecretMetadata {
                customer_id,
                metadata_key,
                secret_key,
                ttl,
                state,
                created_at,
                updated_at,
                recipient,
                received,
            },
        )
    }
}

/// A secret that was read. Reading burns it: the text is here and nowhere else.
#[derive(Debug, Clone)]
pub struct RetrieveSecretResponse {
    pub secret: String,
    /// Metadata, where the caller has asked for it separately; an answer to a read carries
    /// none.
    pub metadata: Option<SecretMetadata>,
}

/// A [`RetrieveSecretResponse`] over sequences of characters.
pub struct RetrieveSecretResponseView {
    pub secret: Seq<char>,
    pub metadata: Option<SecretMetadataView>,
}

impl View for RetrieveSecretResponse {
    type V = RetrieveSecretResponseView;

    open spec fn view(&self) -> RetrieveSecretResponseView {
        RetrieveSecretResponseView { secret: self.secret@, metadata: self.metadata.deep_view() }
    }
}

impl DeepView for RetrieveSecretResponse {
    type V = RetrieveSecretResponseView;

    open spec fn deep_view(&self) -> RetrieveSecretResponseView {
        self@
    }
}

impl RetrieveSecretResponseView {
    /// The record that `doc` holds: the text of its member `value`.
    pub open spec fn decode(doc: JsonView) -> Result<RetrieveSecretResponseView, AppErrorView> {
        match doc.text_member("value"@) {
            Ok(secret) => Ok(RetrieveSecretResponseView { secret, metadata: None }),
            Err(e) => Err(e),
        }
    }

    /// What the answer to a request to read a secret amounts to.
    pub open spec fn read(answer: TransportOutcomeView) -> Result<
        RetrieveSecretResponseView,
        AppErrorView,
    > {
        match answer_document(answer) {
            Ok(document) => RetrieveSecretResponseView::decode(document),
            Err(e) => Err(e),
        }
    }
}

impl RetrieveSecretResponseView {
    /// The record as a JSON object.
    pub open spec fn document(self) -> JsonView {
        JsonView::Object(
            with_value(
                seq![("secret"@, JsonView::Text(self.secret))],
                "metadata"@,
                match self.metadata {
                    Some(metadata) => Some(metadata.document()),
                    None => None,
                },
            ),
        )
    }
}

impl RetrieveSecretResponse {
    /// The record as a JSON object.
    pub fn to_json(&self) -> (doc: JsonValue)
        ensures
            doc@ == self@.document(),
    {
        let mut members = ObjectBuilder::new();
        members.text("secret", self.secret.as_str());
        assert(members.members() =~= seq![("secret"@, JsonView::Text(self.secret@))]);
        match &self.metadata {
            Some(metadata) => {
                members.value("metadata", metadata.to_json());
            },
            None => {},
        }
        members.build()
    }

    /// Reads the record from the document of an answer.
    pub fn from_json(doc: &JsonValue) -> (result: Result<RetrieveSecretResponse, AppError>)
        ensures
            outcome(result) == RetrieveSecretResponseView::decode(doc@),
    {
        let secret = doc.text_member("value")?;
        Ok(RetrieveSecretResponse { secret, metadata: None })
    }
}

/// What the service says of itself.
#[derive(Debug, Clone)]
pub struct StatusResponse {
    pub status: String,
    pub version: Option<String>,
}

/// A [`StatusResponse`] over sequences of characters.
pub struct StatusResponseView {
    pub status: Seq<char>,
    pub version: Option<Seq<char>>,
}

impl View for StatusResponse {
    type V = StatusResponseView;

    open spec fn view(&self) -> StatusResponseView {
        StatusResponseView { status: self.status@, version: self.version.deep_view() }
    }
}

impl DeepView for StatusResponse {
    type V = StatusResponseView;

    open spec fn deep_view(&self) -> StatusResponseView {
        self@
    }
}

impl StatusResponseView {
    /// The record that `doc` holds, or the error for the first member that is missing or of
    /// the wrong type.
    pub open spec fn decode(doc: JsonView) -> Result<StatusResponseView, AppErrorView> {
        if doc.text_member("status"@) is Err {
            Err(doc.text_member("status"@)->Err_0)
        } else if doc.optional_text_member("version"@) is Err {
            Err(doc.optional_text_member("version"@)->Err_0)
        } else {
            Ok(
                StatusResponseView {
                    status: doc.text_member("status"@)->Ok_0,
                    version: doc.optional_text_member("version"@)->Ok_0,
                },
            )
        }
    }
}

impl StatusResponse {
    /// Reads the record from the document of an answer.
    pub fn from_json(doc: &JsonValue) -> (result: Result<StatusResponse, AppError>)
        ensures
            outcome(result) == StatusResponseView::decode(doc@),
    {
        let status = doc.text_member("status")?;
        let version = doc.optional_text_member("version")?;
        Ok(StatusResponse { status, version })
    }
}

} // verus!
