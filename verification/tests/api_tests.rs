use onetimesecret_desktop::api::{
    CreateSecretRequest, CreateSecretResponse, OtsApiClient, RetrieveSecretRequest,
    RetrieveSecretResponse, SecretMetadata,
};
use onetimesecret_desktop::error::AppError;
use onetimesecret_desktop::json::JsonValue;
use onetimesecret_desktop::storage::ApiCredentials;
use onetimesecret_desktop::transport::{HttpMethod, TransportOutcome};

fn credentials() -> ApiCredentials {
    ApiCredentials {
        identity: "user@example.test".to_string(),
        secret_key: "abc".to_string(),
        endpoint: "https://example.test/".to_string(),
    }
}

fn answer(status: u16, body: &str) -> TransportOutcome {
    TransportOutcome::Response { status, body: body.to_string() }
}

#[test]
fn test_create_secret_request_validation() {
    let valid = CreateSecretRequest {
        secret: "test secret".to_string(),
        passphrase: None,
        ttl: Some(3600),
        recipient: None,
    };
    assert!(!valid.secret.is_empty());

    let invalid = CreateSecretRequest {
        secret: "".to_string(),
        passphrase: None,
        ttl: None,
        recipient: None,
    };
    assert!(invalid.secret.is_empty());
}

#[test]
fn test_retrieve_secret_request_validation() {
    let valid = RetrieveSecretRequest {
        secret_key: "abc123".to_string(),
        passphrase: None,
    };
    assert!(!valid.secret_key.is_empty());

    let invalid = RetrieveSecretRequest {
        secret_key: "".to_string(),
        passphrase: None,
    };
    assert!(invalid.secret_key.is_empty());
}

#[test]
fn new_refuses_invalid_credentials() {
    let mut c = credentials();
    c.identity = String::new();
    assert!(matches!(OtsApiClient::new(c), Err(AppError::InvalidInput(m)) if m == "Identity cannot be empty"));
    let mut c = credentials();
    c.secret_key = String::new();
    assert!(matches!(OtsApiClient::new(c), Err(AppError::InvalidInput(m)) if m == "API key cannot be empty"));
    let mut c = credentials();
    c.endpoint = String::new();
    assert!(matches!(OtsApiClient::new(c), Err(AppError::InvalidInput(m)) if m == "Endpoint cannot be empty"));
    let mut c = credentials();
    c.endpoint = "not-a-url".to_string();
    assert!(matches!(OtsApiClient::new(c), Err(AppError::InvalidInput(m)) if m == "Invalid URL: relative URL without a base"));
    assert!(OtsApiClient::new(credentials()).is_ok());
}

#[test]
fn wire_create_request_has_only_the_members_that_are_present() {
    let client = OtsApiClient::new(credentials()).unwrap();
    let request = client
        .create_secret(CreateSecretRequest {
            secret: "hello".to_string(),
            passphrase: None,
            ttl: None,
            recipient: Some("friend@example.test".to_string()),
        })
        .unwrap();
    assert_eq!(request.method, HttpMethod::Post);
    assert_eq!(request.url, "https://example.test/api/v2/share");
    assert_eq!(
        request.headers,
        vec![
            ("Authorization".to_string(), "Basic dXNlckBleGFtcGxlLnRlc3Q6YWJj".to_string()),
            ("Content-Type".to_string(), "application/json".to_string()),
        ]
    );
    let body: serde_json::Value = serde_json::from_str(&request.body.unwrap()).unwrap();
    let object = body.as_object().unwrap();
    assert_eq!(object.len(), 2);
    assert_eq!(body["secret"], "hello");
    assert_eq!(body["recipient"], "friend@example.test");
}

#[test]
fn wire_create_refuses_an_empty_secret() {
    let client = OtsApiClient::new(credentials()).unwrap();
    let result = client.create_secret(CreateSecretRequest {
        secret: String::new(),
        passphrase: None,
        ttl: Some(3600),
        recipient: None,
    });
    assert!(matches!(result, Err(AppError::InvalidInput(m)) if m == "Secret value cannot be empty"));
}

#[test]
fn wire_retrieve_request_always_has_a_body() {
    let client = OtsApiClient::new(credentials()).unwrap();
    let request = client
        .retrieve_secret(RetrieveSecretRequest { secret_key: "k1".to_string(), passphrase: None })
        .unwrap();
    assert_eq!(request.method, HttpMethod::Post);
    assert_eq!(request.url, "https://example.test/api/v2/secret/k1");
    assert_eq!(request.body.as_deref(), Some("{}"));
    let request = client
        .retrieve_secret(RetrieveSecretRequest {
            secret_key: "k1".to_string(),
            passphrase: Some("open".to_string()),
        })
        .unwrap();
    assert_eq!(request.body.as_deref(), Some("{\"passphrase\":\"open\"}"));
    let refused = client
        .retrieve_secret(RetrieveSecretRequest { secret_key: String::new(), passphrase: None });
    assert!(matches!(refused, Err(AppError::InvalidInput(m)) if m == "Secret key cannot be empty"));
}

#[test]
fn wire_burn_and_metadata_requests() {
    let client = OtsApiClient::new(credentials()).unwrap();
    let burn = client.delete_secret("m1").unwrap();
    assert_eq!(burn.method, HttpMethod::Post);
    assert_eq!(burn.url, "https://example.test/api/v2/private/m1");
    assert_eq!(burn.body.as_deref(), Some("{\"action\":\"burn\"}"));
    let metadata = client.get_metadata("m1").unwrap();
    assert_eq!(metadata.method, HttpMethod::Post);
    assert_eq!(metadata.url, "https://example.test/api/v2/private/m1");
    assert_eq!(metadata.body, None);
    assert_eq!(
        metadata.headers,
        vec![("Authorization".to_string(), "Basic dXNlckBleGFtcGxlLnRlc3Q6YWJj".to_string())]
    );
    assert!(matches!(client.delete_secret(""), Err(AppError::InvalidInput(m)) if m == "Metadata key cannot be empty"));
    assert!(matches!(client.get_metadata(""), Err(AppError::InvalidInput(m)) if m == "Metadata key cannot be empty"));
}

#[test]
fn wire_probe_request_and_answer() {
    let client = OtsApiClient::new(credentials()).unwrap();
    let probe = client.test_connection();
    assert_eq!(probe.method, HttpMethod::Get);
    assert_eq!(probe.url, "https://example.test/api/v2/status");
    assert_eq!(probe.body, None);
    assert!(client.read_connection(&answer(204, "")).is_ok());
    assert!(client.read_connection(&answer(200, "not json at all")).is_ok());
    assert!(matches!(client.read_connection(&answer(401, "x")), Err(AppError::Authentication(_))));
    assert!(matches!(client.read_connection(&TransportOutcome::TimedOut), Err(AppError::Timeout)));
}

#[test]
fn wire_reads_a_created_secret() {
    let client = OtsApiClient::new(credentials()).unwrap();
    let body = "{\"secret_key\":\"k1\",\"metadata_key\":\"m1\",\"ttl\":3600,\"metadata_ttl\":7200,\
                \"secret_ttl\":3600,\"state\":\"new\",\"updated\":1001,\"created\":1000,\
                \"recipient\":[\"fr*****@e*****.test\"],\"passphrase_required\":true}";
    let created: CreateSecretResponse = client.read_created(&answer(200, body)).unwrap();
    assert_eq!(created.secret_key, "k1");
    assert_eq!(created.metadata_key, "m1");
    assert_eq!(created.ttl, 3600);
    assert_eq!(created.metadata_ttl, Some(7200));
    assert_eq!(created.secret_ttl, Some(3600));
    assert_eq!(created.state.as_deref(), Some("new"));
    assert_eq!(created.updated, 1001);
    assert_eq!(created.created, 1000);
    assert_eq!(created.recipient, Some(vec!["fr*****@e*****.test".to_string()]));
    assert_eq!(created.passphrase_required, Some(true));
}

#[test]
fn wire_reads_the_documented_minimum_of_a_created_secret() {
    let doc = JsonValue::parse(
        "{\"secret_key\":\"k1\",\"metadata_key\":\"m1\",\"ttl\":3600,\"created\":1000,\"updated\":1000}",
    )
    .unwrap();
    let created = CreateSecretResponse::from_json(&doc).unwrap();
    assert_eq!(created.metadata_ttl, None);
    assert_eq!(created.state, None);
    assert_eq!(created.recipient, None);
}

#[test]
fn wire_reports_the_first_member_that_is_wrong() {
    let client = OtsApiClient::new(credentials()).unwrap();
    let missing = client.read_created(&answer(200, "{\"secret_key\":\"k1\"}"));
    assert!(matches!(missing, Err(AppError::Serialization(m)) if m == "missing or invalid field: metadata_key"));
    let wrong_type = client.read_created(&answer(
        200,
        "{\"secret_key\":\"k1\",\"metadata_key\":\"m1\",\"ttl\":\"long\",\"created\":1,\"updated\":1}",
    ));
    assert!(matches!(wrong_type, Err(AppError::Serialization(m)) if m == "missing or invalid field: ttl"));
    let fraction = client.read_created(&answer(
        200,
        "{\"secret_key\":\"k1\",\"metadata_key\":\"m1\",\"ttl\":1.5,\"created\":1,\"updated\":1}",
    ));
    assert!(matches!(fraction, Err(AppError::Serialization(m)) if m == "missing or invalid field: ttl"));
    let too_large = client.read_created(&answer(
        200,
        "{\"secret_key\":\"k1\",\"metadata_key\":\"m1\",\"ttl\":4294967296,\"created\":1,\"updated\":1}",
    ));
    assert!(matches!(too_large, Err(AppError::Serialization(m)) if m == "missing or invalid field: ttl"));
    let not_an_object = client.read_created(&answer(200, "[1,2]"));
    assert!(matches!(not_an_object, Err(AppError::Serialization(m)) if m == "missing or invalid field: secret_key"));
}

#[test]
fn wire_reads_a_retrieved_secret_and_metadata() {
    let client = OtsApiClient::new(credentials()).unwrap();
    let got: RetrieveSecretResponse = client
        .read_retrieved(&answer(200, "{\"value\":\"hello\",\"secret_key\":\"k1\",\"metadata_key\":null}"))
        .unwrap();
    assert_eq!(got.value, "hello");
    assert_eq!(got.secret_key, "k1");
    assert_eq!(got.metadata_key, None);
    let burned: SecretMetadata = client
        .read_metadata(&answer(
            200,
            "{\"secret_key\":\"k1\",\"metadata_key\":\"m1\",\"ttl\":60,\"state\":\"burned\",\
             \"created\":1000,\"updated\":1005,\"received\":1004}",
        ))
        .unwrap();
    assert_eq!(burned.state, "burned");
    assert_eq!(burned.received, Some(1004));
    assert_eq!(burned.ttl, 60);
    assert_eq!(burned.recipient, None);
}

#[test]
fn wire_second_read_of_a_secret_is_not_found() {
    let client = OtsApiClient::new(credentials()).unwrap();
    let first = client.read_retrieved(&answer(200, "{\"value\":\"hello\",\"secret_key\":\"k1\"}"));
    assert_eq!(first.unwrap().value, "hello");
    let second = client.read_retrieved(&answer(404, "{\"value\":\"hello\",\"secret_key\":\"k1\"}"));
    assert!(matches!(second, Err(AppError::NotFound)));
}

#[test]
fn wire_client_refuses_a_plaintext_endpoint() {
    let mut c = credentials();
    c.endpoint = "http://example.test".to_string();
    assert!(c.validate().is_ok());
    assert_eq!(c.endpoint_scheme().unwrap(), "http");
    assert!(matches!(OtsApiClient::new(c), Err(AppError::Configuration(m)) if m == "Endpoint must use https"));
    assert_eq!(credentials().endpoint_scheme().unwrap(), "https");
}
