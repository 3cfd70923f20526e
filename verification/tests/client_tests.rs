use onetimesecret_desktop::api::client::{OtsClient, TtlPolicy, MAX_TTL_SECONDS};
use onetimesecret_desktop::api::types::{
    CreateSecretRequest, RetrieveSecretRequest, SecretMetadata, StatusResponse,
};
use onetimesecret_desktop::error::AppError;
use onetimesecret_desktop::json::JsonValue;
use onetimesecret_desktop::storage::ApiConfig;
use onetimesecret_desktop::transport::{HttpMethod, HttpRequest, TransportOutcome};
use std::cell::RefCell;

fn config() -> ApiConfig {
    ApiConfig {
        base_url: "https://example.test".to_string(),
        username: "user@example.test".to_string(),
        api_key: Some("abc".to_string()),
    }
}

fn answer(status: u16, body: &str) -> TransportOutcome {
    TransportOutcome::Response { status, body: body.to_string() }
}

/// A service that hands each secret out once.
struct BurningService {
    secrets: RefCell<Vec<(String, String)>>,
    requests: RefCell<Vec<HttpRequest>>,
}

impl BurningService {
    fn send(&self, request: HttpRequest) -> TransportOutcome {
        let key = request.url.rsplit('/').next().unwrap().to_string();
        self.requests.borrow_mut().push(request);
        let mut secrets = self.secrets.borrow_mut();
        match secrets.iter().position(|(k, _)| *k == key) {
            Some(i) => {
                let (k, v) = secrets.remove(i);
                answer(200, &format!("{{\"value\":\"{}\",\"secret_key\":\"{}\"}}", v, k))
            }
            None => answer(404, "{\"message\":\"Unknown secret\"}"),
        }
    }
}

#[test]
fn test_create_secret_validation() {
    let request = CreateSecretRequest {
        secret: "".to_string(),
        passphrase: None,
        ttl: 3600,
        recipient: None,
    };

    assert!(request.secret.is_empty());
}

#[test]
fn test_ttl_validation() {
    assert!(0 < 604800);
    assert!(604800 <= 604800);
}

#[test]
fn test_create_secret_request_serialization() {
    let request = CreateSecretRequest {
        secret: "test secret".to_string(),
        passphrase: Some("test passphrase".to_string()),
        ttl: 3600,
        recipient: Some("test@example.com".to_string()),
    };

    let json = request.to_json().render();
    assert!(json.contains("test secret"));
    assert!(json.contains("test passphrase"));
    assert!(json.contains("3600"));
}

#[test]
fn test_create_secret_request_without_optional_fields() {
    let request = CreateSecretRequest {
        secret: "test secret".to_string(),
        passphrase: None,
        ttl: 3600,
        recipient: None,
    };

    let json = request.to_json().render();
    let parsed: serde_json::Value = serde_json::from_str(&json).unwrap();

    assert!(parsed["secret"] == "test secret");
    assert!(parsed["passphrase"].is_null());
}

#[test]
fn test_retrieve_secret_request() {
    let request = RetrieveSecretRequest {
        key: "test-key-12345".to_string(),
        passphrase: Some("passphrase".to_string()),
    };

    assert_eq!(request.key, "test-key-12345");
    assert_eq!(request.passphrase, Some("passphrase".to_string()));
}

#[test]
fn test_command_serialization() {
    let request = CreateSecretRequest {
        secret: "test secret".to_string(),
        passphrase: Some("test passphrase".to_string()),
        ttl: 3600,
        recipient: None,
    };

    let json = request.to_json().render();
    assert!(json.contains("test secret"));
}

#[test]
fn absent_members_are_left_out_not_sent_as_null() {
    let request = CreateSecretRequest {
        secret: "s".to_string(),
        passphrase: None,
        ttl: 60,
        recipient: None,
    };
    assert_eq!(request.to_json().render(), "{\"secret\":\"s\",\"ttl\":60}");
}

#[test]
fn client_needs_a_stored_configuration_with_its_key() {
    assert!(matches!(
        OtsClient::from_config(None),
        Err(AppError::Configuration(m)) if m == "No API configuration found"
    ));
    let mut without_key = config();
    without_key.api_key = None;
    assert!(matches!(
        OtsClient::from_config(Some(without_key)),
        Err(AppError::Authentication(m)) if m == "No API key configured"
    ));
    let mut bad_url = config();
    bad_url.base_url = "not-a-url".to_string();
    assert!(matches!(OtsClient::new(bad_url), Err(AppError::InvalidInput(_))));
    let mut empty_key = config();
    empty_key.api_key = Some(String::new());
    assert!(matches!(OtsClient::new(empty_key), Err(AppError::InvalidInput(m)) if m == "API key cannot be empty"));
    assert!(OtsClient::from_config(Some(config())).is_ok());
}

#[test]
fn create_secret_with_empty_plaintext_makes_no_request() {
    let client = OtsClient::new(config()).unwrap();
    let result = client.create_secret(&CreateSecretRequest {
        secret: String::new(),
        passphrase: None,
        ttl: 3600,
        recipient: None,
    });
    assert!(matches!(result, Err(AppError::InvalidInput(m)) if m == "Secret cannot be empty"));
}

#[test]
fn ttl_bounds_are_checked_where_the_policy_says_so() {
    let request = |ttl: u32| CreateSecretRequest {
        secret: "s".to_string(),
        passphrase: None,
        ttl,
        recipient: None,
    };
    let strict = OtsClient::new(config()).unwrap();
    assert_eq!(MAX_TTL_SECONDS, 604800);
    assert!(strict.create_secret(&request(1)).is_ok());
    assert!(strict.create_secret(&request(604800)).is_ok());
    for ttl in [0, 604801, u32::MAX] {
        assert!(matches!(
            strict.create_secret(&request(ttl)),
            Err(AppError::InvalidInput(m)) if m == "TTL must be between 1 second and 7 days (604800 seconds)"
        ));
    }
    let lenient = OtsClient::new(config()).unwrap().with_ttl_policy(TtlPolicy::Unchecked);
    assert!(lenient.create_secret(&request(0)).is_ok());
    assert!(lenient.create_secret(&request(604801)).is_ok());
}

#[test]
fn end_to_end_create_yields_the_link() {
    let client = OtsClient::new(config()).unwrap();
    let request = client
        .create_secret(&CreateSecretRequest {
            secret: "hello".to_string(),
            passphrase: None,
            ttl: 3600,
            recipient: None,
        })
        .unwrap();
    assert_eq!(request.method, HttpMethod::Post);
    assert_eq!(request.url, "https://example.test/api/v2/share");
    assert_eq!(
        request.headers[0],
        ("Authorization".to_string(), "Basic dXNlckBleGFtcGxlLnRlc3Q6YWJj".to_string())
    );
    assert_eq!(request.body.as_deref(), Some("{\"secret\":\"hello\",\"ttl\":3600}"));
    let echo = answer(
        200,
        "{\"secret_key\":\"k1\",\"metadata_key\":\"m1\",\"ttl\":3600,\"created\":1000,\"updated\":1000}",
    );
    let created = client.read_created(&echo).unwrap();
    assert_eq!(created.link, "https://example.test/secret/k1");
    assert_eq!(created.secret_key, "k1");
    assert_eq!(created.metadata_key, "m1");
    assert_eq!(created.ttl, 3600);
    assert_eq!(created.created, 1000);
    assert_eq!(created.updated, 1000);
    assert_eq!(created.recipient, None);
}

#[test]
fn link_is_built_on_the_endpoint_without_trailing_slashes() {
    let mut c = config();
    c.base_url = "https://example.test/ots//".to_string();
    let client = OtsClient::new(c).unwrap();
    let created = client
        .read_created(&answer(
            200,
            "{\"secret_key\":\"k9\",\"metadata_key\":\"m9\",\"ttl\":1,\"created\":5,\"updated\":6,\
             \"recipient\":[\"a\",\"b\"]}",
        ))
        .unwrap();
    assert_eq!(created.link, "https://example.test/ots/secret/k9");
    assert_eq!(created.recipient, Some(vec!["a".to_string(), "b".to_string()]));
    assert_eq!(client.test_connection().url, "https://example.test/ots/api/v2/status");
}

#[test]
fn retrieving_twice_burns_the_secret() {
    let client = OtsClient::new(config()).unwrap();
    let service = BurningService {
        secrets: RefCell::new(vec![("k1".to_string(), "hello".to_string())]),
        requests: RefCell::new(Vec::new()),
    };
    let ask = RetrieveSecretRequest { key: "k1".to_string(), passphrase: None };

    let first = client.read_retrieved(&service.send(client.retrieve_secret(&ask).unwrap()));
    let first = first.unwrap();
    assert_eq!(first.secret, "hello");
    assert!(first.metadata.is_none());

    let second = client.read_retrieved(&service.send(client.retrieve_secret(&ask).unwrap()));
    assert!(matches!(second, Err(AppError::NotFound)));

    let sent = service.requests.borrow();
    assert_eq!(sent.len(), 2);
    assert_eq!(sent[0].url, "https://example.test/api/v2/secret/k1");
    assert_eq!(sent[1].url, sent[0].url);
    assert_eq!(sent[0].body.as_deref(), Some("{}"));
}

#[test]
fn retrieve_refuses_an_empty_key_and_sends_the_passphrase() {
    let client = OtsClient::new(config()).unwrap();
    let refused = client.retrieve_secret(&RetrieveSecretRequest { key: String::new(), passphrase: None });
    assert!(matches!(refused, Err(AppError::InvalidInput(m)) if m == "Secret key cannot be empty"));
    let request = client
        .retrieve_secret(&RetrieveSecretRequest {
            key: "k1".to_string(),
            passphrase: Some("open \"sesame\"".to_string()),
        })
        .unwrap();
    assert_eq!(request.body.as_deref(), Some("{\"passphrase\":\"open \\\"sesame\\\"\"}"));
}

#[test]
fn probe_is_decided_by_the_status_alone() {
    let client = OtsClient::new(config()).unwrap();
    assert_eq!(client.read_connection(&answer(200, "<html>")).unwrap(), true);
    assert_eq!(client.read_connection(&answer(299, "")).unwrap(), true);
    assert_eq!(client.read_connection(&answer(199, "")).unwrap(), false);
    assert_eq!(client.read_connection(&answer(300, "")).unwrap(), false);
    assert_eq!(client.read_connection(&answer(503, "down")).unwrap(), false);
    assert!(matches!(client.read_connection(&TransportOutcome::TimedOut), Err(AppError::Timeout)));
    assert!(matches!(
        client.read_connection(&TransportOutcome::Failed("dns".to_string())),
        Err(AppError::Network(m)) if m == "dns"
    ));
}

#[test]
fn metadata_request_and_record() {
    let client = OtsClient::new(config()).unwrap();
    let request = client.get_metadata("m1").unwrap();
    assert_eq!(request.method, HttpMethod::Post);
    assert_eq!(request.url, "https://example.test/api/v2/private/m1");
    assert_eq!(request.body, None);
    assert!(matches!(client.get_metadata(""), Err(AppError::InvalidInput(_))));
    let record: SecretMetadata = client
        .read_metadata(&answer(
            200,
            "{\"custid\":\"user@example.test\",\"metadata_key\":\"m1\",\"secret_key\":\"k1\",\"ttl\":3600,\
             \"state\":\"new\",\"created\":1000,\"updated\":1002}",
        ))
        .unwrap();
    assert_eq!(record.customer_id.as_deref(), Some("user@example.test"));
    assert_eq!(record.metadata_key, "m1");
    assert_eq!(record.secret_key, "k1");
    assert_eq!(record.ttl, 3600);
    assert_eq!(record.state, "new");
    assert_eq!(record.created_at, 1000);
    assert_eq!(record.updated_at, 1002);
    assert_eq!(record.received, None);
    let iso = client.read_metadata(&answer(
        200,
        "{\"metadata_key\":\"m1\",\"secret_key\":\"k1\",\"ttl\":3600,\"state\":\"new\",\
         \"created\":\"2024-01-01T00:00:00Z\",\"updated\":1002}",
    ));
    assert!(matches!(iso, Err(AppError::Serialization(m)) if m == "missing or invalid field: created"));
}

#[test]
fn status_record_is_read_from_json() {
    let doc = JsonValue::parse("{\"status\":\"nominal\",\"version\":\"0.20\"}").unwrap();
    let status = StatusResponse::from_json(&doc).unwrap();
    assert_eq!(status.status, "nominal");
    assert_eq!(status.version.as_deref(), Some("0.20"));
    let doc = JsonValue::parse("{\"version\":\"0.20\"}").unwrap();
    assert!(matches!(StatusResponse::from_json(&doc), Err(AppError::Serialization(_))));
}

#[test]
fn results_have_a_json_form() {
    let client = OtsClient::new(config()).unwrap();
    let created = client
        .read_created(&answer(
            200,
            "{\"secret_key\":\"k1\",\"metadata_key\":\"m1\",\"ttl\":3600,\"created\":1000,\"updated\":1001,\
             \"recipient\":[\"a@b.test\"]}",
        ))
        .unwrap();
    let doc: serde_json::Value = serde_json::from_str(&created.to_json().render()).unwrap();
    assert_eq!(doc.as_object().unwrap().len(), 7);
    assert_eq!(doc["link"], "https://example.test/secret/k1");
    assert_eq!(doc["ttl"], 3600);
    assert_eq!(doc["created"], 1000);
    assert_eq!(doc["updated"], 1001);
    assert_eq!(doc["recipient"][0], "a@b.test");

    let retrieved = client.read_retrieved(&answer(200, "{\"value\":\"hello\"}")).unwrap();
    assert_eq!(retrieved.to_json().render(), "{\"secret\":\"hello\"}");

    let record = client
        .read_metadata(&answer(
            200,
            "{\"metadata_key\":\"m1\",\"secret_key\":\"k1\",\"ttl\":60,\"state\":\"received\",\
             \"created\":1,\"updated\":2,\"received\":2}",
        ))
        .unwrap();
    assert_eq!(
        record.to_json().render(),
        "{\"created\":1,\"metadata_key\":\"m1\",\"received\":2,\"secret_key\":\"k1\",\
         \"state\":\"received\",\"ttl\":60,\"updated\":2}"
    );
}

#[test]
fn a_plaintext_endpoint_is_refused_when_the_client_is_built() {
    for base_url in ["http://example.test", "HTTP://example.test/", "ftp://example.test", "ws://example.test"] {
        let mut c = config();
        c.base_url = base_url.to_string();
        assert!(
            matches!(OtsClient::new(c.clone()), Err(AppError::Configuration(m)) if m == "Endpoint must use https"),
            "{}",
            base_url
        );
        assert!(matches!(OtsClient::from_config(Some(c)), Err(AppError::Configuration(_))));
    }
    let mut upper = config();
    upper.base_url = "HTTPS://Example.Test".to_string();
    assert!(OtsClient::new(upper).is_ok());
    // A defect of the credentials is reported before the scheme is looked at.
    let mut empty_key = config();
    empty_key.base_url = "http://example.test".to_string();
    empty_key.api_key = Some(String::new());
    assert!(matches!(OtsClient::new(empty_key), Err(AppError::InvalidInput(_))));
}
