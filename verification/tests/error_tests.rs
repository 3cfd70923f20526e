use onetimesecret_desktop::commands::{reported, test_api_connection};
use onetimesecret_desktop::error::{AppError, ErrorResponse};
use onetimesecret_desktop::json::JsonValue;
use onetimesecret_desktop::settings::{load_settings, save_settings, AppSettings};
use onetimesecret_desktop::storage::{require_https, StoreReply};
use onetimesecret_desktop::text::{join, contains_char, decimal, trim_trailing_slashes};
use onetimesecret_desktop::transport::{
    check_answer, classify_status, handle_probe, handle_response, status_is_success,
    TransportOutcome, TransportSettings,
};

fn every_error() -> Vec<(AppError, &'static str, &'static str)> {
    let m = || "why".to_string();
    vec![
        (AppError::Storage(m()), "Storage", "Storage error: why"),
        (AppError::Api(m()), "Api", "API error: why"),
        (AppError::Network(m()), "Network", "Network error: why"),
        (AppError::Serialization(m()), "Serialization", "Serialization error: why"),
        (AppError::InvalidInput(m()), "InvalidInput", "Invalid input: why"),
        (AppError::Authentication(m()), "Authentication", "Authentication failed: why"),
        (AppError::Configuration(m()), "Configuration", "Configuration error: why"),
        (AppError::NotFound, "NotFound", "Not found"),
        (AppError::RateLimited, "RateLimited", "Rate limit exceeded"),
        (AppError::ServiceUnavailable(m()), "ServiceUnavailable", "Service unavailable: why"),
        (AppError::Timeout, "Timeout", "Request timed out"),
        (AppError::PermissionDenied(m()), "PermissionDenied", "Permission denied: why"),
    ]
}

#[test]
fn every_error_has_its_kind_and_text() {
    for (error, kind, text) in every_error() {
        assert_eq!(error.kind(), kind);
        assert_eq!(error.to_string(), text);
        let response = ErrorResponse::from(error);
        assert_eq!(response.kind, kind);
        assert_eq!(response.error, text);
    }
}

#[test]
fn kinds_are_pairwise_distinct() {
    let kinds: Vec<String> = every_error().iter().map(|(e, _, _)| e.kind()).collect();
    for i in 0..kinds.len() {
        for j in 0..i {
            assert_ne!(kinds[i], kinds[j]);
        }
    }
}

#[test]
fn status_codes_map_to_their_kinds_whatever_the_body() {
    for body in ["", "{\"message\":\"no\"}", "<html>teapot</html>"] {
        assert!(matches!(classify_status(400, body), AppError::InvalidInput(m) if m == body));
        assert!(matches!(classify_status(401, body), AppError::Authentication(m) if m == "Invalid credentials"));
        assert!(matches!(classify_status(403, body), AppError::PermissionDenied(m) if m == body));
        assert!(matches!(classify_status(404, body), AppError::NotFound));
        assert!(matches!(classify_status(429, body), AppError::RateLimited));
        assert!(matches!(classify_status(500, body), AppError::ServiceUnavailable(m) if m == body));
        assert!(matches!(classify_status(502, body), AppError::ServiceUnavailable(_)));
        assert!(matches!(classify_status(503, body), AppError::ServiceUnavailable(_)));
        assert!(matches!(classify_status(599, body), AppError::ServiceUnavailable(_)));
    }
}

#[test]
fn other_statuses_are_api_errors_with_status_and_body() {
    assert!(matches!(classify_status(418, "teapot"), AppError::Api(m) if m == "HTTP 418: teapot"));
    assert!(matches!(classify_status(302, ""), AppError::Api(m) if m == "HTTP 302: "));
    assert!(matches!(classify_status(600, "x"), AppError::Api(m) if m == "HTTP 600: x"));
    assert!(matches!(classify_status(499, "x"), AppError::Api(m) if m == "HTTP 499: x"));
    assert!(matches!(classify_status(0, "x"), AppError::Api(m) if m == "HTTP 0: x"));
    assert!(matches!(classify_status(65535, "x"), AppError::Api(m) if m == "HTTP 65535: x"));
}

#[test]
fn success_is_200_to_299() {
    assert!(!status_is_success(199));
    assert!(status_is_success(200));
    assert!(status_is_success(204));
    assert!(status_is_success(299));
    assert!(!status_is_success(300));
}

#[test]
fn answers_are_read_into_documents_or_errors() {
    let ok = TransportOutcome::Response { status: 201, body: "{\"a\":[1,true,null]}".to_string() };
    let doc = handle_response(&ok).unwrap();
    assert!(matches!(doc.get("a"), Some(JsonValue::Array(items)) if items.len() == 3));
    let not_json = TransportOutcome::Response { status: 200, body: "<html>".to_string() };
    assert!(matches!(handle_response(&not_json), Err(AppError::Serialization(m)) if m.starts_with("expected value")));
    let refused = TransportOutcome::Response { status: 403, body: "no".to_string() };
    assert!(matches!(handle_response(&refused), Err(AppError::PermissionDenied(m)) if m == "no"));
    assert!(matches!(handle_response(&TransportOutcome::TimedOut), Err(AppError::Timeout)));
    let failed = TransportOutcome::Failed("connection refused".to_string());
    assert!(matches!(handle_response(&failed), Err(AppError::Network(m)) if m == "connection refused"));
    assert!(check_answer(&ok).is_ok());
    assert!(check_answer(&not_json).is_ok());
    assert!(matches!(check_answer(&refused), Err(AppError::PermissionDenied(_))));
    assert_eq!(handle_probe(&refused).unwrap(), false);
}

#[test]
fn transport_settings_are_fixed() {
    let settings = TransportSettings::standard();
    assert_eq!(settings.timeout_secs, 30);
    assert_eq!(settings.connect_timeout_secs, 10);
    assert!(settings.https_only);
    assert_eq!(settings.user_agent, "OnetimesecretDesktop/0.1.0");
}

#[test]
fn text_helpers() {
    assert_eq!(trim_trailing_slashes("https://example.test///"), "https://example.test");
    assert_eq!(trim_trailing_slashes("https://example.test/a/b"), "https://example.test/a/b");
    assert_eq!(trim_trailing_slashes("///"), "");
    assert_eq!(trim_trailing_slashes(""), "");
    assert_eq!(trim_trailing_slashes("\u{e9}/\u{1f600}/"), "\u{e9}/\u{1f600}");
    assert!(contains_char("a@b", '@'));
    assert!(!contains_char("ab", '@'));
    assert!(!contains_char("", '@'));
    assert_eq!(decimal(0), "0");
    assert_eq!(decimal(7), "7");
    assert_eq!(decimal(10), "10");
    assert_eq!(decimal(404), "404");
    assert_eq!(decimal(u64::MAX), "18446744073709551615");
    assert_eq!(join("ab", "cd"), "abcd");
}

#[test]
fn json_values_are_parsed_and_rendered_by_serde_json() {
    let doc = JsonValue::parse("{\"value\":\"s3\\u00e9cret\",\"n\":-7,\"big\":18446744073709551615,\"f\":1.5}")
        .unwrap();
    assert!(matches!(doc.get("value"), Some(JsonValue::Text(t)) if t == "s3\u{e9}cret"));
    assert!(matches!(doc.get("n"), Some(JsonValue::Integer(-7))));
    assert!(matches!(doc.get("big"), Some(JsonValue::Number(d)) if d == "18446744073709551615"));
    assert!(matches!(doc.get("f"), Some(JsonValue::Number(d)) if d == "1.5"));
    assert!(doc.get("missing").is_none());
    assert!(JsonValue::Null.get("value").is_none());
    assert_eq!(doc.text_member("value").unwrap(), "s3\u{e9}cret");
    assert_eq!(doc.integer_member("n").unwrap(), -7);
    assert!(matches!(doc.u32_member("n"), Err(AppError::Serialization(m)) if m == "missing or invalid field: n"));
    assert!(matches!(JsonValue::parse(""), Err(AppError::Serialization(_))));
    assert!(matches!(JsonValue::parse("{} x"), Err(AppError::Serialization(_))));

    let value = JsonValue::Object(vec![
        ("t".to_string(), JsonValue::Text("a\"b".to_string())),
        ("l".to_string(), JsonValue::Array(vec![JsonValue::Null, JsonValue::Bool(false), JsonValue::Integer(3)])),
        ("d".to_string(), JsonValue::Number("2.5".to_string())),
    ]);
    assert_eq!(value.render(), "{\"d\":2.5,\"l\":[null,false,3],\"t\":\"a\\\"b\"}");
}

#[test]
fn first_member_of_a_name_wins() {
    let value = JsonValue::Object(vec![
        ("a".to_string(), JsonValue::Integer(1)),
        ("a".to_string(), JsonValue::Integer(2)),
    ]);
    assert!(matches!(value.get("a"), Some(JsonValue::Integer(1))));
}

#[test]
fn optional_members_may_be_missing_or_null() {
    let doc = JsonValue::parse("{\"t\":null,\"l\":[\"x\",1],\"b\":true,\"i\":5}").unwrap();
    assert_eq!(doc.optional_text_member("t").unwrap(), None);
    assert_eq!(doc.optional_text_member("absent").unwrap(), None);
    assert!(doc.optional_text_member("i").is_err());
    assert_eq!(doc.optional_bool_member("b").unwrap(), Some(true));
    assert!(doc.optional_bool_member("i").is_err());
    assert_eq!(doc.optional_integer_member("i").unwrap(), Some(5));
    assert_eq!(doc.optional_u32_member("i").unwrap(), Some(5));
    assert_eq!(doc.optional_u32_member("t").unwrap(), None);
    assert!(matches!(doc.optional_texts_member("l"), Err(AppError::Serialization(m)) if m == "missing or invalid field: l"));
    assert_eq!(doc.optional_texts_member("t").unwrap(), None);
    let doc = JsonValue::parse("{\"l\":[]}").unwrap();
    assert_eq!(doc.optional_texts_member("l").unwrap(), Some(Vec::new()));
}

#[test]
fn settings_have_defaults_and_a_json_form() {
    let settings = AppSettings::default();
    assert_eq!(settings.api_endpoint, "https://onetimesecret.dev");
    assert_eq!(settings.default_ttl, 604800);
    assert_eq!(settings.theme, "system");
    assert_eq!(settings.api_username, None);
    assert_eq!(settings.api_key, None);
    let text = settings.to_json().render();
    assert_eq!(
        text,
        "{\"api_endpoint\":\"https://onetimesecret.dev\",\"default_ttl\":604800,\"theme\":\"system\"}"
    );
    let mut chosen = AppSettings::default();
    chosen.theme = "dark".to_string();
    chosen.api_username = Some("user@example.test".to_string());
    chosen.api_key = Some("abc".to_string());
    let back = AppSettings::from_json(&JsonValue::parse(&chosen.to_json().render()).unwrap()).unwrap();
    assert_eq!(back.theme, "dark");
    assert_eq!(back.api_username.as_deref(), Some("user@example.test"));
    assert_eq!(back.api_key.as_deref(), Some("abc"));
    assert_eq!(back.default_ttl, 604800);
    let partial = JsonValue::parse("{\"api_endpoint\":\"https://x.test\",\"theme\":\"dark\"}").unwrap();
    assert!(matches!(AppSettings::from_json(&partial), Err(AppError::Serialization(m)) if m == "missing or invalid field: default_ttl"));
}

#[test]
fn commands_report_errors_as_text() {
    let ok = test_api_connection(Ok(true));
    assert!(ok.success && ok.error.is_none());
    let refused = test_api_connection(Ok(false));
    assert!(!refused.success && refused.error.is_none());
    let failed = test_api_connection(Err(AppError::Configuration("No API configuration found".to_string())));
    assert!(!failed.success);
    assert_eq!(failed.error.as_deref(), Some("Configuration error: No API configuration found"));
    assert_eq!(reported(Ok::<u8, AppError>(3)), Ok(3));
    assert_eq!(reported(Err::<u8, AppError>(AppError::NotFound)), Err("Not found".to_string()));
}

#[test]
fn reports_have_a_json_form() {
    let failed = test_api_connection(Err(AppError::Timeout));
    assert_eq!(failed.to_json().render(), "{\"error\":\"Request timed out\",\"success\":false}");
    assert_eq!(test_api_connection(Ok(true)).to_json().render(), "{\"success\":true}");
    let response = ErrorResponse::from(AppError::RateLimited);
    assert_eq!(response.to_json().render(), "{\"error\":\"Rate limit exceeded\",\"kind\":\"RateLimited\"}");
}

#[test]
fn only_https_passes() {
    assert!(require_https("https").is_ok());
    for scheme in ["http", "HTTPS", "https ", "", "httpss", "ftp"] {
        assert!(
            matches!(require_https(scheme), Err(AppError::Configuration(m)) if m == "Endpoint must use https"),
            "{:?}",
            scheme
        );
    }
}

#[test]
fn settings_are_checked_before_they_are_stored() {
    let text = "{\"api_endpoint\":\"https://x.test\",\"default_ttl\":60,\"theme\":\"dark\",\"api_key\":null}";
    let settings = save_settings(text).unwrap();
    assert_eq!(settings.api_endpoint, "https://x.test");
    assert_eq!(settings.default_ttl, 60);
    assert_eq!(settings.theme, "dark");
    assert_eq!(settings.api_key, None);
    for bad in ["", "{not json", "[]", "{\"api_endpoint\":\"https://x.test\",\"theme\":\"dark\"}"] {
        assert!(
            matches!(save_settings(bad), Err(AppError::InvalidInput(m)) if m == "Invalid settings format"),
            "{:?}",
            bad
        );
    }
}

#[test]
fn settings_fall_back_to_the_standard_ones() {
    let standard =
        "{\"api_endpoint\":\"https://onetimesecret.dev\",\"default_ttl\":604800,\"theme\":\"system\"}";
    assert_eq!(load_settings(StoreReply::Found("{\"theme\":\"dark\"}".to_string())), "{\"theme\":\"dark\"}");
    assert_eq!(load_settings(StoreReply::Missing), standard);
    assert_eq!(load_settings(StoreReply::Failed("locked".to_string())), standard);
    assert_eq!(load_settings(StoreReply::Done), standard);
    assert_eq!(AppSettings::storage_key(), "app_settings");
}
