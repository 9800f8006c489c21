use std::time::Duration;

use yookasa_sdk::client::{Authorization, PreparedRequest, RequestMethod};
use yookasa_sdk::model::{PaymentId, WebhookId};
use yookasa_sdk::operation::Operation;
use yookasa_sdk::{ApiErrorBody, Auth, ErrorCode, YookassaClient, YookassaError};

fn build_client(base_url: &str, auth: Auth) -> YookassaClient {
    YookassaClient::builder(auth)
        .base_url(base_url)
        .build()
        .expect("build client")
}

fn is_v4_uuid_text(s: &str) -> bool {
    let chars: Vec<char> = s.chars().collect();
    chars.len() == 36
        && chars.iter().enumerate().all(|(i, c)| {
            if [8, 13, 18, 23].contains(&i) {
                *c == '-'
            } else {
                c.is_ascii_digit() || ('a'..='f').contains(c)
            }
        })
        && chars[14] == '4'
        && ['8', '9', 'a', 'b'].contains(&chars[19])
}

fn json_error() -> serde_json::Error {
    serde_json::from_str::<u8>("not json").expect_err("not json")
}

#[test]
fn create_payment_sends_basic_auth_body_and_idempotence_key() {
    let client = build_client("http://127.0.0.1:8080", Auth::basic("shop", "secret"));
    let request = client
        .prepare(&Operation::CreatePayment, Some("fixed-key_123"))
        .expect("prepare create payment");

    assert_eq!(request.method, RequestMethod::Post);
    assert_eq!(request.url, "http://127.0.0.1:8080/payments");
    assert_eq!(
        request.authorization,
        Authorization::Basic { username: "shop".to_string(), password: "secret".to_string() }
    );
    assert_eq!(request.idempotence_key.as_deref(), Some("fixed-key_123"));
}

#[test]
fn list_payments_sends_bearer_auth_and_query_params() {
    let client = build_client("http://127.0.0.1:8080", Auth::oauth("oauth-token"));
    let request = client.prepare(&Operation::ListPayments, None).expect("prepare list payments");

    assert_eq!(request.method, RequestMethod::Get);
    assert_eq!(request.url, "http://127.0.0.1:8080/payments");
    assert_eq!(request.authorization, Authorization::Bearer { token: "oauth-token".to_string() });
    assert_eq!(request.idempotence_key, None);
}

#[test]
fn get_payment_parses_api_error_body() {
    let client = build_client("http://127.0.0.1:8080", Auth::oauth("oauth-token"));
    let request = client
        .prepare(&Operation::GetPayment(PaymentId("missing".to_string())), None)
        .expect("prepare get payment");
    assert_eq!(request.method, RequestMethod::Get);
    assert_eq!(request.url, "http://127.0.0.1:8080/payments/missing");

    let body = ApiErrorBody {
        type_: Some("error".to_string()),
        id: Some("err-1".to_string()),
        code: Some(ErrorCode::NotFound),
        description: Some("payment not found".to_string()),
        parameter: Some("payment_id".to_string()),
        retry_after: None,
    };
    let error = YookassaClient::parse_response::<u8>(404, "{}".to_string(), Err(json_error()), Some(body))
        .expect_err("expected api error");
    match error {
        YookassaError::Api { status, body } => {
            assert_eq!(status, 404);
            assert_eq!(body.code, Some(ErrorCode::NotFound));
            assert_eq!(body.description.as_deref(), Some("payment not found"));
            assert_eq!(body.parameter.as_deref(), Some("payment_id"));
        }
        other => panic!("unexpected error: {other:?}"),
    }
}

#[test]
fn get_payment_returns_unexpected_status_for_non_json_error() {
    let client = build_client("http://127.0.0.1:8080", Auth::oauth("oauth-token"));
    let request = client
        .prepare(&Operation::GetPayment(PaymentId("pay-502".to_string())), None)
        .expect("prepare get payment");
    assert_eq!(request.url, "http://127.0.0.1:8080/payments/pay-502");

    let error = YookassaClient::parse_response::<u8>(
        502,
        "upstream failure".to_string(),
        Err(json_error()),
        None,
    )
    .expect_err("expected unexpected status");
    match error {
        YookassaError::UnexpectedStatus { status, body } => {
            assert_eq!(status, 502);
            assert_eq!(body, "upstream failure");
        }
        other => panic!("unexpected error: {other:?}"),
    }
}

#[test]
fn create_payment_rejects_invalid_idempotence_key_before_request() {
    let client = build_client("http://127.0.0.1:1", Auth::basic("shop", "secret"));
    let error = client
        .prepare(&Operation::CreatePayment, Some("contains space"))
        .expect_err("expected idempotence validation error");
    assert!(matches!(error, YookassaError::InvalidIdempotenceKey));
}

#[test]
fn webhook_endpoints_require_oauth_before_request() {
    let client = build_client("http://127.0.0.1:1", Auth::basic("shop", "secret"));

    let create_error = client
        .prepare(&Operation::CreateWebhook, Some("create-webhook-1"))
        .expect_err("expected oauth required");
    assert!(matches!(create_error, YookassaError::OAuthRequired));

    let list_error = client.prepare(&Operation::ListWebhooks, None).expect_err("expected oauth required");
    assert!(matches!(list_error, YookassaError::OAuthRequired));

    let delete_error = client
        .prepare(
            &Operation::DeleteWebhook(WebhookId::from("1da5c87d-0984-50e8-a7f3-8de646dd9ec9")),
            Some("delete-webhook-1"),
        )
        .expect_err("expected oauth required");
    assert!(matches!(delete_error, YookassaError::OAuthRequired));
}

#[test]
fn webhooks_are_prepared_for_oauth_clients() {
    let client = build_client("http://127.0.0.1:1", Auth::oauth("token"));
    let request = client
        .prepare(
            &Operation::DeleteWebhook(WebhookId::from("wh-1")),
            Some("delete-webhook-1"),
        )
        .expect("prepare delete webhook");
    assert_eq!(request.method, RequestMethod::Delete);
    assert_eq!(request.url, "http://127.0.0.1:1/webhooks/wh-1");
    assert_eq!(request.idempotence_key.as_deref(), Some("delete-webhook-1"));
}

#[test]
fn webhook_oauth_check_comes_before_key_check() {
    let client = build_client("http://127.0.0.1:1", Auth::basic("shop", "secret"));
    let error = client
        .prepare(&Operation::CreateWebhook, Some("bad key"))
        .expect_err("expected oauth required");
    assert!(matches!(error, YookassaError::OAuthRequired));
}

#[test]
fn post_without_key_gets_generated_uuid() {
    let client = build_client("http://127.0.0.1:1", Auth::basic("shop", "secret"));
    let request = client
        .prepare(&Operation::CancelPayment(PaymentId::from("p-1")), None)
        .expect("prepare cancel");
    assert_eq!(request.url, "http://127.0.0.1:1/payments/p-1/cancel");
    let key = request.idempotence_key.expect("generated key");
    assert!(is_v4_uuid_text(&key), "{key}");
}

#[test]
fn two_generated_keys_differ() {
    let a = YookassaClient::idempotence_key(None).expect("key");
    let b = YookassaClient::idempotence_key(None).expect("key");
    assert!(is_v4_uuid_text(&a));
    assert!(is_v4_uuid_text(&b));
    assert_ne!(a, b);
}

#[test]
fn get_ignores_offered_idempotence_key() {
    let client = build_client("http://127.0.0.1:1", Auth::oauth("t"));
    let request: PreparedRequest = client
        .prepare_path(RequestMethod::Get, "payments", Some("not a valid key"))
        .expect("get does not look at the key");
    assert_eq!(request.idempotence_key, None);
}

#[test]
fn idempotence_key_rules() {
    assert_eq!(YookassaClient::idempotence_key(Some("a")).unwrap(), "a");
    assert_eq!(YookassaClient::idempotence_key(Some("A-z_0.9+")).unwrap(), "A-z_0.9+");
    let longest = "k".repeat(64);
    assert_eq!(YookassaClient::idempotence_key(Some(&longest)).unwrap(), longest);
    let too_long = "k".repeat(65);
    for bad in ["", "contains space", "slash/", "ключ", too_long.as_str(), "a\u{0}"] {
        assert!(
            matches!(YookassaClient::idempotence_key(Some(bad)), Err(YookassaError::InvalidIdempotenceKey)),
            "{bad:?}"
        );
    }
}

#[test]
fn builder_defaults_and_setters() {
    let client = YookassaClient::new(Auth::basic("shop", "secret")).expect("client");
    assert_eq!(client.base_url(), "https://api.yookassa.ru/v3");
    assert!(!client.uses_oauth());
    assert_eq!(client.timeout(), None);
    assert_eq!(client.user_agent(), Some("yookasa-sdk/0.1.0"));

    let client = YookassaClient::builder(Auth::oauth("t"))
        .timeout(Duration::from_secs(15))
        .user_agent("my-app/1.0")
        .base_url("https://example.com/api///")
        .build()
        .expect("client");
    assert_eq!(client.base_url(), "https://example.com/api");
    assert!(client.uses_oauth());
    assert_eq!(client.timeout(), Some(Duration::from_secs(15)));
    assert_eq!(client.user_agent(), Some("my-app/1.0"));
    assert_eq!(client.clone().user_agent(), Some("my-app/1.0"));
    assert_eq!(client.auth(), &Auth::oauth("t"));
}

#[test]
fn invalid_user_agent_fails_to_build() {
    let result = YookassaClient::builder(Auth::oauth("t")).user_agent("bad\nagent").build();
    assert!(matches!(result, Err(YookassaError::Http(_))));
}

#[test]
fn endpoint_joins_with_one_slash() {
    let client = build_client("http://host/v3/", Auth::oauth("t"));
    assert_eq!(client.endpoint("payments"), "http://host/v3/payments");
    assert_eq!(client.endpoint("//payments"), "http://host/v3/payments");
    assert_eq!(client.endpoint(""), "http://host/v3/");
    assert_eq!(client.endpoint("a/b/"), "http://host/v3/a/b/");
    let bare = build_client("///", Auth::oauth("t"));
    assert_eq!(bare.base_url(), "");
    assert_eq!(bare.endpoint("/x"), "/x");
}

#[test]
fn parse_response_decodes_success() {
    assert_eq!(YookassaClient::parse_response::<u8>(200, "7".to_string(), Ok(7), None).unwrap(), 7);
    assert_eq!(YookassaClient::parse_response::<u8>(299, "7".to_string(), Ok(7), None).unwrap(), 7);
    assert!(matches!(
        YookassaClient::parse_response::<u8>(201, "x".to_string(), Err(json_error()), None),
        Err(YookassaError::Json(_))
    ));
    assert!(matches!(
        YookassaClient::parse_response::<u8>(300, "7".to_string(), Ok(7), None),
        Err(YookassaError::UnexpectedStatus { status: 300, .. })
    ));
    assert!(matches!(
        YookassaClient::parse_response::<u8>(199, "7".to_string(), Ok(7), None),
        Err(YookassaError::UnexpectedStatus { status: 199, .. })
    ));
    assert!(matches!(
        YookassaClient::parse_response::<()>(0, String::new(), Ok(()), None),
        Err(YookassaError::UnexpectedStatus { status: 0, .. })
    ));
}

#[test]
fn ensure_oauth_and_with_auth() {
    let basic = build_client("http://h", Auth::basic("s", "k"));
    assert!(matches!(basic.ensure_oauth(), Err(YookassaError::OAuthRequired)));
    assert_eq!(
        basic.with_auth(),
        Authorization::Basic { username: "s".to_string(), password: "k".to_string() }
    );
    let oauth = build_client("http://h", Auth::oauth("tok"));
    assert!(oauth.ensure_oauth().is_ok());
    assert_eq!(oauth.with_auth(), Authorization::Bearer { token: "tok".to_string() });
    let copy = oauth.clone();
    assert_eq!(copy.base_url(), "http://h");
    assert_eq!(copy.auth(), &Auth::oauth("tok"));
}
