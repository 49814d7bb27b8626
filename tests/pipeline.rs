use wazuh_cli::{
    basic_header, basic_header_from_encoded, bearer_header, build_transport, decode,
    error_from_envelope_parts, plan_transport, resolve_target, AuthAction, Authenticator,
    Config, ExecAction, Executor, FileFailure, HttpMethod, OutboundRequest, RawResponse,
    WazuhError,
};

fn response(status: u16, body: &str) -> RawResponse {
    RawResponse { status, body: body.to_string() }
}

fn sent(a: ExecAction) -> OutboundRequest {
    match a {
        ExecAction::Send(r) => r,
        other => panic!("expected a request, got {:?}", other),
    }
}

fn auth_sent(a: AuthAction) -> OutboundRequest {
    match a {
        AuthAction::Send(r) => r,
        other => panic!("expected a request, got {:?}", other),
    }
}

#[test]
fn no_token_fails_without_request() {
    let (_, a) = Executor::begin(HttpMethod::Get, "/agents", None, "https://h:1", None);
    match a {
        ExecAction::Finish(Err(WazuhError::AuthenticationError(m))) => {
            assert_eq!(m, "not authenticated")
        }
        other => panic!("unexpected {:?}", other),
    }
    let (_, a) = Executor::begin(HttpMethod::Post, "/agents", Some("{}".to_string()), "https://h:1", None);
    assert!(matches!(a, ExecAction::Finish(Err(WazuhError::AuthenticationError(_)))));
}

#[test]
fn first_request_carries_token_and_body() {
    let (_, a) = Executor::begin(
        HttpMethod::Put,
        "/agents/001/upgrade",
        Some("{\"force\":true}".to_string()),
        "https://h:1",
        Some("tok".to_string()),
    );
    let r = sent(a);
    assert_eq!(r.method, HttpMethod::Put);
    assert_eq!(r.url, "https://h:1/agents/001/upgrade");
    assert_eq!(r.authorization, "Bearer tok");
    assert_eq!(r.body.as_deref(), Some("{\"force\":true}"));
}

#[test]
fn targets_resolve() {
    assert_eq!(resolve_target("https://h:1", "/agents"), "https://h:1/agents");
    assert_eq!(resolve_target("https://h:1", "https://other/x"), "https://other/x");
    assert_eq!(resolve_target("https://h:1", "http://other/x"), "http://other/x");
    assert_eq!(resolve_target("https://h:1", "HTTPS://other/x"), "HTTPS://other/x");
    assert_eq!(resolve_target("https://h:1", "svn+ssh://r/p"), "svn+ssh://r/p");
    assert_eq!(resolve_target("https://h:1", "httpx/agents"), "https://h:1httpx/agents");
    assert_eq!(resolve_target("https://h:1", "1a://x"), "https://h:11a://x");
    assert_eq!(resolve_target("https://h:1", "a:/x"), "https://h:1a:/x");
    assert_eq!(resolve_target("https://h:1", "://x"), "https://h:1://x");
    assert_eq!(bearer_header("abc"), "Bearer abc");
}

#[test]
fn success_is_returned_without_retry() {
    let (mut m, a) = Executor::begin(HttpMethod::Get, "/x", None, "https://h:1", Some("t".to_string()));
    sent(a);
    match m.on_response(response(404, "missing")) {
        ExecAction::Finish(Ok(r)) => assert_eq!(r.status, 404),
        other => panic!("unexpected {:?}", other),
    }
}

#[test]
fn unauthorized_then_login_then_retry() {
    let (mut m, a) = Executor::begin(HttpMethod::Get, "/agents/007", None, "https://h:1", Some("old".to_string()));
    assert_eq!(sent(a).authorization, "Bearer old");
    assert!(matches!(m.on_response(response(401, "expired")), ExecAction::Authenticate));
    let retry = sent(m.on_login(Some("new".to_string())));
    assert_eq!(retry.url, "https://h:1/agents/007");
    assert_eq!(retry.authorization, "Bearer new");
    match m.on_response(response(401, "still refused")) {
        ExecAction::Finish(Ok(r)) => assert_eq!(r.status, 401),
        other => panic!("a second unauthorized answer must be returned, got {:?}", other),
    }
}

#[test]
fn failed_login_stops_the_call() {
    let (mut m, a) = Executor::begin(HttpMethod::Delete, "/agents/1", None, "https://h:1", Some("old".to_string()));
    sent(a);
    assert!(matches!(m.on_response(response(401, "")), ExecAction::Authenticate));
    let e = WazuhError::AuthenticationError("credentials required".to_string());
    match m.on_login_failed(e) {
        ExecAction::Finish(Err(WazuhError::AuthenticationError(msg))) => assert_eq!(msg, "credentials required"),
        other => panic!("unexpected {:?}", other),
    }
}

#[test]
fn transport_failure_is_not_retried() {
    let (mut m, a) = Executor::begin(HttpMethod::Get, "/x", None, "https://h:1", Some("t".to_string()));
    sent(a);
    assert!(matches!(m.on_failure(WazuhError::Timeout), ExecAction::Finish(Err(WazuhError::Timeout))));
}

#[test]
fn missing_token_after_login() {
    let (mut m, a) = Executor::begin(HttpMethod::Get, "/x", None, "https://h:1", Some("t".to_string()));
    sent(a);
    m.on_response(response(401, ""));
    assert!(matches!(m.on_login(None), ExecAction::Finish(Err(WazuhError::AuthenticationError(_)))));
}

#[test]
fn valid_token_is_probed_and_kept() {
    let (mut m, a) = Authenticator::begin(
        "https://h:1",
        Some("u".to_string()),
        Some("p".to_string()),
        Some("tok".to_string()),
    );
    let probe = auth_sent(a);
    assert_eq!(probe.method, HttpMethod::Get);
    assert_eq!(probe.url, "https://h:1/security/user/authenticate/run_as");
    assert_eq!(probe.authorization, "Bearer tok");
    assert!(matches!(m.on_response(response(200, "{}")), AuthAction::KeepToken));
}

#[test]
fn refused_token_leads_to_login() {
    let (mut m, a) = Authenticator::begin(
        "https://h:1",
        Some("user".to_string()),
        Some("pass".to_string()),
        Some("stale".to_string()),
    );
    auth_sent(a);
    let login = auth_sent(m.on_response(response(401, "")));
    assert_eq!(login.method, HttpMethod::Post);
    assert_eq!(login.url, "https://h:1/security/user/authenticate");
    assert_eq!(login.authorization, "Basic dXNlcjpwYXNz");
}

#[test]
fn login_stores_issued_token() {
    let mut config = Config::default();
    config.auth.username = Some("wazuh".to_string());
    config.auth.password = Some("secret".to_string());
    let (mut m, a) = Authenticator::begin(
        &config.api_url(),
        config.auth.username.clone(),
        config.auth.password.clone(),
        config.auth.token.clone(),
    );
    let login = auth_sent(a);
    assert_eq!(login.url, "https://localhost:55000/security/user/authenticate");
    match m.on_response(response(200, r#"{"error":0,"data":{"token":"abc"}}"#)) {
        AuthAction::StoreToken(t) => config.update_token(t),
        other => panic!("unexpected {:?}", other),
    }
    assert_eq!(config.auth.token.as_deref(), Some("abc"));
}

#[test]
fn login_without_credentials_sends_nothing() {
    let (_, a) = Authenticator::begin("https://h:1", Some("u".to_string()), None, None);
    match a {
        AuthAction::Fail(WazuhError::AuthenticationError(m)) => assert_eq!(m, "credentials required"),
        other => panic!("unexpected {:?}", other),
    }
}

#[test]
fn login_rejection_and_bad_body() {
    let (mut m, _) = Authenticator::begin("https://h:1", Some("u".to_string()), Some("p".to_string()), None);
    match m.on_response(response(401, r#"{"error":401,"message":"Invalid credentials"}"#)) {
        AuthAction::Fail(WazuhError::ApiError { code, message }) => {
            assert_eq!(code, 401);
            assert_eq!(message, "Invalid credentials");
        }
        other => panic!("unexpected {:?}", other),
    }
    let (mut m, _) = Authenticator::begin("https://h:1", Some("u".to_string()), Some("p".to_string()), None);
    assert!(matches!(
        m.on_response(response(200, r#"{"data":{}}"#)),
        AuthAction::Fail(WazuhError::SerializationError(_))
    ));
}

#[test]
fn probe_failure_is_reported() {
    let (mut m, _) = Authenticator::begin("https://h:1", None, None, Some("t".to_string()));
    assert!(matches!(m.on_failure(WazuhError::Timeout), AuthAction::Fail(WazuhError::Timeout)));
}

#[test]
fn retried_call_decodes_second_answer() {
    let (mut call, a) = Executor::begin(HttpMethod::Get, "/agents/007", None, "https://h:1", Some("old".to_string()));
    sent(a);
    assert!(matches!(call.on_response(response(401, "Unauthorized")), ExecAction::Authenticate));
    let (mut login, a) = Authenticator::begin("https://h:1", Some("u".to_string()), Some("p".to_string()), Some("old".to_string()));
    auth_sent(a);
    auth_sent(login.on_response(response(401, "")));
    let fresh = match login.on_response(response(200, r#"{"error":0,"data":{"token":"fresh"}}"#)) {
        AuthAction::StoreToken(t) => t,
        other => panic!("unexpected {:?}", other),
    };
    assert_eq!(sent(call.on_login(Some(fresh))).authorization, "Bearer fresh");
    let answer = match call.on_response(response(200, r#"{"error":0,"data":{"id":"007"}}"#)) {
        ExecAction::Finish(Ok(r)) => r,
        other => panic!("unexpected {:?}", other),
    };
    let body = decode(answer).unwrap();
    let v: serde_json::Value = serde_json::from_str(&body).unwrap();
    assert_eq!(v["data"]["id"], "007");
}

#[test]
fn decode_error_envelope() {
    match decode(response(400, r#"{"error":1001,"message":"bad agent","extra":true}"#)) {
        Err(WazuhError::ApiError { code, message }) => {
            assert_eq!(code, 1001);
            assert_eq!(message, "bad agent");
        }
        other => panic!("unexpected {:?}", other),
    }
}

#[test]
fn decode_plain_error_body() {
    match decode(response(502, "Bad Gateway")) {
        Err(WazuhError::ApiError { code, message }) => {
            assert_eq!(code, 502);
            assert_eq!(message, "Bad Gateway");
        }
        other => panic!("unexpected {:?}", other),
    }
}

#[test]
fn decode_incomplete_envelope() {
    match decode(response(500, r#"{"error":"x","message":"m"}"#)) {
        Err(WazuhError::ApiError { code, message }) => {
            assert_eq!(code, 500);
            assert_eq!(message, r#"{"error":"x","message":"m"}"#);
        }
        other => panic!("unexpected {:?}", other),
    }
    match decode(response(500, r#"{"error":4294967296,"message":"m"}"#)) {
        Err(WazuhError::ApiError { code, .. }) => assert_eq!(code, 500),
        other => panic!("unexpected {:?}", other),
    }
}

#[test]
fn decode_success_keeps_body() {
    assert_eq!(decode(response(200, "{\"error\":0}")).unwrap(), "{\"error\":0}");
    assert_eq!(decode(response(204, "")).unwrap(), "");
}

#[test]
fn envelope_parts() {
    let e = error_from_envelope_parts(418, "b".to_string(), true, Some(7), Some("m".to_string()));
    assert!(matches!(e, WazuhError::ApiError { code: 7, .. }));
    let e = error_from_envelope_parts(418, "b".to_string(), false, Some(7), Some("m".to_string()));
    assert!(matches!(e, WazuhError::ApiError { code: 418, .. }));
    let e = error_from_envelope_parts(418, "b".to_string(), true, None, Some("m".to_string()));
    assert!(matches!(e, WazuhError::ApiError { code: 418, .. }));
}

#[test]
fn basic_credentials() {
    assert_eq!(basic_header("user", "pass"), "Basic dXNlcjpwYXNz");
    assert_eq!(basic_header("wazuh", "wazuh"), "Basic d2F6dWg6d2F6dWg=");
    assert_eq!(basic_header_from_encoded("QQ=="), "Basic QQ==");
}

#[test]
fn transport_errors_classified() {
    let e = WazuhError::from_transport_parts(true, true, "x");
    assert!(matches!(e, WazuhError::Timeout));
    match WazuhError::from_transport_parts(false, true, "refused") {
        WazuhError::NetworkError(m) => assert_eq!(m, "Connection failed: refused"),
        other => panic!("unexpected {:?}", other),
    }
    match WazuhError::from_transport_parts(false, false, "reset") {
        WazuhError::NetworkError(m) => assert_eq!(m, "reset"),
        other => panic!("unexpected {:?}", other),
    }
}

#[test]
fn file_failures_classified() {
    let t = "gone".to_string();
    assert!(matches!(WazuhError::from_file_failure(FileFailure::NotFound, t.clone()), WazuhError::NotFound(_)));
    assert!(matches!(
        WazuhError::from_file_failure(FileFailure::PermissionDenied, t.clone()),
        WazuhError::PermissionDenied(_)
    ));
    assert!(matches!(WazuhError::from_file_failure(FileFailure::Other, t), WazuhError::Unknown(_)));
}

#[test]
fn transport_plan_follows_config() {
    let mut config = Config::default();
    let plan = plan_transport(&config);
    assert_eq!(plan.timeout_secs, 30);
    assert!(!plan.accept_invalid_certs);
    assert!(plan.ca_cert.is_none() && plan.client_identity.is_none());
    config.tls.verify = false;
    config.tls.ca_cert = Some("/etc/ca.pem".to_string());
    config.tls.client_cert = Some("/etc/c.pem".to_string());
    let plan = plan_transport(&config);
    assert!(plan.accept_invalid_certs);
    assert_eq!(plan.ca_cert.as_deref(), Some("/etc/ca.pem"));
    assert!(plan.client_identity.is_none());
    config.tls.client_key = Some("/etc/k.pem".to_string());
    let plan = plan_transport(&config);
    assert_eq!(plan.client_identity, Some(("/etc/c.pem".to_string(), "/etc/k.pem".to_string())));
}

#[test]
fn transport_builds_and_rejects_bad_identity() {
    let plan = plan_transport(&Config::default());
    assert!(build_transport(&plan, None, None).is_ok());
    match build_transport(&plan, None, Some(b"not a pem file".to_vec())) {
        Err(WazuhError::ConfigError(m)) => assert_eq!(m, "Failed to create client identity"),
        Err(other) => panic!("unexpected {:?}", other),
        Ok(_) => panic!("a bad identity must be refused"),
    }
}

#[test]
fn ca_file_without_certificate_is_refused() {
    let plan = plan_transport(&Config::default());
    match build_transport(&plan, Some(b"no certificate here".to_vec()), None) {
        Err(WazuhError::ConfigError(m)) => assert_eq!(m, "Failed to parse CA certificate"),
        Err(other) => panic!("unexpected {:?}", other),
        Ok(_) => panic!("a CA file without a certificate must be refused"),
    }
    let broken = b"-----BEGIN CERTIFICATE-----\n!!!!\n-----END CERTIFICATE-----\n".to_vec();
    match build_transport(&plan, Some(broken), Some(b"junk".to_vec())) {
        Err(WazuhError::ConfigError(m)) => assert_eq!(m, "Failed to parse CA certificate"),
        Err(other) => panic!("unexpected {:?}", other),
        Ok(_) => panic!("a badly encoded CA file must be refused"),
    }
}
