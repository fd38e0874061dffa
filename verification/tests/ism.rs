use buzz::ism::{
    check_issue_status, check_login_status, check_status, comment_fields, create_issue_fields,
    current_time, moment_of_reading, token_expiry, usable_token, CachedToken, IsmClient, IsmError, Timestamp,
    TokenStep,
};

#[test]
fn test_client_creation_with_valid_url() {
    let result = IsmClient::new(
        "http://192.168.0.200:8080".to_string(),
        "user@example.com".to_string(),
        "password".to_string(),
    );
    assert!(result.is_ok());
}

#[test]
fn test_client_creation_with_invalid_url() {
    let result = IsmClient::new(
        "not a url".to_string(),
        "user@example.com".to_string(),
        "password".to_string(),
    );
    assert!(result.is_err());
}

fn client() -> IsmClient {
    IsmClient::new(
        "http://ism.local:8080".to_string(),
        "svc@example.com".to_string(),
        "secret".to_string(),
    )
    .expect("valid url")
}

#[test]
fn invalid_url_message() {
    match IsmClient::new("not a url".to_string(), String::new(), String::new()) {
        Err(IsmError::Config(m)) => {
            assert_eq!(m, "invalid base_url: relative URL without a base")
        }
        other => panic!("unexpected: {:?}", other.is_ok()),
    }
    match IsmClient::new("http://".to_string(), String::new(), String::new()) {
        Err(e) => assert_eq!(e.message(), "Configuration error: invalid base_url: empty host"),
        Ok(_) => panic!("accepted a URL without host"),
    }
}

#[test]
fn endpoints() {
    let c = client();
    assert_eq!(c.login_url(), "http://ism.local:8080/api/v1/auth/login");
    assert_eq!(c.issue_url("ISM-1"), "http://ism.local:8080/api/v1/issues/ISM-1");
    assert_eq!(c.comments_url("ISM-1"), "http://ism.local:8080/api/v1/issues/ISM-1/comments");
    assert_eq!(
        c.attachments_url("ISM-1"),
        "http://ism.local:8080/api/v1/issues/ISM-1/attachments"
    );
    assert_eq!(c.issues_url(), "http://ism.local:8080/api/v1/issues");
    assert_eq!(c.service_email(), "svc@example.com");
    assert_eq!(c.service_password(), "secret");
}

#[test]
fn request_fields() {
    let c = client();
    assert_eq!(
        c.login_fields(),
        vec![
            ("email".to_string(), "svc@example.com".to_string()),
            ("password".to_string(), "secret".to_string())
        ]
    );
    assert_eq!(comment_fields("hi"), vec![("body".to_string(), "hi".to_string())]);
    assert_eq!(
        create_issue_fields("T", Some("D")),
        vec![("title".to_string(), "T".to_string()), ("description".to_string(), "D".to_string())]
    );
    assert_eq!(create_issue_fields("T", None), vec![("title".to_string(), "T".to_string())]);
}

#[test]
fn response_classification() {
    assert!(check_status(200, "200 OK", "").is_ok());
    assert!(check_status(204, "204 No Content", "").is_ok());
    match check_status(500, "500 Internal Server Error", "oops") {
        Err(IsmError::ApiError(m)) => assert_eq!(m, "status 500 Internal Server Error: oops"),
        _ => panic!("expected an API error"),
    }
    match check_issue_status(404, "404 Not Found", "", "ISM-9") {
        Err(IsmError::NotFound { id }) => assert_eq!(id, "ISM-9"),
        _ => panic!("expected not found"),
    }
    assert!(matches!(check_issue_status(301, "301 Moved Permanently", "x", "I"), Err(IsmError::ApiError(_))));
    assert!(check_issue_status(200, "200 OK", "", "I").is_ok());
    match check_login_status(401, "401 Unauthorized", "bad") {
        Err(e) => assert_eq!(e.message(), "Authentication failed: status 401 Unauthorized: bad"),
        Ok(_) => panic!("expected auth failure"),
    }
    assert!(check_login_status(299, "299", "").is_ok());
}

#[test]
fn error_messages() {
    assert_eq!(IsmError::ApiError("x".to_string()).message(), "ISM API error: x");
    assert_eq!(IsmError::NotFound { id: "I-1".to_string() }.message(), "Issue not found: I-1");
    assert_eq!(IsmError::Internal("raw".to_string()).message(), "raw");
    let json_err = serde_json::from_str::<u32>("x").unwrap_err();
    let text = json_err.to_string();
    assert_eq!(IsmError::Json(text.clone()).message(), format!("JSON error: {}", text));
    assert_eq!(IsmError::Http("timed out".to_string()).message(), "HTTP request failed: timed out");
    assert_eq!(IsmError::Config("bad".to_string()).message(), "Configuration error: bad");
    assert_eq!(IsmError::AuthFailed("no".to_string()).message(), "Authentication failed: no");
}

#[test]
fn token_expiry_and_use() {
    let t0 = Timestamp { secs: 1_000, nanos: 5 };
    let exp = token_expiry(t0);
    assert_eq!(exp, Timestamp { secs: 4_600, nanos: 5 });
    let tok = CachedToken { token: "jwt".to_string(), expires_at: exp };
    assert_eq!(usable_token(Some(tok.clone()), Timestamp { secs: 4_599, nanos: 999 }).as_deref(), Some("jwt"));
    assert_eq!(usable_token(Some(tok.clone()), Timestamp { secs: 4_600, nanos: 4 }).as_deref(), Some("jwt"));
    assert_eq!(usable_token(Some(tok.clone()), Timestamp { secs: 4_600, nanos: 5 }), None);
    assert_eq!(usable_token(Some(tok), Timestamp { secs: 9_000, nanos: 0 }), None);
    assert_eq!(usable_token(None, t0), None);
}

#[test]
fn remembered_token_is_served() {
    let mut c = client();
    let start = Timestamp { secs: 0, nanos: 0 };
    assert_eq!(c.cached_token(start), None);
    let fetched = c.remember_token("jwt-1".to_string()).ok().expect("clock readable");
    assert_eq!(c.cached_token(fetched).as_deref(), Some("jwt-1"));
    let later = Timestamp { secs: fetched.secs + 3600, nanos: fetched.nanos };
    assert_eq!(c.cached_token(later), None);
    c.remember_token("jwt-2".to_string()).ok().expect("clock readable");
    assert_eq!(c.cached_token(fetched).as_deref(), Some("jwt-2"));
}

#[test]
fn clock_reading() {
    let now = current_time().expect("clock after the epoch");
    assert!(now.secs > 1_600_000_000);
    assert!(now.nanos < 1_000_000_000);
}

#[test]
fn token_steps() {
    let mut c = client();
    assert!(matches!(c.token_step(None), TokenStep::Login));
    assert!(matches!(c.token_step(current_time()), TokenStep::Login));
    let fetched = c.remember_token("jwt".to_string()).ok().expect("clock readable");
    match c.token_step(Some(fetched)) {
        TokenStep::Reuse(t) => assert_eq!(t, "jwt"),
        TokenStep::Login => panic!("a fresh token is reused"),
    }
    assert!(matches!(c.token_step(None), TokenStep::Login));
    let expired = Timestamp { secs: fetched.secs + 3601, nanos: 0 };
    assert!(matches!(c.token_step(Some(expired)), TokenStep::Login));
}

#[test]
fn clock_readings_become_moments() {
    assert_eq!(moment_of_reading(None), None);
    assert_eq!(
        moment_of_reading(Some((1_700_000_000, 123))),
        Some(Timestamp { secs: 1_700_000_000, nanos: 123 })
    );
    assert_eq!(moment_of_reading(Some((0, 0))), Some(Timestamp { secs: 0, nanos: 0 }));
    assert_eq!(moment_of_reading(Some((9_000_000_000_000, 0))), None);
    assert_eq!(moment_of_reading(Some((u64::MAX, 0))), None);
}

#[test]
fn token_remembered_at_a_reading() {
    let mut c = client();
    let fetched = Timestamp { secs: 1_700_000_000, nanos: 500 };
    assert_eq!(c.remember_token_at("jwt-a".to_string(), Some(fetched)).ok(), Some(fetched));
    match c.token_step(Some(Timestamp { secs: 1_700_003_599, nanos: 999 })) {
        TokenStep::Reuse(t) => assert_eq!(t, "jwt-a"),
        TokenStep::Login => panic!("a token is reused within the hour"),
    }
    assert!(matches!(
        c.token_step(Some(Timestamp { secs: 1_700_003_600, nanos: 500 })),
        TokenStep::Login
    ));
}

#[test]
fn token_not_remembered_without_reading() {
    let mut c = client();
    match c.remember_token_at("jwt".to_string(), None) {
        Err(IsmError::Internal(m)) => {
            assert_eq!(m, "system clock is before the Unix epoch or out of range")
        }
        _ => panic!("a missing reading is a clock failure"),
    }
    let too_late = Timestamp { secs: i64::MAX - 3599, nanos: 0 };
    assert!(matches!(
        c.remember_token_at("jwt".to_string(), Some(too_late)),
        Err(IsmError::Internal(_))
    ));
    assert_eq!(c.cached_token(Timestamp { secs: 0, nanos: 0 }), None);
}
