use spotify_companion_widget::auth::{
    access_token_begin, access_token_stored, authorization_request, callback_request_target,
    callback_response, grant_decoded, parse_callback_target, pkce_challenge, random_urlsafe,
    refresh_answered, refresh_token_revoked, refresh_token_stored, stored_token_deleted,
    token_answered, token_endpoint_error, token_error_body, token_expires_at, token_is_fresh,
    AccessToken, SpotifyConfig, TokenGrant, TokenStep,
};
use spotify_companion_widget::error::AppError;

#[test]
fn generated_pkce_values_are_url_safe() {
    let value = random_urlsafe(64);
    assert!(value.len() >= 80);
    assert!(!value.contains(['+', '/', '=']));
}

#[test]
fn callback_requires_exact_state_and_single_code() {
    assert_eq!(
        parse_callback_target("/callback?code=abc&state=expected", "expected")
            .expect("valid callback"),
        "abc"
    );
    assert!(parse_callback_target("/callback?code=abc&state=wrong", "expected").is_err());
    assert!(
        parse_callback_target(
            "/callback?code=abc&code=duplicate&state=expected",
            "expected"
        )
        .is_err()
    );
    assert!(parse_callback_target("/other?code=abc&state=expected", "expected").is_err());
}

fn authorization_error(message: &str) -> Result<String, AppError> {
    Err(AppError::Authorization(message.to_owned()))
}

#[test]
fn callback_refusals_carry_their_reason() {
    assert_eq!(
        parse_callback_target("/other?code=abc&state=s", "s"),
        authorization_error("unexpected callback path")
    );
    assert_eq!(
        parse_callback_target("/callback?code=abc&state=s&state=s", "s"),
        authorization_error("OAuth state did not match")
    );
    assert_eq!(
        parse_callback_target("/callback?code=abc", "s"),
        authorization_error("OAuth state did not match")
    );
    assert_eq!(
        parse_callback_target("/callback?state=s&error=access_denied", "s"),
        authorization_error("authorization was denied")
    );
    assert_eq!(
        parse_callback_target("/callback?state=s&code=", "s"),
        authorization_error("authorization code was missing or ambiguous")
    );
    assert_eq!(
        parse_callback_target("/callback?state=s", "s"),
        authorization_error("authorization code was missing or ambiguous")
    );
}

#[test]
fn callback_values_are_percent_decoded() {
    assert_eq!(
        parse_callback_target("/callback?state=a%2Bb&code=x%20y", "a+b").unwrap(),
        "x y"
    );
}

#[test]
fn callback_request_line_yields_the_target() {
    assert_eq!(
        callback_request_target(b"GET /callback?code=1&state=2 HTTP/1.1\r\nHost: x\r\n\r\n")
            .unwrap(),
        "/callback?code=1&state=2"
    );
    assert_eq!(
        callback_request_target(b"GET  \t/x   HTTP/1.1").unwrap(),
        "/x"
    );
    assert_eq!(
        callback_request_target(b"GET\r\n/x HTTP/1.1"),
        authorization_error("callback request line was invalid")
    );
    assert_eq!(
        callback_request_target(b""),
        authorization_error("callback request line was invalid")
    );
    assert_eq!(
        callback_request_target(&[0x47, 0xff, 0x20]),
        authorization_error("callback request was not valid UTF-8")
    );
}

#[test]
fn pkce_challenge_matches_rfc_7636_example() {
    assert_eq!(
        pkce_challenge("dBjftJeZ4CVP-mB92K27uhbUJU1p1r_wW1gFWFOEjXk"),
        "E9Melhoa2OwvFrEMTJguCHaoeK1t8URWbuGJSstw-cM"
    );
}

#[test]
fn authorization_request_names_client_redirect_scope_and_pkce() {
    let request = authorization_request("client", "challenge", "state", 43210).unwrap();
    assert_eq!(request.redirect_uri, "http://127.0.0.1:43210/callback");
    assert_eq!(
        request.url,
        "https://accounts.spotify.com/authorize?client_id=client&response_type=code\
&redirect_uri=http%3A%2F%2F127.0.0.1%3A43210%2Fcallback\
&scope=user-read-playback-state+user-read-currently-playing+user-modify-playback-state\
&code_challenge_method=S256&code_challenge=challenge&state=state"
    );
}

#[test]
fn configuration_needs_a_non_blank_client_id() {
    assert!(SpotifyConfig::from_value(None).is_none());
    assert!(SpotifyConfig::from_value(Some("  \t".into())).is_none());
    assert_eq!(
        SpotifyConfig::from_value(Some(" id ".into())).unwrap().client_id,
        " id "
    );
}

#[test]
fn access_tokens_are_renewed_a_minute_before_expiry() {
    assert!(token_is_fresh(100_000, 39_999));
    assert!(!token_is_fresh(100_000, 40_000));
    assert!(!token_is_fresh(100_000, 200_000));
    assert_eq!(token_expires_at(1_000, 3_600), 3_601_000);
    assert_eq!(token_expires_at(1_000, 5), 61_000);
}

#[test]
fn token_endpoint_failures_are_authorization_errors() {
    assert_eq!(
        token_endpoint_error(400, "{\"error\":\"invalid_grant\"}"),
        AppError::Authorization(
            "token endpoint returned 400 Bad Request: {\"error\":\"invalid_grant\"}".into()
        )
    );
    assert!(refresh_token_revoked(400));
    assert!(!refresh_token_revoked(500));
}

#[test]
fn callback_response_declares_its_body_length() {
    for success in [true, false] {
        let response = callback_response(success);
        let (head, body) = response.split_once("\r\n\r\n").unwrap();
        let length: usize = head
            .lines()
            .find_map(|line| line.strip_prefix("Content-Length: "))
            .unwrap()
            .parse()
            .unwrap();
        assert_eq!(length, body.len());
        if success {
            assert!(head.starts_with("HTTP/1.1 200 OK"));
            assert!(body.contains("Spotify connected"));
        } else {
            assert!(head.starts_with("HTTP/1.1 400 Bad Request"));
            assert!(body.contains("Connection failed"));
        }
    }
}

fn configured() -> Option<SpotifyConfig> {
    SpotifyConfig::from_value(Some("client".into()))
}

#[test]
fn access_token_steps_follow_the_refresh_order() {
    let fresh = Some(AccessToken { value: "tok".into(), expires_at_ms: 200_000 });
    assert!(matches!(access_token_begin(&fresh, &None, 100_000), TokenStep::Finished(Ok(v)) if v == "tok"));
    assert!(matches!(
        access_token_begin(&fresh, &None, 140_000),
        TokenStep::Finished(Err(AppError::ConfigurationRequired))
    ));
    assert!(matches!(access_token_begin(&None, &configured(), 0), TokenStep::ReadStoredToken));
    assert!(matches!(
        access_token_stored(&configured(), Ok(None)),
        TokenStep::Finished(Err(AppError::AuthenticationRequired))
    ));
    match access_token_stored(&configured(), Ok(Some("refresh".into()))) {
        TokenStep::RequestRefresh { client_id, refresh_token } => {
            assert_eq!(client_id, "client");
            assert_eq!(refresh_token, "refresh");
        }
        other => panic!("unexpected {other:?}"),
    }
    assert!(matches!(refresh_answered(Ok(400)), TokenStep::DeleteStoredToken));
    assert!(matches!(token_answered(Ok(400)), TokenStep::ReadErrorBody(400)));
    assert!(matches!(refresh_answered(Ok(200)), TokenStep::DecodeGrant));
    assert!(matches!(refresh_answered(Ok(500)), TokenStep::ReadErrorBody(500)));
    assert!(matches!(
        stored_token_deleted(Ok(())),
        TokenStep::Finished(Err(AppError::AuthenticationRequired))
    ));
    assert_eq!(
        match token_error_body(500, "oops") {
            TokenStep::Finished(Err(error)) => error,
            other => panic!("unexpected {other:?}"),
        },
        AppError::Authorization("token endpoint returned 500 Internal Server Error: oops".into())
    );
}

#[test]
fn granted_tokens_are_stored_then_kept() {
    let grant = TokenGrant {
        access_token: "access".into(),
        expires_in: 3_600,
        refresh_token: Some("next".into()),
    };
    let token = match grant_decoded(Ok(grant), 1_000) {
        TokenStep::StoreRefreshToken(refresh, token) => {
            assert_eq!(refresh, "next");
            token
        }
        other => panic!("unexpected {other:?}"),
    };
    assert_eq!(token.value, "access");
    assert_eq!(token.expires_at_ms, 3_601_000);
    assert!(matches!(refresh_token_stored(Ok(()), token), TokenStep::Keep(t) if t.value == "access"));
    let short = TokenGrant { access_token: "a".into(), expires_in: 5, refresh_token: None };
    assert!(matches!(grant_decoded(Ok(short), 0), TokenStep::Keep(t) if t.expires_at_ms == 60_000));
    assert!(matches!(
        grant_decoded(Err("bad json".into()), 0),
        TokenStep::Finished(Err(AppError::Authorization(m))) if m == "bad json"
    ));
}
