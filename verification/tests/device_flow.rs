use copilot_auth::device_flow::{
    classify, device_code_request, is_success, request_device_code, request_token, token_request,
    DeviceCodeEvent, DeviceCodeStep, FlowConfig, TokenOutcome, TokenReply, ACCESS_TOKEN_URL,
    CLIENT_ID, DEVICE_CODE_URL, SCOPES,
};
use copilot_auth::error::AuthError;
use copilot_auth::model::{AccessTokenResponse, AuthFlowState, DeviceCodeResponse};

fn sample_device_code() -> DeviceCodeResponse {
    DeviceCodeResponse {
        device_code: String::from("3584d83530557fdd1f46af8289938c8ef79f9dc5"),
        user_code: String::from("WDJB-MJHT"),
        verification_uri: String::from("https://github.com/login/device"),
        expires_in: 900,
        interval: 5,
    }
}

fn answer(token: Option<&str>, error: Option<&str>) -> AccessTokenResponse {
    AccessTokenResponse {
        access_token: token.map(String::from),
        token_type: None,
        scope: None,
        error: error.map(String::from),
        error_description: None,
    }
}

fn pair(key: &str, value: &str) -> (String, String) {
    (String::from(key), String::from(value))
}

#[test]
fn default_config_is_github_copilot() {
    let config = FlowConfig::default();
    assert_eq!(config.device_code_url, "https://github.com/login/device/code");
    assert_eq!(config.token_url, "https://github.com/login/oauth/access_token");
    assert_eq!(config.client_id, "Iv1.b507a08c87ecfe98");
    assert_eq!(config.scope, "read:user");
    assert_eq!(config.device_code_url, DEVICE_CODE_URL);
    assert_eq!(config.token_url, ACCESS_TOKEN_URL);
    assert_eq!(config.client_id, CLIENT_ID);
    assert_eq!(config.scope, SCOPES);
    assert_eq!(config.clone(), config);
}

#[test]
fn device_code_request_posts_client_id_and_scope() {
    let request = device_code_request(&FlowConfig::default());
    assert_eq!(request.url, "https://github.com/login/device/code");
    assert_eq!(request.accept, "application/json");
    assert_eq!(
        request.fields,
        vec![pair("client_id", "Iv1.b507a08c87ecfe98"), pair("scope", "read:user")]
    );
}

#[test]
fn device_code_request_follows_the_config() {
    let config = FlowConfig {
        device_code_url: String::from("http://127.0.0.1:9000/device"),
        token_url: String::from("http://127.0.0.1:9000/token"),
        client_id: String::from("client-1"),
        scope: String::from("repo"),
    };
    let request = device_code_request(&config);
    assert_eq!(request.url, "http://127.0.0.1:9000/device");
    assert_eq!(request.fields, vec![pair("client_id", "client-1"), pair("scope", "repo")]);
}

#[test]
fn token_request_posts_the_device_code_grant() {
    let request = token_request(&FlowConfig::default(), "dev-123");
    assert_eq!(request.url, "https://github.com/login/oauth/access_token");
    assert_eq!(request.accept, "application/json");
    assert_eq!(
        request.fields,
        vec![
            pair("client_id", "Iv1.b507a08c87ecfe98"),
            pair("device_code", "dev-123"),
            pair("grant_type", "urn:ietf:params:oauth:grant-type:device_code"),
        ]
    );
}

#[test]
fn success_is_200_to_299() {
    assert!(!is_success(0));
    assert!(!is_success(199));
    assert!(is_success(200));
    assert!(is_success(204));
    assert!(is_success(299));
    assert!(!is_success(300));
    assert!(!is_success(404));
    assert!(!is_success(500));
    assert!(!is_success(u16::MAX));
}

#[test]
fn device_code_without_response_is_a_network_error() {
    let step = request_device_code(DeviceCodeEvent::Unreachable {
        detail: String::from("connection refused"),
    });
    assert_eq!(
        step,
        DeviceCodeStep::Done(Err(AuthError::Network { detail: String::from("connection refused") }))
    );
}

#[test]
fn device_code_success_status_asks_for_the_body() {
    assert_eq!(request_device_code(DeviceCodeEvent::Head { status: 200 }), DeviceCodeStep::ReadBody);
    assert_eq!(request_device_code(DeviceCodeEvent::Head { status: 201 }), DeviceCodeStep::ReadBody);
    assert_eq!(request_device_code(DeviceCodeEvent::Head { status: 299 }), DeviceCodeStep::ReadBody);
}

#[test]
fn device_code_other_status_ends_without_the_body() {
    let statuses: Vec<u16> = vec![100, 199, 300, 301, 400, 401, 404, 422, 500, 503];
    for status in statuses {
        assert_eq!(
            request_device_code(DeviceCodeEvent::Head { status }),
            DeviceCodeStep::Done(Err(AuthError::Protocol { status }))
        );
    }
}

#[test]
fn device_code_body_is_passed_on_unchanged() {
    let step = request_device_code(DeviceCodeEvent::Body {
        status: 200,
        decoded: Ok(sample_device_code()),
    });
    match step {
        DeviceCodeStep::Done(Ok(response)) => {
            assert_eq!(response.device_code, "3584d83530557fdd1f46af8289938c8ef79f9dc5");
            assert_eq!(response.user_code, "WDJB-MJHT");
            assert_eq!(response.verification_uri, "https://github.com/login/device");
            assert_eq!(response.expires_in, 900);
            assert_eq!(response.interval, 5);
        }
        other => panic!("unexpected step: {:?}", other),
    }
}

#[test]
fn device_code_body_of_a_failed_response_does_not_count() {
    let step = request_device_code(DeviceCodeEvent::Body {
        status: 503,
        decoded: Ok(sample_device_code()),
    });
    assert_eq!(step, DeviceCodeStep::Done(Err(AuthError::Protocol { status: 503 })));
    let step = request_device_code(DeviceCodeEvent::Body {
        status: 404,
        decoded: Err(String::from("expected value at line 1 column 1")),
    });
    assert_eq!(step, DeviceCodeStep::Done(Err(AuthError::Protocol { status: 404 })));
}

#[test]
fn device_code_malformed_body_is_a_decode_error() {
    let step = request_device_code(DeviceCodeEvent::Body {
        status: 200,
        decoded: Err(String::from("missing field `device_code`")),
    });
    assert_eq!(
        step,
        DeviceCodeStep::Done(Err(AuthError::Decode {
            detail: String::from("missing field `device_code`")
        }))
    );
}

#[test]
fn flow_state_keeps_what_the_user_interface_shows() {
    let state = AuthFlowState::from_response(sample_device_code());
    assert_eq!(
        state,
        AuthFlowState {
            user_code: String::from("WDJB-MJHT"),
            verification_uri: String::from("https://github.com/login/device"),
            device_code: String::from("3584d83530557fdd1f46af8289938c8ef79f9dc5"),
            interval: 5,
        }
    );
    assert_eq!(state.clone(), state);
}

#[test]
fn clones_are_equal() {
    let code = sample_device_code();
    assert_eq!(code.clone(), code);
    let token = AccessTokenResponse {
        access_token: Some(String::from("gho_x")),
        token_type: Some(String::from("bearer")),
        scope: Some(String::from("read:user")),
        error: None,
        error_description: Some(String::from("none")),
    };
    assert_eq!(token.clone(), token);
    let errors = vec![
        AuthError::Network { detail: String::from("n") },
        AuthError::Protocol { status: 418 },
        AuthError::Decode { detail: String::from("d") },
        AuthError::Auth { code: String::from("c") },
        AuthError::Expired,
        AuthError::Denied,
        AuthError::UnexpectedResponse,
        AuthError::Bind { port: 1, detail: String::from("b") },
    ];
    for error in errors {
        assert_eq!(error.clone(), error);
    }
}

#[test]
fn classify_reads_token_and_error_codes() {
    assert_eq!(
        classify(answer(Some("gho_T"), None)),
        TokenOutcome::Granted { token: String::from("gho_T") }
    );
    assert_eq!(classify(answer(None, Some("authorization_pending"))), TokenOutcome::Pending);
    assert_eq!(classify(answer(None, Some("slow_down"))), TokenOutcome::SlowDown);
    assert_eq!(classify(answer(None, Some("expired_token"))), TokenOutcome::Expired);
    assert_eq!(classify(answer(None, Some("access_denied"))), TokenOutcome::Denied);
    assert_eq!(
        classify(answer(None, Some("incorrect_client_credentials"))),
        TokenOutcome::Refused { code: String::from("incorrect_client_credentials") }
    );
    assert_eq!(classify(answer(None, None)), TokenOutcome::Empty);
}

#[test]
fn classify_prefers_the_token() {
    assert_eq!(
        classify(answer(Some("gho_T"), Some("expired_token"))),
        TokenOutcome::Granted { token: String::from("gho_T") }
    );
}

#[test]
fn classify_takes_error_codes_literally() {
    assert_eq!(
        classify(answer(None, Some("Slow_Down"))),
        TokenOutcome::Refused { code: String::from("Slow_Down") }
    );
    assert_eq!(
        classify(answer(None, Some("expired_token "))),
        TokenOutcome::Refused { code: String::from("expired_token ") }
    );
    assert_eq!(classify(answer(None, Some(""))), TokenOutcome::Refused { code: String::new() });
}

#[test]
fn request_token_returns_the_token() {
    assert_eq!(
        request_token(TokenReply::Decoded(answer(Some("gho_T"), None))),
        Ok(String::from("gho_T"))
    );
}

#[test]
fn request_token_reports_pending_as_an_error() {
    assert_eq!(
        request_token(TokenReply::Decoded(answer(None, Some("authorization_pending")))),
        Err(AuthError::Auth { code: String::from("authorization_pending") })
    );
    assert_eq!(
        request_token(TokenReply::Decoded(answer(None, Some("slow_down")))),
        Err(AuthError::Auth { code: String::from("slow_down") })
    );
}

#[test]
fn request_token_reports_the_final_errors() {
    assert_eq!(
        request_token(TokenReply::Decoded(answer(None, Some("expired_token")))),
        Err(AuthError::Expired)
    );
    assert_eq!(
        request_token(TokenReply::Decoded(answer(None, Some("access_denied")))),
        Err(AuthError::Denied)
    );
    assert_eq!(
        request_token(TokenReply::Decoded(answer(None, Some("unsupported_grant_type")))),
        Err(AuthError::Auth { code: String::from("unsupported_grant_type") })
    );
}

#[test]
fn request_token_without_token_or_error_is_unexpected() {
    assert_eq!(
        request_token(TokenReply::Decoded(answer(None, None))),
        Err(AuthError::UnexpectedResponse)
    );
}

#[test]
fn request_token_reports_transport_and_decode_failures() {
    assert_eq!(
        request_token(TokenReply::Unreachable { detail: String::from("timed out") }),
        Err(AuthError::Network { detail: String::from("timed out") })
    );
    assert_eq!(
        request_token(TokenReply::Malformed { detail: String::from("EOF while parsing") }),
        Err(AuthError::Decode { detail: String::from("EOF while parsing") })
    );
}

#[test]
fn messages_of_the_errors() {
    assert_eq!(
        AuthError::Network { detail: String::from("dns error") }.message(),
        "Request failed: dns error"
    );
    assert_eq!(AuthError::Protocol { status: 404 }.message(), "Request failed with status 404");
    assert_eq!(AuthError::Protocol { status: 0 }.message(), "Request failed with status 0");
    assert_eq!(
        AuthError::Decode { detail: String::from("missing field") }.message(),
        "Failed to parse response: missing field"
    );
    assert_eq!(
        AuthError::Auth { code: String::from("unsupported_grant_type") }.message(),
        "Authentication error: unsupported_grant_type"
    );
    assert_eq!(
        AuthError::Expired.message(),
        "The device code has expired. Please start over."
    );
    assert_eq!(AuthError::Denied.message(), "Access was denied by the user.");
    assert_eq!(
        AuthError::UnexpectedResponse.message(),
        "Unexpected response from the authorization server."
    );
    assert_eq!(
        AuthError::Bind { port: 42847, detail: String::from("Address already in use (os error 98)") }
            .message(),
        "Failed to bind to port 42847: Address already in use (os error 98)"
    );
}
