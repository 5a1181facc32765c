use http::StatusCode;
use imap_mcp_lite::error::AppError;
use imap_mcp_lite::reply::ReplyBody;
use imap_mcp_lite::session::SessionStore;

fn text_of(body: ReplyBody) -> String {
    match body {
        ReplyBody::Text(text) => text,
        ReplyBody::Bytes(_) => panic!("expected text"),
    }
}

fn redis_error() -> AppError {
    match SessionStore::new("not a url", "p:") {
        Err(error) => error,
        Ok(_) => panic!("expected an error"),
    }
}

fn json_error() -> serde_json::Error {
    serde_json::from_str::<u8>("x").unwrap_err()
}

#[test]
fn imap_error_returns_502() {
    let err = AppError::Imap("connection refused".to_string());
    let response = err.into_response();
    assert_eq!(response.status, StatusCode::BAD_GATEWAY.as_u16());
}

#[test]
fn imap_auth_error_returns_401() {
    let response = AppError::ImapAuth.into_response();
    assert_eq!(response.status, StatusCode::UNAUTHORIZED.as_u16());
}

#[test]
fn internal_error_returns_500() {
    let err = AppError::Internal("something broke".to_string());
    let response = err.into_response();
    assert_eq!(response.status, StatusCode::INTERNAL_SERVER_ERROR.as_u16());
}

#[test]
fn error_display_messages() {
    assert_eq!(AppError::ImapAuth.to_string(), "IMAP authentication failed");
    assert_eq!(
        AppError::Imap("test".to_string()).to_string(),
        "IMAP error: test"
    );
}

#[test]
fn remaining_display_messages() {
    assert_eq!(
        AppError::Internal("boom".to_string()).to_string(),
        "Internal error: boom"
    );
    let json = json_error();
    let shown = format!("Serialization error: {json}");
    assert_eq!(AppError::from(json).to_string(), shown);
    assert_eq!(
        redis_error().to_string(),
        "Redis error: Redis URL did not parse - InvalidClientConfig"
    );
}

#[test]
fn redis_and_serialization_errors_return_500() {
    for error in [redis_error(), AppError::from(json_error())] {
        let reply = error.into_response();
        assert_eq!(reply.status, 500);
        assert!(reply.headers.is_empty());
        assert_eq!(text_of(reply.body), "Internal error");
    }
}

#[test]
fn replies_carry_the_kind_but_not_the_detail() {
    let reply = AppError::Imap("secret host detail".to_string()).into_response();
    assert_eq!(text_of(reply.body), "IMAP error");
    let reply = AppError::Internal("secret detail".to_string()).into_response();
    assert_eq!(text_of(reply.body), "Internal error");
    let reply = AppError::ImapAuth.into_response();
    assert_eq!(text_of(reply.body), "IMAP authentication failed");
}

#[test]
fn outside_errors_convert_to_their_variant() {
    assert!(matches!(redis_error(), AppError::Redis(_)));
    assert!(matches!(
        AppError::from(json_error()),
        AppError::Serialization(_)
    ));
    let redis = redis::RedisError::from(std::io::Error::other("gone"));
    assert!(matches!(AppError::from(redis), AppError::Redis(_)));
}

#[test]
fn every_error_but_failed_authentication_is_logged() {
    assert_eq!(AppError::ImapAuth.log_line(), None);
    assert_eq!(
        AppError::Imap("refused".to_string()).log_line(),
        Some("IMAP error: IMAP error: refused".to_string())
    );
    assert_eq!(
        AppError::Internal("boom".to_string()).log_line(),
        Some("Internal error: boom".to_string())
    );
    let json = json_error();
    let shown = format!("Serialization error: Serialization error: {json}");
    assert_eq!(AppError::from(json).log_line(), Some(shown));
    assert_eq!(
        redis_error().log_line(),
        Some(
            "Redis error: Redis error: Redis URL did not parse - InvalidClientConfig".to_string()
        )
    );
}
