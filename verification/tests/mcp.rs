use http::{HeaderMap, HeaderValue};
use imap_mcp_lite::reply::{Reply, ReplyBody};
use imap_mcp_lite::routes::{routes, Endpoint};
use imap_mcp_lite::secret::Secret;
use imap_mcp_lite::session::{SessionStore, StaticAccount};
use imap_mcp_lite::state::{authorize, McpStep};
use imap_mcp_lite::{mcp_handler, AppState};

fn test_state() -> AppState {
    let sessions = SessionStore::new("redis://localhost:6379", "imap-mcp-lite:").ok().unwrap();
    let account = StaticAccount {
        account_id: "static".to_string(),
        label: "Test".to_string(),
        imap_email: "user@example.com".to_string(),
        imap_host: "imap.example.com".to_string(),
        imap_port: 993,
        password: Secret::new("app-password"),
    };
    AppState::new(
        sessions,
        account,
        "https://imap-mcp-lite.example.com".to_string(),
        Secret::new("test-token"),
    )
    .ok()
    .unwrap()
}

fn send(authorization: Option<&str>) -> McpStep {
    let mut headers = HeaderMap::new();
    if let Some(value) = authorization {
        headers.insert("authorization", HeaderValue::from_str(value).unwrap());
    }
    mcp_handler(&headers, &test_state())
}

fn refused(step: McpStep) -> Reply {
    match step {
        McpStep::Refuse(reply) => reply,
        McpStep::Serve { .. } => panic!("expected a refusal"),
    }
}

fn text_of(reply: &Reply) -> &str {
    match &reply.body {
        ReplyBody::Text(text) => text,
        ReplyBody::Bytes(_) => panic!("expected text"),
    }
}

#[test]
fn mcp_without_bearer_returns_401() {
    let reply = refused(send(None));
    assert_eq!(reply.status, 401);
    assert_eq!(
        reply.headers,
        vec![("WWW-Authenticate".to_string(), "Bearer".to_string())]
    );
    assert_eq!(text_of(&reply), "Bearer token required");
}

#[test]
fn mcp_with_invalid_bearer_returns_401() {
    let reply = refused(send(Some("Bearer invalid-token-xyz")));
    assert_eq!(reply.status, 401);
    assert_eq!(
        reply.headers,
        vec![("WWW-Authenticate".to_string(), "Bearer".to_string())]
    );
    assert_eq!(text_of(&reply), "Invalid token");
}

#[test]
fn mcp_with_prefix_bearer_returns_401() {
    let reply = refused(send(Some("Bearer test")));
    assert_eq!(reply.status, 401);
}

#[test]
fn mcp_with_wrong_auth_scheme_returns_401() {
    let reply = refused(send(Some("Basic dXNlcjpwYXNz")));
    assert_eq!(reply.status, 401);
    assert_eq!(text_of(&reply), "Bearer token required");
}

#[test]
fn mcp_subpath_without_bearer_returns_401() {
    let subpath = routes().into_iter().find(|r| r.path == "/mcp/{path}").unwrap();
    assert_eq!(subpath.endpoint, Endpoint::Mcp);
    assert_eq!(refused(send(None)).status, 401);
}

#[test]
fn mcp_with_valid_bearer_reaches_transport() {
    match send(Some("Bearer test-token")) {
        McpStep::Serve { resolver, transport } => {
            assert!(!transport.stateful_mode);
            assert!(transport.json_response);
            assert_eq!(
                transport.allowed_hosts,
                vec!["imap-mcp-lite.example.com", "localhost", "127.0.0.1", "::1"]
            );
            assert_eq!(resolver.account.imap_email, "user@example.com");
            assert_eq!(resolver.account.password.expose_secret(), "app-password");
            assert_eq!(resolver.base_url, "https://imap-mcp-lite.example.com");
            assert_eq!(resolver.store.key("x"), "imap-mcp-lite:x");
            let listed = resolver.list_accounts();
            assert_eq!(listed.accounts.len(), 1);
            assert_eq!(listed.accounts[0].imap_host, "imap.example.com");
            assert!(listed.accounts[0].is_default);
            let copy = resolver.clone();
            assert_eq!(copy.base_url, resolver.base_url);
            assert_eq!(copy.account.imap_port, 993);
        }
        McpStep::Refuse(_) => panic!("a valid token must not be rejected"),
    }
}

#[test]
fn authorization_decision() {
    assert!(authorize(Some("t".to_string()), "t").is_none());
    assert_eq!(text_of(&authorize(Some("u".to_string()), "t").unwrap()), "Invalid token");
    assert_eq!(text_of(&authorize(None, "t").unwrap()), "Bearer token required");
}
