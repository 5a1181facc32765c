use imap_mcp_lite::healthz;
use imap_mcp_lite::reply::ReplyBody;
use imap_mcp_lite::routes::{cors_policy, routes, Endpoint, Methods};

#[test]
fn healthz_returns_ok() {
    let reply = healthz();
    assert_eq!(reply.status, 200);
    assert_eq!(
        reply.headers,
        vec![("content-type".to_string(), "application/json".to_string())]
    );
    assert!(matches!(reply.body, ReplyBody::Text(t) if t == r#"{"status":"ok"}"#));
}

#[test]
fn the_served_paths() {
    let table: Vec<(String, Methods, Endpoint)> = routes()
        .into_iter()
        .map(|r| (r.path, r.methods, r.endpoint))
        .collect();
    assert_eq!(
        table,
        vec![
            ("/healthz".to_string(), Methods::Get, Endpoint::Healthz),
            ("/mcp".to_string(), Methods::Any, Endpoint::Mcp),
            ("/mcp/{path}".to_string(), Methods::Any, Endpoint::Mcp),
            (
                "/download/{token}".to_string(),
                Methods::Get,
                Endpoint::Download
            ),
        ]
    );
}

#[test]
fn cross_origin_policy() {
    let policy = cors_policy();
    assert_eq!(policy.allow_origin, "*");
    assert!(!policy.allow_credentials);
    assert_eq!(policy.methods, vec!["GET", "POST", "DELETE", "OPTIONS"]);
    assert_eq!(policy.headers, vec!["authorization", "content-type", "accept"]);
}

#[test]
fn removed_oidc_and_manage_routes_are_gone() {
    for uri in [
        "/register",
        "/auth/login",
        "/auth/callback",
        "/auth/token",
        "/manage",
        "/.well-known/oauth-protected-resource",
        "/.well-known/oauth-authorization-server",
    ] {
        for route in routes() {
            let fixed = route.path.split('{').next().unwrap().to_string();
            assert!(!uri.starts_with(&fixed), "expected {uri} to be removed");
        }
    }
}
