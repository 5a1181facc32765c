use imap_mcp_lite::derive_mcp_allowed_hosts;
use imap_mcp_lite::hosts::{allowed_hosts_for, hosts_of_url, BaseUrlError};
use imap_mcp_lite::secret::Secret;
use imap_mcp_lite::session::{SessionStore, StaticAccount};
use imap_mcp_lite::AppState;

#[test]
fn public_host_comes_before_the_loopback_names() {
    let hosts = derive_mcp_allowed_hosts("https://mail.example.com:8443/base").ok().unwrap();
    assert_eq!(hosts, vec!["mail.example.com", "localhost", "127.0.0.1", "::1"]);
    assert_eq!(
        allowed_hosts_for("h"),
        vec!["h", "localhost", "127.0.0.1", "::1"]
    );
}

#[test]
fn hosts_are_normalized_by_the_url_parser() {
    let hosts = derive_mcp_allowed_hosts("http://EXAMPLE.com").ok().unwrap();
    assert_eq!(hosts[0], "example.com");
    let hosts = derive_mcp_allowed_hosts("http://[::1]:8080").ok().unwrap();
    assert_eq!(hosts[0], "[::1]");
}

#[test]
fn invalid_urls_are_reported() {
    match derive_mcp_allowed_hosts("not a url") {
        Err(error) => {
            assert!(matches!(error, BaseUrlError::Invalid { .. }));
            assert_eq!(
                error.to_string(),
                "BASE_URL is not a valid URL (not a url): relative URL without a base"
            );
        }
        Ok(_) => panic!("expected an error"),
    }
}

#[test]
fn urls_without_host_are_reported() {
    match derive_mcp_allowed_hosts("mailto:a@b.c") {
        Err(error) => {
            assert!(matches!(error, BaseUrlError::NoHost { .. }));
            assert_eq!(
                error.to_string(),
                "BASE_URL has no host component: mailto:a@b.c"
            );
        }
        Ok(_) => panic!("expected an error"),
    }
}

#[test]
fn parsed_urls_give_the_same_hosts() {
    let url = url::Url::parse("https://h.example/").unwrap();
    let hosts = hosts_of_url("https://h.example/", &url).ok().unwrap();
    assert_eq!(hosts[0], "h.example");
    let url = url::Url::parse("data:text/plain,x").unwrap();
    assert!(matches!(
        hosts_of_url("data:text/plain,x", &url),
        Err(BaseUrlError::NoHost { .. })
    ));
}

#[test]
fn state_needs_a_base_url_with_a_host() {
    let build = |base_url: &str| {
        AppState::new(
            SessionStore::new("redis://localhost", "p:").ok().unwrap(),
            StaticAccount {
                account_id: "static".to_string(),
                label: "l".to_string(),
                imap_email: "e".to_string(),
                imap_host: "h".to_string(),
                imap_port: 1,
                password: Secret::new("p"),
            },
            base_url.to_string(),
            Secret::new("t"),
        )
    };
    let state = build("https://x.example").ok().unwrap();
    assert_eq!(state.base_url, "https://x.example");
    assert_eq!(state.mcp_allowed_hosts.len(), 4);
    assert_eq!(state.mcp_api_token.expose_secret(), "t");
    assert!(matches!(build("x"), Err(BaseUrlError::Invalid { .. })));
}
