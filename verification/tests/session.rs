use imap_mcp_lite::error::AppError;
use imap_mcp_lite::secret::Secret;
use imap_mcp_lite::session::{
    AccountSummary, ListAccountsResult, SessionStore, StaticAccount, DOWNLOAD_TICKET_MAX_SIZE,
    DOWNLOAD_TICKET_TTL,
};
use serde_json::Value;

fn test_store(prefix: &str) -> SessionStore {
    match SessionStore::new("redis://localhost:6379", prefix) {
        Ok(store) => store,
        Err(error) => panic!("{}", error.to_string()),
    }
}

fn account(password: &str) -> StaticAccount {
    StaticAccount {
        account_id: "static".to_string(),
        label: "Work".to_string(),
        imap_email: "user@example.com".to_string(),
        imap_host: "mail.example.com".to_string(),
        imap_port: 993,
        password: Secret::new(password),
    }
}

fn summary_json(summary: &AccountSummary) -> String {
    let mut fields = serde_json::Map::new();
    fields.insert(
        "account_id".to_string(),
        Value::from(summary.account_id.as_str()),
    );
    fields.insert("label".to_string(), Value::from(summary.label.as_str()));
    fields.insert(
        "imap_email".to_string(),
        Value::from(summary.imap_email.as_str()),
    );
    fields.insert(
        "imap_host".to_string(),
        Value::from(summary.imap_host.as_str()),
    );
    fields.insert("last_used_at".to_string(), Value::from(summary.last_used_at));
    fields.insert("disabled".to_string(), Value::from(summary.disabled));
    fields.insert("is_default".to_string(), Value::from(summary.is_default));
    serde_json::to_string(&Value::Object(fields)).unwrap()
}

#[test]
fn keys_are_namespaced_under_prefix() {
    let store = test_store("imap-mcp-lite:");
    assert_eq!(
        store.key("download:meta:abc"),
        "imap-mcp-lite:download:meta:abc"
    );
    assert_eq!(
        store.key("download:data:abc"),
        "imap-mcp-lite:download:data:abc"
    );
}

#[test]
fn account_summary_never_carries_credentials() {
    let account = account("super-secret-app-password");
    let summary = AccountSummary::from_static(&account);
    let json = summary_json(&summary);
    assert!(summary.is_default);
    assert!(!summary.disabled);
    assert!(!json.contains("super-secret"));
    assert!(!json.contains("password"));
}

#[test]
fn summary_copies_the_public_fields() {
    let result = ListAccountsResult {
        accounts: vec![AccountSummary::from_static(&account("pw"))],
    };
    let summary = &result.accounts[0];
    assert_eq!(summary.account_id, "static");
    assert_eq!(summary.label, "Work");
    assert_eq!(summary.imap_email, "user@example.com");
    assert_eq!(summary.imap_host, "mail.example.com");
    assert_eq!(summary.last_used_at, None);
}

#[test]
fn summary_is_the_same_for_any_password() {
    let a = format!("{:?}", AccountSummary::from_static(&account("one")));
    let b = format!("{:?}", AccountSummary::from_static(&account("two")));
    assert_eq!(a, b);
}

#[test]
fn secrets_hold_their_text() {
    let secret = Secret::new("app-password");
    assert_eq!(secret.expose_secret(), "app-password");
    assert_eq!(secret.clone().expose_secret(), "app-password");
    assert_eq!(account("x y").clone().password.expose_secret(), "x y");
    assert_eq!(account("x y").clone().imap_port, 993);
}

#[test]
fn secrets_are_redacted_when_printed() {
    let shown = format!("{:?}", Secret::new("app-password"));
    assert!(!shown.contains("app-password"));
}

#[test]
fn store_opens_on_redis_urls_only() {
    assert!(SessionStore::new("redis://localhost:6379", "p:").is_ok());
    assert!(SessionStore::new("redis://user:pw@cache.example/2", "p:").is_ok());
    for url in ["", "localhost", "http://localhost", "redis://"] {
        assert!(matches!(
            SessionStore::new(url, "p:"),
            Err(AppError::Redis(_))
        ));
    }
}

#[test]
fn store_keeps_client_and_prefix() {
    let store = test_store("pre:");
    let copy = store.clone();
    assert_eq!(copy.key_prefix(), "pre:");
    let address = copy.client().get_connection_info().addr().to_string();
    assert_eq!(address, "localhost:6379");
    assert_eq!(
        store.client().get_connection_info().addr().to_string(),
        address
    );
}

#[test]
fn store_can_be_made_from_an_opened_client() {
    let store = SessionStore::from_opened(redis::Client::open("redis://h:1"), "q:");
    assert_eq!(store.ok().unwrap().key("x"), "q:x");
    let failed = SessionStore::from_opened(redis::Client::open("nope"), "q:");
    assert!(matches!(failed, Err(AppError::Redis(_))));
}

#[test]
fn ticket_limits() {
    assert_eq!(DOWNLOAD_TICKET_TTL, 900);
    assert_eq!(DOWNLOAD_TICKET_MAX_SIZE, 26_214_400);
}
