use imap_mcp_lite::download::{is_well_formed_token, served_mime_type, DownloadStep};
use imap_mcp_lite::error::AppError;
use imap_mcp_lite::reply::{Reply, ReplyBody};
use imap_mcp_lite::session::{DownloadTicket, SessionStore};
use imap_mcp_lite::{download_handler, download_reply};

fn store() -> SessionStore {
    SessionStore::new("redis://localhost:6379", "imap-mcp-lite:").ok().unwrap()
}

fn ticket(filename: &str, mime_type: &str) -> DownloadTicket {
    DownloadTicket {
        filename: filename.to_string(),
        mime_type: mime_type.to_string(),
        size: 3,
        account_id: "static".to_string(),
    }
}

fn header(reply: &Reply, name: &str) -> String {
    for (n, v) in &reply.headers {
        if n == name {
            return v.clone();
        }
    }
    panic!("no header {name}")
}

fn is_unknown_link(reply: &Reply) -> bool {
    reply.status == 404
        && matches!(&reply.body, ReplyBody::Text(t) if t == "Unknown or expired download link")
}

#[test]
fn download_with_malformed_token_returns_404() {
    match download_handler(&store(), "abc!def") {
        DownloadStep::Answer(reply) => assert!(is_unknown_link(&reply)),
        DownloadStep::Redeem(_) => panic!("must not reach the store"),
    }
}

#[test]
fn download_with_overlong_token_returns_404() {
    let long = "a".repeat(65);
    match download_handler(&store(), &long) {
        DownloadStep::Answer(reply) => assert_eq!(reply.status, 404),
        DownloadStep::Redeem(_) => panic!("must not reach the store"),
    }
}

#[test]
fn well_formed_tokens_are_looked_up() {
    match download_handler(&store(), "aZ0-_") {
        DownloadStep::Redeem(first) => {
            assert_eq!(first.command().key, "imap-mcp-lite:download:meta:aZ0-_")
        }
        DownloadStep::Answer(_) => panic!("must reach the store"),
    }
}

#[test]
fn token_shape() {
    assert!(is_well_formed_token("a"));
    assert!(is_well_formed_token(&"a".repeat(64)));
    assert!(!is_well_formed_token(""));
    assert!(!is_well_formed_token(&"a".repeat(65)));
    for bad in ["a b", "a/b", "a.b", "é", "a\n", "a:b", "a=b"] {
        assert!(!is_well_formed_token(bad));
    }
}

#[test]
fn served_file_has_its_headers_and_bytes() {
    let reply = download_reply(Ok(Some((
        ticket("../r.pdf", "application/pdf"),
        vec![1, 2, 3],
    ))));
    assert_eq!(reply.status, 200);
    assert_eq!(
        reply.headers,
        vec![
            ("content-type".to_string(), "application/pdf".to_string()),
            (
                "content-disposition".to_string(),
                r#"attachment; filename="r.pdf"; filename*=UTF-8''r.pdf"#.to_string()
            ),
            (
                "cache-control".to_string(),
                "no-store, max-age=0".to_string()
            ),
            (
                "x-content-type-options".to_string(),
                "nosniff".to_string()
            ),
        ]
    );
    assert!(matches!(reply.body, ReplyBody::Bytes(b) if b == [1, 2, 3]));
}

#[test]
fn missing_ticket_is_an_unknown_link() {
    assert!(is_unknown_link(&download_reply(Ok(None))));
}

#[test]
fn failed_lookup_is_a_server_error() {
    let reply = download_reply(Err(AppError::Internal("x".to_string())));
    assert_eq!(reply.status, 500);
    assert!(matches!(reply.body, ReplyBody::Text(t) if t == "Failed to load download"));
}

#[test]
fn only_harmless_mime_types_are_echoed() {
    assert_eq!(served_mime_type("text/plain; charset=utf-8"), "text/plain; charset=utf-8");
    assert_eq!(served_mime_type(""), "");
    for bad in ["text/é", "a\r\nb", "a\"b", "a,b", "a\u{7f}", "\t"] {
        assert_eq!(served_mime_type(bad), "application/octet-stream");
    }
}

#[test]
fn mime_filter_agrees_with_std_on_every_char() {
    for c in '\u{0}'..=char::MAX {
        let text = c.to_string();
        let safe = text.is_ascii() && !text.contains(|c: char| c.is_control() || c == '"' || c == ',');
        let expected = if safe { text.as_str() } else { "application/octet-stream" };
        assert_eq!(served_mime_type(&text), expected);
    }
}

#[test]
fn download_headers_are_visible_ascii() {
    let reply = download_reply(Ok(Some((ticket("x\r\nSet-Cookie: a\u{1f4ca}", "é"), vec![]))));
    for name in ["content-type", "content-disposition"] {
        let value = header(&reply, name);
        assert!(value.chars().all(|c| (' '..='~').contains(&c)));
    }
}
