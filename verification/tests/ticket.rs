use std::collections::HashMap;

use imap_mcp_lite::download::is_well_formed_token;
use imap_mcp_lite::error::AppError;
use imap_mcp_lite::session::{DownloadTicket, SessionStore, DOWNLOAD_TICKET_MAX_SIZE};
use imap_mcp_lite::ticket::{token_from_uuids, ReadMeta};
use serde_json::Value;

type Db = HashMap<String, Vec<u8>>;

fn store(prefix: &str) -> SessionStore {
    SessionStore::new("redis://localhost:6379", prefix).ok().unwrap()
}

fn ticket() -> DownloadTicket {
    DownloadTicket {
        filename: "report.pdf".to_string(),
        mime_type: "application/pdf".to_string(),
        size: 1234,
        account_id: "static".to_string(),
    }
}

fn encode(ticket: &DownloadTicket) -> Result<String, serde_json::Error> {
    let mut fields = serde_json::Map::new();
    fields.insert("filename".to_string(), Value::from(ticket.filename.as_str()));
    fields.insert(
        "mime_type".to_string(),
        Value::from(ticket.mime_type.as_str()),
    );
    fields.insert("size".to_string(), Value::from(ticket.size));
    fields.insert(
        "account_id".to_string(),
        Value::from(ticket.account_id.as_str()),
    );
    serde_json::to_string(&Value::Object(fields))
}

fn decode(meta: &str) -> Result<DownloadTicket, serde_json::Error> {
    let value: Value = serde_json::from_str(meta)?;
    let text = |name: &str| value[name].as_str().unwrap().to_string();
    Ok(DownloadTicket {
        filename: text("filename"),
        mime_type: text("mime_type"),
        size: value["size"].as_u64().unwrap() as usize,
        account_id: text("account_id"),
    })
}

fn redis_error() -> redis::RedisError {
    redis::RedisError::from(std::io::Error::other("gone"))
}

fn stage(db: &mut Db, store: &SessionStore, data: &[u8]) -> String {
    let first = store.stage_download(encode(&ticket()), data).ok().unwrap();
    let command = first.command();
    assert_eq!((command.name, command.expiry_option), ("SET", "EX"));
    assert_eq!(command.ttl_seconds, 900);
    db.insert(command.key, command.value.to_vec());
    let second = first.advance(Ok(())).ok().unwrap();
    let command = second.command();
    assert_eq!((command.name, command.expiry_option), ("SET", "EX"));
    assert_eq!(command.ttl_seconds, 900);
    db.insert(command.key, command.value.to_vec());
    second.advance(Ok(())).ok().unwrap()
}

fn redeem(
    db: &mut Db,
    first: ReadMeta,
) -> Result<Option<(DownloadTicket, Vec<u8>)>, AppError> {
    let meta = db.remove(&first.command().key).map(|m| String::from_utf8(m).unwrap());
    let second = match first.advance(Ok(meta))? {
        Some(second) => second,
        None => return Ok(None),
    };
    let decoded = decode(second.meta());
    let third = second.advance(decoded)?;
    let data = db.remove(&third.command().key);
    third.advance(Ok(data))
}

#[test]
fn download_ticket_roundtrip_omits_password() {
    let json = encode(&ticket()).unwrap();
    let mut db = Db::new();
    let store = store("imap-mcp-lite:");
    let token = stage(&mut db, &store, b"bytes");
    let redeemed = redeem(&mut db, store.consume_download_ticket(&token));
    let (de, data) = redeemed.ok().unwrap().unwrap();
    assert_eq!(de.filename, "report.pdf");
    assert_eq!(de.size, 1234);
    assert_eq!(data, b"bytes");
    assert!(!json.contains("password"));
}

#[test]
fn a_token_works_once_and_leaves_nothing_behind() {
    let mut db = Db::new();
    db.insert("other".to_string(), vec![7]);
    let store = store("p:");
    let token = stage(&mut db, &store, b"x");
    assert_eq!(db.len(), 3);
    assert!(redeem(&mut db, store.consume_download_ticket(&token))
        .ok()
        .unwrap()
        .is_some());
    assert!(redeem(&mut db, store.consume_download_ticket(&token))
        .ok()
        .unwrap()
        .is_none());
    assert_eq!(db.len(), 1);
    assert_eq!(db["other"], vec![7]);
}

#[test]
fn every_key_is_under_the_prefix_and_named_by_the_token() {
    let mut db = Db::new();
    let store = store("imap-mcp-lite:");
    let token = stage(&mut db, &store, b"x");
    assert_eq!(db.len(), 2);
    assert!(db.contains_key(&format!("imap-mcp-lite:download:data:{token}")));
    assert!(db.contains_key(&format!("imap-mcp-lite:download:meta:{token}")));
}

#[test]
fn the_bytes_are_written_before_the_metadata() {
    let store = store("p:");
    let first = store
        .stage_under_token("t".to_string(), Ok("{}".to_string()), b"abc")
        .ok()
        .unwrap();
    assert_eq!(first.command().key, "p:download:data:t");
    assert_eq!(first.command().value, b"abc");
    let second = first.advance(Ok(())).ok().unwrap();
    assert_eq!(second.command().key, "p:download:meta:t");
    assert_eq!(second.command().value, b"{}");
    assert_eq!(second.advance(Ok(())).ok().unwrap(), "t");
}

#[test]
fn staging_stops_at_a_failed_write() {
    let store = store("p:");
    let first = store
        .stage_under_token("t".to_string(), Ok("{}".to_string()), b"abc")
        .ok()
        .unwrap();
    assert!(matches!(
        first.advance(Err(redis_error())),
        Err(AppError::Redis(_))
    ));
    let first = store
        .stage_under_token("t".to_string(), Ok("{}".to_string()), b"abc")
        .ok()
        .unwrap();
    let second = first.advance(Ok(())).ok().unwrap();
    assert!(matches!(
        second.advance(Err(redis_error())),
        Err(AppError::Redis(_))
    ));
}

#[test]
fn bytes_without_metadata_cannot_be_fetched() {
    let store = store("p:");
    let mut db = Db::new();
    let first = store
        .stage_under_token("t".to_string(), Ok("{}".to_string()), b"abc")
        .ok()
        .unwrap();
    db.insert(first.command().key, first.command().value.to_vec());
    assert!(redeem(&mut db, store.consume_download_ticket("t"))
        .ok()
        .unwrap()
        .is_none());
    assert_eq!(db.len(), 1);
}

#[test]
fn metadata_without_bytes_counts_as_missing() {
    let store = store("p:");
    let mut db = Db::new();
    let token = stage(&mut db, &store, b"x");
    db.remove(&format!("p:download:data:{token}"));
    assert!(redeem(&mut db, store.consume_download_ticket(&token))
        .ok()
        .unwrap()
        .is_none());
    assert!(db.is_empty());
}

#[test]
fn of_two_racing_requests_one_wins() {
    let store = store("p:");
    let mut db = Db::new();
    let token = stage(&mut db, &store, b"x");
    let a = store.consume_download_ticket(&token);
    let b = store.consume_download_ticket(&token);
    let a_meta = db.remove(&a.command().key).map(|m| String::from_utf8(m).unwrap());
    let b_meta = db.remove(&b.command().key).map(|m| String::from_utf8(m).unwrap());
    let a = a.advance(Ok(a_meta)).ok().unwrap().unwrap();
    assert!(b.advance(Ok(b_meta)).ok().unwrap().is_none());
    let decoded = decode(a.meta());
    let a = a.advance(decoded).ok().unwrap();
    let a_data = db.remove(&a.command().key);
    let (won, data) = a.advance(Ok(a_data)).ok().unwrap().unwrap();
    assert_eq!(won.filename, ticket().filename);
    assert_eq!(data, b"x");
}

#[test]
fn the_first_of_many_racing_requests_wins() {
    let store = store("p:");
    let mut db = Db::new();
    let token = stage(&mut db, &store, b"bytes");
    let first = store.consume_download_ticket(&token);
    let meta = db.remove(&first.command().key).map(|m| String::from_utf8(m).unwrap());
    for _ in 0..5 {
        let other = redeem(&mut db, store.consume_download_ticket(&token));
        assert!(other.ok().unwrap().is_none());
    }
    let second = first.advance(Ok(meta)).ok().unwrap().unwrap();
    let decoded = decode(second.meta());
    let third = second.advance(decoded).ok().unwrap();
    let data = db.remove(&third.command().key);
    let (_, data) = third.advance(Ok(data)).ok().unwrap().unwrap();
    assert_eq!(data, b"bytes");
    let late = redeem(&mut db, store.consume_download_ticket(&token));
    assert!(late.ok().unwrap().is_none());
}

#[test]
fn every_command_is_permitted_to_the_redis_user() {
    let store = store("p:");
    let first = store.stage_download(encode(&ticket()), b"x").ok().unwrap();
    let mut sent = vec![(first.command().name, first.command().key)];
    let second = first.advance(Ok(())).ok().unwrap();
    sent.push((second.command().name, second.command().key));
    let first = store.consume_download_ticket("t");
    sent.push((first.command().name, first.command().key));
    let second = first.advance(Ok(Some("{}".to_string()))).ok().unwrap().unwrap();
    let third = second.advance(Ok(ticket())).ok().unwrap();
    sent.push((third.command().name, third.command().key));
    let names: Vec<&str> = sent.iter().map(|c| c.0).collect();
    assert_eq!(names, vec!["SET", "SET", "GETDEL", "GETDEL"]);
    assert!(sent.iter().all(|c| c.1.starts_with("p:")));
}

#[test]
fn redeeming_reports_errors_of_each_step() {
    let store = store("p:");
    let first = store.consume_download_ticket("t");
    assert!(matches!(
        first.advance(Err(redis_error())),
        Err(AppError::Redis(_))
    ));
    let first = store.consume_download_ticket("t");
    let second = first.advance(Ok(Some("nonsense".to_string()))).ok().unwrap().unwrap();
    assert_eq!(second.meta(), "nonsense");
    assert!(matches!(
        second.advance(decode("nonsense")),
        Err(AppError::Serialization(_))
    ));
    let first = store.consume_download_ticket("t");
    let second = first.advance(Ok(Some("{}".to_string()))).ok().unwrap().unwrap();
    let third = second.advance(Ok(ticket())).ok().unwrap();
    assert_eq!(third.command().name, "GETDEL");
    assert_eq!(third.command().key, "p:download:data:t");
    assert!(matches!(
        third.advance(Err(redis_error())),
        Err(AppError::Redis(_))
    ));
}

#[test]
fn tickets_do_not_interfere() {
    let store = store("p:");
    let mut db = Db::new();
    let one = stage(&mut db, &store, b"one");
    let two = stage(&mut db, &store, b"two");
    assert_ne!(one, two);
    let (_, data) = redeem(&mut db, store.consume_download_ticket(&one))
        .ok()
        .unwrap()
        .unwrap();
    assert_eq!(data, b"one");
    let (_, data) = redeem(&mut db, store.consume_download_ticket(&two))
        .ok()
        .unwrap()
        .unwrap();
    assert_eq!(data, b"two");
}

#[test]
fn oversized_attachments_are_refused() {
    let store = store("p:");
    let data = vec![0u8; DOWNLOAD_TICKET_MAX_SIZE + 1];
    match store.stage_download(encode(&ticket()), &data) {
        Err(AppError::Imap(message)) => assert_eq!(
            message,
            "attachment too large to stage for download (26214401 bytes, max 26214400)"
        ),
        _ => panic!("expected a refusal"),
    }
    assert!(store
        .stage_download(encode(&ticket()), &data[1..])
        .is_ok());
}

#[test]
fn size_is_checked_before_the_metadata() {
    let store = store("p:");
    let bad = || decode("nonsense").map(|_| String::new());
    let data = vec![0u8; DOWNLOAD_TICKET_MAX_SIZE + 1];
    assert!(matches!(
        store.stage_download(bad(), &data),
        Err(AppError::Imap(_))
    ));
    assert!(matches!(
        store.stage_download(bad(), b"x"),
        Err(AppError::Serialization(_))
    ));
}

#[test]
fn tokens_are_two_uuids_in_hex() {
    let mut first = [0u8; 16];
    first[0] = 0xab;
    first[15] = 0x01;
    let second = [0xffu8; 16];
    assert_eq!(
        token_from_uuids(first, second),
        "ab000000000000000000000000000001ffffffffffffffffffffffffffffffff"
    );
}

#[test]
fn issued_tokens_are_well_formed_and_fresh() {
    let store = store("p:");
    let mut db = Db::new();
    for _ in 0..50 {
        let token = stage(&mut db, &store, b"x");
        assert!(is_well_formed_token(&token));
        assert_eq!(token.len(), 64);
        let chars: Vec<char> = token.chars().collect();
        assert_eq!(chars[12], '4');
        assert_eq!(chars[44], '4');
        assert!("89ab".contains(chars[16]));
        assert!("89ab".contains(chars[48]));
    }
    assert_eq!(db.len(), 100);
}

#[test]
fn metadata_that_is_not_text_is_a_redis_error() {
    let read = |bytes: &[u8]| {
        redis::from_redis_value::<Option<String>>(redis::Value::BulkString(bytes.to_vec()))
            .map_err(redis::RedisError::from)
    };
    let store = store("p:");
    let first = store.consume_download_ticket("t");
    assert!(matches!(
        first.advance(read(&[0xff])),
        Err(AppError::Redis(_))
    ));
    let first = store.consume_download_ticket("t");
    let second = first.advance(read(b"{}")).ok().unwrap().unwrap();
    assert_eq!(second.meta(), "{}");
}

#[test]
fn every_order_of_two_redemptions_has_one_winner() {
    let store = store("p:");
    for order in 0..64u32 {
        let mut db = Db::new();
        let token = stage(&mut db, &store, b"bytes");
        let bystander = stage(&mut db, &store, b"other");
        let mut waiting = [
            Some(store.consume_download_ticket(&token)),
            Some(store.consume_download_ticket(&token)),
        ];
        let mut decoding = [None, None];
        let mut fetching = [None, None];
        let mut ended = [None, None];
        let turns = (0..6).map(|bit| (order >> bit & 1) as usize);
        for i in turns.chain([0, 0, 0, 1, 1, 1]) {
            if let Some(step) = waiting[i].take() {
                let meta = db.remove(&step.command().key);
                let meta = meta.map(|m| String::from_utf8(m).unwrap());
                match step.advance(Ok(meta)).ok().unwrap() {
                    Some(step) => decoding[i] = Some(step),
                    None => ended[i] = Some(None),
                }
            } else if let Some(step) = decoding[i].take() {
                let decoded = decode(step.meta());
                fetching[i] = Some(step.advance(decoded).ok().unwrap());
            } else if let Some(step) = fetching[i].take() {
                let data = db.remove(&step.command().key);
                ended[i] = Some(step.advance(Ok(data)).ok().unwrap());
            }
        }
        let served: Vec<Vec<u8>> = ended
            .into_iter()
            .filter_map(|outcome| outcome.unwrap())
            .map(|(_, data)| data)
            .collect();
        assert_eq!(served, vec![b"bytes".to_vec()]);
        assert!(redeem(&mut db, store.consume_download_ticket(&bystander))
            .ok()
            .unwrap()
            .is_some());
        assert!(db.is_empty());
    }
}
