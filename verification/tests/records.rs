use imap_mcp_lite::error::AppError;
use imap_mcp_lite::records::{record_data_read, record_outcome, DownloadRecord, Level};
use imap_mcp_lite::session::{DownloadTicket, SessionStore};

fn ticket() -> DownloadTicket {
    DownloadTicket {
        account_id: "default".to_string(),
        filename: "report.pdf".to_string(),
        mime_type: "application/pdf".to_string(),
        size: 3,
    }
}

#[test]
fn a_served_download_is_logged_with_its_account() {
    let record = record_outcome(&Ok(Some((ticket(), vec![1, 2, 3])))).unwrap();
    assert_eq!(record.level(), Level::Info);
    assert_eq!(record.message(), "served attachment download");
    match record {
        DownloadRecord::Served {
            account_id,
            filename,
            size,
        } => {
            assert_eq!(account_id, "default");
            assert_eq!(filename, "report.pdf");
            assert_eq!(size, 3);
        }
        _ => panic!("expected a served download"),
    }
}

#[test]
fn a_failed_lookup_is_logged_with_its_error() {
    let record = record_outcome(&Err(AppError::Internal("boom".to_string()))).unwrap();
    assert_eq!(record.level(), Level::Error);
    assert_eq!(record.message(), "download lookup failed");
    assert!(matches!(record, DownloadRecord::Failed { error } if error == "Internal error: boom"));
}

#[test]
fn an_unknown_link_is_not_logged() {
    assert!(record_outcome(&Ok(None)).is_none());
}

#[test]
fn missing_bytes_are_logged() {
    let record = record_data_read(&Ok(None)).unwrap();
    assert_eq!(record.level(), Level::Warn);
    assert_eq!(
        record.message(),
        "download token had metadata but no data (data key missing or expired)"
    );
    assert!(matches!(record, DownloadRecord::MissingData));
    assert!(record_data_read(&Ok(Some(vec![1]))).is_none());
    let gone = redis::RedisError::from(std::io::Error::other("gone"));
    assert!(record_data_read(&Err(gone)).is_none());
}

#[test]
fn records_are_the_same_for_every_token() {
    let store = SessionStore::new("redis://localhost", "p:").ok().unwrap();
    let mut logged = Vec::new();
    for token in ["first-token", "another_token"] {
        let first = store.consume_download_ticket(token);
        let second = first.advance(Ok(Some("{}".to_string()))).ok().unwrap().unwrap();
        let third = second.advance(Ok(ticket())).ok().unwrap();
        let reply = Ok(Some(vec![1, 2, 3]));
        let missing = record_data_read(&reply);
        let outcome = third.advance(reply);
        logged.push(format!("{:?} {:?}", missing, record_outcome(&outcome)));
    }
    assert_eq!(logged[0], logged[1]);
    assert!(!logged[0].contains("token"));
}
