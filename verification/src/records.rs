//! What is logged of a download.
//!
//! The token of a download is its credential, so no record may depend on it:
//! records are made from what the store replied and from nothing else.

use vstd::prelude::*;

use crate::error::AppError;
use crate::session::DownloadTicket;
use crate::ticket::{
    after_data_read, after_decode, after_meta_read, redeemed_view, RedeemState, RedeemView,
    Redeemed,
};
use crate::ticket_laws::redeeming_steps_left;

verus! {

/// How grave a record is.
#[derive(Clone, Copy, Debug, PartialEq, Eq, Structural)]
pub enum Level {
    Info,
    Warn,
    Error,
}

/// One log record of a download.
#[derive(Debug)]
pub enum DownloadRecord {
    /// A file was served; the account that staged it is named, so that the
    /// download can be attributed.
    Served { account_id: String, filename: String, size: usize },
    /// The lookup failed.
    Failed { error: String },
    /// There was metadata without bytes.
    MissingData,
}

/// The content of a [`DownloadRecord`], with the error itself for its text.
pub enum DownloadRecordView {
    Served { account_id: Seq<char>, filename: Seq<char>, size: usize },
    Failed { error: AppError },
    MissingData,
}

impl DownloadRecord {
    /// True when the record holds `content`.
    pub open spec fn holds(self, content: DownloadRecordView) -> bool {
        match (self, content) {
            (
                DownloadRecord::Served { account_id, filename, size },
                DownloadRecordView::Served { account_id: account, filename: name, size: bytes },
            ) => account_id@ == account && filename@ == name && size == bytes,
            (
                DownloadRecord::Failed { error: text },
                DownloadRecordView::Failed { error },
            ) => error.shown_as(text@),
            (DownloadRecord::MissingData, DownloadRecordView::MissingData) => true,
            _ => false,
        }
    }

    /// The message of the record.
    pub open spec fn spec_message(self) -> Seq<char> {
        match self {
            DownloadRecord::Served { .. } => "served attachment download"@,
            DownloadRecord::Failed { .. } => "download lookup failed"@,
            DownloadRecord::MissingData =>
                "download token had metadata but no data (data key missing or expired)"@,
        }
    }

    /// How grave the record is.
    pub open spec fn spec_level(self) -> Level {
        match self {
            DownloadRecord::Served { .. } => Level::Info,
            DownloadRecord::Failed { .. } => Level::Error,
            DownloadRecord::MissingData => Level::Warn,
        }
    }

    /// The message of the record.
    pub fn message(&self) -> (message: &'static str)
        ensures
            message@ == self.spec_message(),
    {
        match self {
            DownloadRecord::Served { .. } => "served attachment download",
            DownloadRecord::Failed { .. } => "download lookup failed",
            DownloadRecord::MissingData => {
                "download token had metadata but no data (data key missing or expired)"
            },
        }
    }

    /// How grave the record is.
    pub fn level(&self) -> (level: Level)
        ensures
            level == self.spec_level(),
    {
        match self {
            DownloadRecord::Served { .. } => Level::Info,
            DownloadRecord::Failed { .. } => Level::Error,
            DownloadRecord::MissingData => Level::Warn,
        }
    }
}

/// True when an optional record holds an optional content.
pub open spec fn recorded(
    record: Option<DownloadRecord>,
    content: Option<DownloadRecordView>,
) -> bool {
    match (record, content) {
        (Some(record), Some(content)) => record.holds(content),
        (None, None) => true,
        _ => false,
    }
}

/// What is logged of the outcome of a download: the file that was served, or
/// the error; an unknown link leaves no record.
pub open spec fn outcome_record(redeemed: Redeemed) -> Option<DownloadRecordView> {
    match redeemed {
        Ok(Some((ticket, _))) => Some(
            DownloadRecordView::Served {
                account_id: ticket.account_id@,
                filename: ticket.filename@,
                size: ticket.size,
            },
        ),
        Ok(None) => None,
        Err(error) => Some(DownloadRecordView::Failed { error }),
    }
}

/// What is logged of the read of a token's bytes: that they are missing.
pub open spec fn data_read_record<T>(reply: Result<Option<T>, redis::RedisError>) -> Option<
    DownloadRecordView,
> {
    match reply {
        Ok(None) => Some(DownloadRecordView::MissingData),
        _ => None,
    }
}

/// The record of the outcome of a download.
pub fn record_outcome(redeemed: &Result<Option<(DownloadTicket, Vec<u8>)>, AppError>) -> (record:
    Option<DownloadRecord>)
    ensures
        recorded(record, outcome_record(redeemed_view(*redeemed))),
{
    match redeemed {
        Ok(Some((ticket, _))) => Some(
            DownloadRecord::Served {
                account_id: ticket.account_id.clone(),
                filename: ticket.filename.clone(),
                size: ticket.size,
            },
        ),
        Ok(None) => None,
        Err(error) => Some(DownloadRecord::Failed { error: error.to_string() }),
    }
}

/// The record of the read of a token's bytes.
pub fn record_data_read(reply: &Result<Option<Vec<u8>>, redis::RedisError>) -> (record: Option<
    DownloadRecord,
>)
    ensures
        recorded(record, data_read_record(*reply)),
{
    match reply {
        Ok(None) => Some(DownloadRecord::MissingData),
        _ => None,
    }
}

/// What a store replies to the commands of one redemption. A store that cannot
/// be reached counts as a failed read of the metadata.
pub struct StoreReplies {
    pub meta: Result<Option<Seq<char>>, redis::RedisError>,
    pub data: Result<Option<Seq<u8>>, redis::RedisError>,
}

/// The zero or one records of an optional record.
pub open spec fn as_records(record: Option<DownloadRecordView>) -> Seq<DownloadRecordView> {
    match record {
        Some(record) => seq![record],
        None => Seq::empty(),
    }
}

/// The records of a redemption from one of its states to its end, and its
/// outcome, where the store replies as given.
pub open spec fn logged_redeeming(
    state: RedeemState,
    replies: StoreReplies,
    decode: spec_fn(Seq<char>) -> Result<DownloadTicket, serde_json::Error>,
) -> (Seq<DownloadRecordView>, Redeemed)
    decreases redeeming_steps_left(state),
{
    match state {
        RedeemState::ReadMeta(at) => logged_redeeming(
            after_meta_read(at, replies.meta),
            replies,
            decode,
        ),
        RedeemState::DecodeMeta(at, meta) => logged_redeeming(
            after_decode(at, decode(meta)),
            replies,
            decode,
        ),
        RedeemState::ReadData(_, ticket) => {
            let (records, outcome) = logged_redeeming(
                after_data_read(ticket, replies.data),
                replies,
                decode,
            );
            (as_records(data_read_record(replies.data)) + records, outcome)
        },
        RedeemState::Done(outcome) => (as_records(outcome_record(outcome)), outcome),
    }
}

/// No record gives a token away: requests for two tokens to which the store
/// replies alike leave the same records, and end alike.
pub proof fn records_do_not_depend_on_token(
    a: RedeemView,
    b: RedeemView,
    replies: StoreReplies,
    decode: spec_fn(Seq<char>) -> Result<DownloadTicket, serde_json::Error>,
)
    ensures
        logged_redeeming(RedeemState::ReadMeta(a), replies, decode) == logged_redeeming(
            RedeemState::ReadMeta(b),
            replies,
            decode,
        ),
{
    reveal_with_fuel(logged_redeeming, 4);
}

/// A served download is logged once, with the account that staged the file, its
/// name and its size.
pub proof fn served_download_is_attributed(
    at: RedeemView,
    replies: StoreReplies,
    decode: spec_fn(Seq<char>) -> Result<DownloadTicket, serde_json::Error>,
    ticket: DownloadTicket,
    data: Seq<u8>,
)
    requires
        logged_redeeming(RedeemState::ReadMeta(at), replies, decode).1 == Ok::<
            Option<(DownloadTicket, Seq<u8>)>,
            AppError,
        >(Some((ticket, data))),
    ensures
        logged_redeeming(RedeemState::ReadMeta(at), replies, decode).0 == seq![
            DownloadRecordView::Served {
                account_id: ticket.account_id@,
                filename: ticket.filename@,
                size: ticket.size,
            },
        ],
{
    reveal_with_fuel(logged_redeeming, 4);
}

/// What is logged once a download has ended: the account, name and size of what
/// was served, the error of what failed, and nothing of an unknown link.
pub proof fn outcomes_are_logged(
    redeemed: &Result<Option<(DownloadTicket, Vec<u8>)>, AppError>,
    record: Option<DownloadRecord>,
)
    requires
        call_ensures(record_outcome, (redeemed,), record),
    ensures
        match *redeemed {
            Ok(Some((ticket, _))) => {
                &&& record matches Some(DownloadRecord::Served { account_id, filename, size })
                &&& account_id@ == ticket.account_id@ && filename@ == ticket.filename@ && size
                    == ticket.size
            },
            Ok(None) => record is None,
            Err(error) => {
                &&& record matches Some(DownloadRecord::Failed { error: text })
                &&& error.shown_as(text@)
            },
        },
{
}

/// The one thing that is logged of a read of bytes is that they are missing.
pub proof fn missing_bytes_are_logged(
    reply: &Result<Option<Vec<u8>>, redis::RedisError>,
    record: Option<DownloadRecord>,
)
    requires
        call_ensures(record_data_read, (reply,), record),
    ensures
        record is None <==> !(*reply matches Ok(None)),
        record matches Some(r) ==> r is MissingData,
{
}

/// The messages and levels of the records.
pub proof fn records_have_their_messages(record: &DownloadRecord, message: &'static str, level: Level)
    requires
        call_ensures(DownloadRecord::message, (record,), message),
        call_ensures(DownloadRecord::level, (record,), level),
    ensures
        match *record {
            DownloadRecord::Served { .. } => message@ == "served attachment download"@ && level
                == Level::Info,
            DownloadRecord::Failed { .. } => message@ == "download lookup failed"@ && level
                == Level::Error,
            DownloadRecord::MissingData => message@
                == "download token had metadata but no data (data key missing or expired)"@
                && level == Level::Warn,
        },
{
}

} // verus!
