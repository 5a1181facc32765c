//! One-shot download tickets: staging an attachment and redeeming its token.
//!
//! Both run as a sequence of Redis commands. Each step is a value that says
//! which command is due; its `advance` takes the reply and gives the next step
//! or the end.

use vstd::prelude::*;
use vstd::string::StringExecFns;
use vstd::utf8::encode_utf8;

use crate::error::AppError;
use crate::session::{
    DownloadTicket, SessionStore, DOWNLOAD_TICKET_MAX_SIZE, DOWNLOAD_TICKET_TTL,
};
use crate::text::{
    decimal, decimal_text, hexadecimal_text_tells_apart, joined, lower_hex, optional_text,
};
use crate::uuids::{from_generator, UuidSource};

verus! {

/// The bytes of a random (version 4) UUID: sixteen, with the version in the
/// seventh and the variant in the ninth.
pub open spec fn random_uuid_bytes(bytes: Seq<u8>) -> bool {
    &&& bytes.len() == 16
    &&& 0x40 <= bytes[6] <= 0x4f
    &&& 0x80 <= bytes[8] <= 0xbf
}

/// `uuid::Uuid::new_v4`: the bytes of a fresh random UUID. Which one is left to
/// chance; version and variant are fixed. It does not return where the
/// operating system has no random bytes to give.
#[verifier::external_body]
pub(crate) fn random_uuid() -> (bytes: [u8; 16])
    ensures
        random_uuid_bytes(bytes@),
{
    uuid::Uuid::new_v4().into_bytes()
}

/// `uuid::Uuid::simple`, as text: two lower-case hexadecimal digits for each of
/// the sixteen bytes, without hyphens.
#[verifier::external_body]
fn simple_uuid_text(bytes: [u8; 16]) -> (text: String)
    ensures
        text@ == lower_hex(bytes@),
{
    uuid::Uuid::from_bytes(bytes).simple().to_string()
}

/// The token made from two UUIDs.
pub open spec fn token_text(first: Seq<u8>, second: Seq<u8>) -> Seq<char> {
    lower_hex(first) + lower_hex(second)
}

/// The tokens that staging can hand out.
pub open spec fn issued_token(token: Seq<char>) -> bool {
    exists|first: Seq<u8>, second: Seq<u8>|
        random_uuid_bytes(first) && random_uuid_bytes(second) && token == #[trigger] token_text(
            first,
            second,
        )
}

/// The key under which the metadata of a token is stored.
pub open spec fn meta_key(prefix: Seq<char>, token: Seq<char>) -> Seq<char> {
    prefix + ("download:meta:"@ + token)
}

/// The key under which the bytes of a token are stored.
pub open spec fn data_key(prefix: Seq<char>, token: Seq<char>) -> Seq<char> {
    prefix + ("download:data:"@ + token)
}

/// What is said of an attachment that is too large to stage.
pub open spec fn too_large_message(len: nat) -> Seq<char> {
    "attachment too large to stage for download ("@ + decimal(len) + " bytes, max "@ + decimal(
        DOWNLOAD_TICKET_MAX_SIZE as nat,
    ) + ")"@
}

/// A write with expiry, word by word: `SET key value EX seconds`.
pub struct SetCommand<'a> {
    pub name: &'static str,
    pub key: String,
    pub value: &'a [u8],
    pub expiry_option: &'static str,
    pub ttl_seconds: u64,
}

/// The content of a [`SetCommand`].
#[verifier::ext_equal]
pub struct SetCommandView {
    pub name: Seq<char>,
    pub key: Seq<char>,
    pub value: Seq<u8>,
    pub expiry_option: Seq<char>,
    pub ttl_seconds: u64,
}

impl<'a> View for SetCommand<'a> {
    type V = SetCommandView;

    open spec fn view(&self) -> SetCommandView {
        SetCommandView {
            name: self.name@,
            key: self.key@,
            value: self.value@,
            expiry_option: self.expiry_option@,
            ttl_seconds: self.ttl_seconds,
        }
    }
}

/// A read that deletes what it reads, word by word: `GETDEL key`.
pub struct GetDelCommand {
    pub name: &'static str,
    pub key: String,
}

/// The content of a [`GetDelCommand`].
#[verifier::ext_equal]
pub struct GetDelCommandView {
    pub name: Seq<char>,
    pub key: Seq<char>,
}

impl View for GetDelCommand {
    type V = GetDelCommandView;

    open spec fn view(&self) -> GetDelCommandView {
        GetDelCommandView { name: self.name@, key: self.key@ }
    }
}

/// What is being staged, and under which token.
#[verifier::ext_equal]
pub struct StageView {
    pub prefix: Seq<char>,
    pub token: Seq<char>,
    pub meta: Seq<char>,
    pub data: Seq<u8>,
}

/// The write of the attachment's bytes.
pub open spec fn data_write(stage: StageView) -> SetCommandView {
    SetCommandView {
        name: "SET"@,
        key: data_key(stage.prefix, stage.token),
        value: stage.data,
        expiry_option: "EX"@,
        ttl_seconds: DOWNLOAD_TICKET_TTL,
    }
}

/// The write of the attachment's metadata.
pub open spec fn meta_write(stage: StageView) -> SetCommandView {
    SetCommandView {
        name: "SET"@,
        key: meta_key(stage.prefix, stage.token),
        value: encode_utf8(stage.meta),
        expiry_option: "EX"@,
        ttl_seconds: DOWNLOAD_TICKET_TTL,
    }
}

/// Where staging stands.
pub enum StageState {
    /// The bytes are to be written.
    WriteData(StageView),
    /// The metadata is to be written.
    WriteMeta(StageView),
    /// Staging has ended, with the token or an error.
    Done(Result<Seq<char>, AppError>),
}

/// Where staging stands once the write of the bytes was answered.
pub open spec fn after_data_write(
    stage: StageView,
    reply: Result<(), redis::RedisError>,
) -> StageState {
    match reply {
        Ok(_) => StageState::WriteMeta(stage),
        Err(error) => StageState::Done(Err(AppError::Redis(error))),
    }
}

/// Where staging stands once the write of the metadata was answered.
pub open spec fn after_meta_write(
    stage: StageView,
    reply: Result<(), redis::RedisError>,
) -> StageState {
    match reply {
        Ok(_) => StageState::Done(Ok(stage.token)),
        Err(error) => StageState::Done(Err(AppError::Redis(error))),
    }
}

/// First step of staging: the bytes are to be written.
pub struct StageData<'a> {
    prefix: String,
    token: String,
    meta: String,
    data: &'a [u8],
}

impl<'a> View for StageData<'a> {
    type V = StageView;

    closed spec fn view(&self) -> StageView {
        StageView {
            prefix: self.prefix@,
            token: self.token@,
            meta: self.meta@,
            data: self.data@,
        }
    }
}

/// Second step of staging: the metadata is to be written.
pub struct StageMeta<'a> {
    prefix: String,
    token: String,
    meta: String,
    data: &'a [u8],
}

impl<'a> View for StageMeta<'a> {
    type V = StageView;

    closed spec fn view(&self) -> StageView {
        StageView {
            prefix: self.prefix@,
            token: self.token@,
            meta: self.meta@,
            data: self.data@,
        }
    }
}

/// The token that is being redeemed.
#[verifier::ext_equal]
pub struct RedeemView {
    pub prefix: Seq<char>,
    pub token: Seq<char>,
}

/// The read of the token's metadata.
pub open spec fn meta_read(at: RedeemView) -> GetDelCommandView {
    GetDelCommandView { name: "GETDEL"@, key: meta_key(at.prefix, at.token) }
}

/// The read of the token's bytes.
pub open spec fn data_read(at: RedeemView) -> GetDelCommandView {
    GetDelCommandView { name: "GETDEL"@, key: data_key(at.prefix, at.token) }
}

/// What redeeming a token gives: the ticket and its bytes, nothing for a token
/// that is not (or no longer) valid, or an error.
pub type Redeemed = Result<Option<(DownloadTicket, Seq<u8>)>, AppError>;

/// The outcome of redeeming, with the bytes as a sequence.
pub open spec fn redeemed_view(
    redeemed: Result<Option<(DownloadTicket, Vec<u8>)>, AppError>,
) -> Redeemed {
    match redeemed {
        Ok(Some((ticket, data))) => Ok(Some((ticket, data@))),
        Ok(None) => Ok(None),
        Err(error) => Err(error),
    }
}

/// Where redeeming stands.
pub enum RedeemState {
    /// The metadata is to be read and deleted.
    ReadMeta(RedeemView),
    /// The metadata is to be decoded.
    DecodeMeta(RedeemView, Seq<char>),
    /// The bytes are to be read and deleted.
    ReadData(RedeemView, DownloadTicket),
    /// Redeeming has ended.
    Done(Redeemed),
}

/// Where redeeming stands once the metadata was looked up.
pub open spec fn after_meta_read(
    at: RedeemView,
    reply: Result<Option<Seq<char>>, redis::RedisError>,
) -> RedeemState {
    match reply {
        Ok(Some(meta)) => RedeemState::DecodeMeta(at, meta),
        Ok(None) => RedeemState::Done(Ok(None)),
        Err(error) => RedeemState::Done(Err(AppError::Redis(error))),
    }
}

/// Where redeeming stands once the metadata was decoded.
pub open spec fn after_decode(
    at: RedeemView,
    decoded: Result<DownloadTicket, serde_json::Error>,
) -> RedeemState {
    match decoded {
        Ok(ticket) => RedeemState::ReadData(at, ticket),
        Err(error) => RedeemState::Done(Err(AppError::Serialization(error))),
    }
}

/// Where redeeming stands once the bytes were looked up.
pub open spec fn after_data_read(
    ticket: DownloadTicket,
    reply: Result<Option<Seq<u8>>, redis::RedisError>,
) -> RedeemState {
    match reply {
        Ok(Some(data)) => RedeemState::Done(Ok(Some((ticket, data)))),
        Ok(None) => RedeemState::Done(Ok(None)),
        Err(error) => RedeemState::Done(Err(AppError::Redis(error))),
    }
}

/// First step of redeeming: the metadata is to be read and deleted.
pub struct ReadMeta {
    prefix: String,
    token: String,
}

impl View for ReadMeta {
    type V = RedeemView;

    closed spec fn view(&self) -> RedeemView {
        RedeemView { prefix: self.prefix@, token: self.token@ }
    }
}

/// Second step of redeeming: the metadata is to be decoded.
pub struct DecodeMeta {
    prefix: String,
    token: String,
    meta: String,
}

impl View for DecodeMeta {
    type V = RedeemView;

    closed spec fn view(&self) -> RedeemView {
        RedeemView { prefix: self.prefix@, token: self.token@ }
    }
}

/// Last step of redeeming: the bytes are to be read and deleted.
pub struct ReadData {
    prefix: String,
    token: String,
    ticket: DownloadTicket,
}

impl View for ReadData {
    type V = RedeemView;

    closed spec fn view(&self) -> RedeemView {
        RedeemView { prefix: self.prefix@, token: self.token@ }
    }
}

/// The token made from the bytes of two UUIDs.
pub fn token_from_uuids(first: [u8; 16], second: [u8; 16]) -> (token: String)
    ensures
        token@ == token_text(first@, second@),
{
    let head = simple_uuid_text(first);
    let tail = simple_uuid_text(second);
    joined(head.as_str(), tail.as_str())
}

/// Two random UUIDs and the source that they were drawn from, one after the
/// other.
pub struct FreshUuids {
    pub source: UuidSource,
    pub first: [u8; 16],
    pub second: [u8; 16],
}

/// Draws the two UUIDs of one token.
pub fn draw_uuids() -> (fresh: FreshUuids)
    ensures
        fresh.source.drawn() == seq![fresh.first, fresh.second],
        from_generator(fresh.first) && random_uuid_bytes(fresh.first@),
        from_generator(fresh.second) && random_uuid_bytes(fresh.second@),
{
    let mut source = UuidSource::new();
    let first = source.draw();
    let second = source.draw();
    FreshUuids { source, first, second }
}

/// A fresh token: two random UUIDs, drawn for it, safe in a URL as it stands.
fn fresh_token() -> (token: String)
    ensures
        issued_token(token@),
        exists|fresh: FreshUuids|
            #[trigger] call_ensures(draw_uuids, (), fresh) && token@ == token_text(
                fresh.first@,
                fresh.second@,
            ),
{
    let fresh = draw_uuids();
    token_from_uuids(fresh.first, fresh.second)
}

proof fn lemma_some_token_is_issued() -> (token: Seq<char>)
    ensures
        issued_token(token),
{
    let bytes = Seq::new(16, |i: int| if i == 6 { 0x40u8 } else { 0x80u8 });
    assert(random_uuid_bytes(bytes));
    token_text(bytes, bytes)
}

/// What is said of an attachment that is too large to stage.
fn too_large_text(len: usize) -> (text: String)
    ensures
        text@ == too_large_message(len as nat),
{
    let mut text = "attachment too large to stage for download (".to_owned();
    text.append(decimal_text(len).as_str());
    text.append(" bytes, max ");
    text.append(decimal_text(DOWNLOAD_TICKET_MAX_SIZE).as_str());
    text.append(")");
    text
}

/// How staging starts: attachments over the size limit are refused, then
/// metadata that could not be encoded; everything else is staged as it came.
pub open spec fn stage_started<'a>(
    prefix: Seq<char>,
    token: Seq<char>,
    meta: Result<String, serde_json::Error>,
    data: Seq<u8>,
    step: Result<StageData<'a>, AppError>,
) -> bool {
    if data.len() > DOWNLOAD_TICKET_MAX_SIZE {
        step matches Err(AppError::Imap(message)) && message@ == too_large_message(data.len())
    } else {
        match meta {
            Err(error) => step == Err::<StageData<'a>, AppError>(AppError::Serialization(error)),
            Ok(meta) => step matches Ok(s) && s@ == (StageView { prefix, token, meta: meta@, data }),
        }
    }
}

impl SessionStore {
    /// Starts staging `data` under a fresh random token, with its metadata
    /// already encoded. The token is embedded in a download URL; whoever
    /// fetches that URL redeems it with [`SessionStore::consume_download_ticket`].
    pub fn stage_download<'a>(
        &self,
        meta: Result<String, serde_json::Error>,
        data: &'a [u8],
    ) -> (step: Result<StageData<'a>, AppError>)
        ensures
            exists|token: Seq<char>|
                issued_token(token) && #[trigger] stage_started(
                    self.prefix(),
                    token,
                    meta,
                    data@,
                    step,
                ),
            data@.len() <= DOWNLOAD_TICKET_MAX_SIZE ==> exists|fresh: FreshUuids|
                #[trigger] call_ensures(draw_uuids, (), fresh) && stage_started(
                    self.prefix(),
                    token_text(fresh.first@, fresh.second@),
                    meta,
                    data@,
                    step,
                ),
    {
        if data.len() > DOWNLOAD_TICKET_MAX_SIZE {
            let refused = Err(AppError::Imap(too_large_text(data.len())));
            proof {
                let token = lemma_some_token_is_issued();
                assert(stage_started(self.prefix(), token, meta, data@, refused));
            }
            return refused;
        }
        self.stage_under_token(fresh_token(), meta, data)
    }

    /// Starts staging `data` under the given token.
    pub fn stage_under_token<'a>(
        &self,
        token: String,
        meta: Result<String, serde_json::Error>,
        data: &'a [u8],
    ) -> (step: Result<StageData<'a>, AppError>)
        ensures
            stage_started(self.prefix(), token@, meta, data@, step),
    {
        if data.len() > DOWNLOAD_TICKET_MAX_SIZE {
            return Err(AppError::Imap(too_large_text(data.len())));
        }
        match meta {
            Ok(meta) => Ok(StageData { prefix: self.key_prefix().to_owned(), token, meta, data }),
            Err(error) => Err(AppError::Serialization(error)),
        }
    }

    /// Starts redeeming a token. The metadata is read first: where two requests
    /// race, only one of them gets it, and the other never touches the bytes.
    pub fn consume_download_ticket(&self, token: &str) -> (step: ReadMeta)
        ensures
            step@ == (RedeemView { prefix: self.prefix(), token: token@ }),
    {
        ReadMeta { prefix: self.key_prefix().to_owned(), token: token.to_owned() }
    }
}

/// The key of a token's metadata.
fn meta_key_text(prefix: &str, token: &str) -> (key: String)
    ensures
        key@ == meta_key(prefix@, token@),
{
    joined(prefix, joined("download:meta:", token).as_str())
}

/// The key of a token's bytes.
fn data_key_text(prefix: &str, token: &str) -> (key: String)
    ensures
        key@ == data_key(prefix@, token@),
{
    joined(prefix, joined("download:data:", token).as_str())
}

impl<'a> StageData<'a> {
    /// The command that is due. The bytes go first: should the metadata fail to
    /// follow, they expire on their own.
    pub fn command(&self) -> (command: SetCommand<'_>)
        ensures
            command@ == data_write(self@),
    {
        SetCommand {
            name: "SET",
            key: data_key_text(self.prefix.as_str(), self.token.as_str()),
            value: self.data,
            expiry_option: "EX",
            ttl_seconds: DOWNLOAD_TICKET_TTL,
        }
    }

    /// Takes the reply to the command.
    pub fn advance(self, reply: Result<(), redis::RedisError>) -> (step: Result<
        StageMeta<'a>,
        AppError,
    >)
        ensures
            (match step {
                Ok(next) => StageState::WriteMeta(next@),
                Err(error) => StageState::Done(Err(error)),
            }) == after_data_write(self@, reply),
    {
        match reply {
            Ok(_) => Ok(
                StageMeta {
                    prefix: self.prefix,
                    token: self.token,
                    meta: self.meta,
                    data: self.data,
                },
            ),
            Err(error) => Err(AppError::Redis(error)),
        }
    }
}

impl<'a> StageMeta<'a> {
    /// The command that is due.
    pub fn command(&self) -> (command: SetCommand<'_>)
        ensures
            command@ == meta_write(self@),
    {
        SetCommand {
            name: "SET",
            key: meta_key_text(self.prefix.as_str(), self.token.as_str()),
            value: self.meta.as_str().as_bytes(),
            expiry_option: "EX",
            ttl_seconds: DOWNLOAD_TICKET_TTL,
        }
    }

    /// Takes the reply to the command; the end is the token.
    pub fn advance(self, reply: Result<(), redis::RedisError>) -> (token: Result<String, AppError>)
        ensures
            (match token {
                Ok(token) => StageState::Done(Ok(token@)),
                Err(error) => StageState::Done(Err(error)),
            }) == after_meta_write(self@, reply),
    {
        match reply {
            Ok(_) => Ok(self.token),
            Err(error) => Err(AppError::Redis(error)),
        }
    }
}

impl ReadMeta {
    /// The command that is due.
    pub fn command(&self) -> (command: GetDelCommand)
        ensures
            command@ == meta_read(self@),
    {
        GetDelCommand {
            name: "GETDEL",
            key: meta_key_text(self.prefix.as_str(), self.token.as_str()),
        }
    }

    /// Takes the reply. Without metadata the token is unknown, expired or
    /// already used, and redeeming ends.
    pub fn advance(self, reply: Result<Option<String>, redis::RedisError>) -> (step: Result<
        Option<DecodeMeta>,
        AppError,
    >)
        ensures
            (match step {
                Ok(Some(next)) => RedeemState::DecodeMeta(next@, next.spec_meta()),
                Ok(None) => RedeemState::Done(Ok(None)),
                Err(error) => RedeemState::Done(Err(error)),
            }) == after_meta_read(
                self@,
                match reply {
                    Ok(meta) => Ok(optional_text(meta)),
                    Err(error) => Err(error),
                },
            ),
    {
        match reply {
            Ok(Some(meta)) => Ok(
                Some(DecodeMeta { prefix: self.prefix, token: self.token, meta }),
            ),
            Ok(None) => Ok(None),
            Err(error) => Err(AppError::Redis(error)),
        }
    }
}

impl DecodeMeta {
    /// The metadata that is to be decoded.
    pub closed spec fn spec_meta(&self) -> Seq<char> {
        self.meta@
    }

    /// The metadata that is to be decoded.
    pub fn meta(&self) -> (meta: &str)
        ensures
            meta@ == self.spec_meta(),
    {
        self.meta.as_str()
    }

    /// Takes the decoded metadata.
    pub fn advance(self, decoded: Result<DownloadTicket, serde_json::Error>) -> (step: Result<
        ReadData,
        AppError,
    >)
        ensures
            (match step {
                Ok(next) => RedeemState::ReadData(next@, next.spec_ticket()),
                Err(error) => RedeemState::Done(Err(error)),
            }) == after_decode(self@, decoded),
    {
        match decoded {
            Ok(ticket) => Ok(ReadData { prefix: self.prefix, token: self.token, ticket }),
            Err(error) => Err(AppError::Serialization(error)),
        }
    }
}

impl ReadData {
    /// The ticket whose bytes are to be read.
    pub closed spec fn spec_ticket(&self) -> DownloadTicket {
        self.ticket
    }

    /// The command that is due.
    pub fn command(&self) -> (command: GetDelCommand)
        ensures
            command@ == data_read(self@),
    {
        GetDelCommand {
            name: "GETDEL",
            key: data_key_text(self.prefix.as_str(), self.token.as_str()),
        }
    }

    /// Takes the reply; the end is the ticket with its bytes. Missing bytes
    /// count as a missing token.
    pub fn advance(self, reply: Result<Option<Vec<u8>>, redis::RedisError>) -> (redeemed: Result<
        Option<(DownloadTicket, Vec<u8>)>,
        AppError,
    >)
        ensures
            RedeemState::Done(redeemed_view(redeemed)) == after_data_read(
                self.spec_ticket(),
                match reply {
                    Ok(Some(data)) => Ok(Some(data@)),
                    Ok(None) => Ok(None),
                    Err(error) => Err(error),
                },
            ),
    {
        match reply {
            Ok(Some(data)) => Ok(Some((self.ticket, data))),
            Ok(None) => Ok(None),
            Err(error) => Err(AppError::Redis(error)),
        }
    }
}

/// The token of two UUIDs is their hexadecimal text, so tokens of different draws
/// differ, and with them every key that is named after them.
pub proof fn different_draws_never_share_a_key(
    first: [u8; 16],
    second: [u8; 16],
    token: String,
    other_first: [u8; 16],
    other_second: [u8; 16],
    other: String,
    before: Seq<char>,
)
    requires
        call_ensures(token_from_uuids, (first, second), token),
        call_ensures(token_from_uuids, (other_first, other_second), other),
    ensures
        token@ == lower_hex(first@) + lower_hex(second@),
        token@.len() == 64,
        first@ != other_first@ || second@ != other_second@ ==> token@ != other@ && before + token@
            != before + other@,
{
    if token@ == other@ {
        assert(lower_hex(first@) =~= token@.take(32));
        assert(lower_hex(other_first@) =~= other@.take(32));
        assert(lower_hex(second@) =~= token@.skip(32));
        assert(lower_hex(other_second@) =~= other@.skip(32));
        hexadecimal_text_tells_apart(first@, other_first@);
        hexadecimal_text_tells_apart(second@, other_second@);
    }
    if before + token@ == before + other@ {
        assert((before + token@).skip(before.len() as int) =~= token@);
        assert((before + other@).skip(before.len() as int) =~= other@);
    }
}

/// Staging under a token, step by step, where every write succeeds: the bytes as
/// they were given go under `download:data:` and the token, then the metadata as
/// it was given under `download:meta:` and the token, both for fifteen minutes;
/// the end is the token.
pub proof fn staging_writes_what_it_was_given<'a>(
    store: &SessionStore,
    token: String,
    meta: String,
    data: &'a [u8],
    started: Result<StageData<'a>, AppError>,
    first: SetCommand<'a>,
    continued: Result<StageMeta<'a>, AppError>,
    second: SetCommand<'a>,
    ended: Result<String, AppError>,
)
    requires
        data@.len() <= 26214400,
        call_ensures(
            SessionStore::stage_under_token,
            (store, token, Ok::<String, serde_json::Error>(meta), data),
            started,
        ),
        started matches Ok(step) ==> call_ensures(StageData::command, (&step,), first),
        started matches Ok(step) ==> call_ensures(
            StageData::advance,
            (step, Ok::<(), redis::RedisError>(())),
            continued,
        ),
        continued matches Ok(step) ==> call_ensures(StageMeta::command, (&step,), second),
        continued matches Ok(step) ==> call_ensures(
            StageMeta::advance,
            (step, Ok::<(), redis::RedisError>(())),
            ended,
        ),
    ensures
        started is Ok && continued is Ok && ended is Ok,
        ended->Ok_0@ == token@,
        first.name@ == "SET"@ && first.expiry_option@ == "EX"@ && first.ttl_seconds == 900,
        first.key@ == store.prefix() + ("download:data:"@ + token@),
        first.value@ == data@,
        second.name@ == "SET"@ && second.expiry_option@ == "EX"@ && second.ttl_seconds == 900,
        second.key@ == store.prefix() + ("download:meta:"@ + token@),
        second.value@ == encode_utf8(meta@),
{
    assert(first@.name == first.name@ && second@.name == second.name@);
    if let Ok(step) = started {
        assert(first@ == data_write(step@));
    }
    if let Ok(step) = continued {
        assert(second@ == meta_write(step@));
    }
}

/// A write that fails ends staging in the error of Redis.
pub proof fn failed_writes_end_staging<'a>(
    step: StageData<'a>,
    next: StageMeta<'a>,
    error: redis::RedisError,
    continued: Result<StageMeta<'a>, AppError>,
    ended: Result<String, AppError>,
)
    requires
        call_ensures(StageData::advance, (step, Err::<(), redis::RedisError>(error)), continued),
        call_ensures(StageMeta::advance, (next, Err::<(), redis::RedisError>(error)), ended),
    ensures
        continued == Err::<StageMeta<'a>, AppError>(AppError::Redis(error)),
        ended == Err::<String, AppError>(AppError::Redis(error)),
{
}

/// Which attachments are refused: those over 25 MiB, with their size told, and
/// else those whose metadata could not be encoded. No other is.
pub proof fn only_oversized_attachments_are_refused<'a>(
    store: &SessionStore,
    meta: Result<String, serde_json::Error>,
    data: &'a [u8],
    started: Result<StageData<'a>, AppError>,
)
    requires
        call_ensures(SessionStore::stage_download, (store, meta, data), started),
    ensures
        started is Ok <==> data@.len() <= 26214400 && meta is Ok,
        data@.len() > 26214400 ==> started is Err && started->Err_0 is Imap
            && started->Err_0->Imap_0@ == "attachment too large to stage for download ("@ + decimal(
            data@.len(),
        ) + " bytes, max "@ + "26214400"@ + ")"@,
        data@.len() <= 26214400 && meta is Err ==> started == Err::<StageData<'a>, AppError>(
            AppError::Serialization(meta->Err_0),
        ),
{
    reveal_strlit("26214400");
    reveal_with_fuel(decimal, 8);
    assert(decimal(26214400) =~= "26214400"@);
}

/// Each staging draws its own two UUIDs from the random generator, one after the
/// other, and the token is their text: the keys it writes are named after that
/// draw and nothing else, whatever is staged.
pub proof fn staging_uses_its_own_draw<'a>(
    store: &SessionStore,
    meta: Result<String, serde_json::Error>,
    data: &'a [u8],
    step: StageData<'a>,
    command: SetCommand<'a>,
)
    requires
        call_ensures(
            SessionStore::stage_download,
            (store, meta, data),
            Ok::<StageData<'a>, AppError>(step),
        ),
        call_ensures(StageData::command, (&step,), command),
    ensures
        exists|fresh: FreshUuids|
            {
                &&& #[trigger] call_ensures(draw_uuids, (), fresh)
                &&& fresh.source.drawn() == seq![fresh.first, fresh.second]
                &&& from_generator(fresh.first) && from_generator(fresh.second)
                &&& command.key@ == store.prefix() + ("download:data:"@ + (lower_hex(fresh.first@)
                    + lower_hex(fresh.second@)))
            },
        meta is Ok,
        command.value@ == data@,
{
    let fresh = choose|fresh: FreshUuids|
        #[trigger] call_ensures(draw_uuids, (), fresh) && stage_started(
            store.prefix(),
            token_text(fresh.first@, fresh.second@),
            meta,
            data@,
            Ok(step),
        );
    assert(command@ == data_write(step@));
    assert(command@.key == command.key@);
    assert(fresh.source.drawn() == seq![fresh.first, fresh.second]);
}

/// Two stagings write to the same key only where their draws are the same.
pub proof fn stagings_share_a_key_only_by_chance<'a>(
    store: &SessionStore,
    meta: Result<String, serde_json::Error>,
    data: &'a [u8],
    step: StageData<'a>,
    command: SetCommand<'a>,
    other_meta: Result<String, serde_json::Error>,
    other_data: &'a [u8],
    other_step: StageData<'a>,
    other_command: SetCommand<'a>,
)
    requires
        call_ensures(
            SessionStore::stage_download,
            (store, meta, data),
            Ok::<StageData<'a>, AppError>(step),
        ),
        call_ensures(StageData::command, (&step,), command),
        call_ensures(
            SessionStore::stage_download,
            (store, other_meta, other_data),
            Ok::<StageData<'a>, AppError>(other_step),
        ),
        call_ensures(StageData::command, (&other_step,), other_command),
    ensures
        exists|fresh: FreshUuids, other: FreshUuids|
            {
                &&& #[trigger] call_ensures(draw_uuids, (), fresh)
                &&& #[trigger] call_ensures(draw_uuids, (), other)
                &&& command.key@ == other_command.key@ ==> fresh.first@ == other.first@
                    && fresh.second@ == other.second@
            },
{
    staging_uses_its_own_draw(store, meta, data, step, command);
    staging_uses_its_own_draw(store, other_meta, other_data, other_step, other_command);
    let fresh = choose|fresh: FreshUuids|
        #[trigger] call_ensures(draw_uuids, (), fresh) && command.key@ == store.prefix() + (
        "download:data:"@ + (lower_hex(fresh.first@) + lower_hex(fresh.second@)));
    let other = choose|other: FreshUuids|
        #[trigger] call_ensures(draw_uuids, (), other) && other_command.key@ == store.prefix() + (
        "download:data:"@ + (lower_hex(other.first@) + lower_hex(other.second@)));
    let a = lower_hex(fresh.first@) + lower_hex(fresh.second@);
    let b = lower_hex(other.first@) + lower_hex(other.second@);
    let n = (store.prefix() + "download:data:"@).len() as int;
    if command.key@ == other_command.key@ {
        assert(command.key@.skip(n) =~= a);
        assert(other_command.key@.skip(n) =~= b);
        assert(lower_hex(fresh.first@) =~= a.take(32));
        assert(lower_hex(other.first@) =~= b.take(32));
        assert(lower_hex(fresh.second@) =~= a.skip(32));
        assert(lower_hex(other.second@) =~= b.skip(32));
        hexadecimal_text_tells_apart(fresh.first@, other.first@);
        hexadecimal_text_tells_apart(fresh.second@, other.second@);
    }
}

/// Redeeming a token, step by step, where both records are there: the metadata
/// is taken from under `download:meta:` and the token and handed over as it is
/// stored, the bytes are taken from under `download:data:` and the token, and the
/// end is the decoded ticket with all of those bytes.
pub proof fn redeeming_gives_what_it_reads(
    store: &SessionStore,
    token: &str,
    start: ReadMeta,
    first: GetDelCommand,
    meta: String,
    found: Result<Option<DecodeMeta>, AppError>,
    handed: &str,
    ticket: DownloadTicket,
    decoded: Result<ReadData, AppError>,
    second: GetDelCommand,
    data: Vec<u8>,
    ended: Result<Option<(DownloadTicket, Vec<u8>)>, AppError>,
)
    requires
        call_ensures(SessionStore::consume_download_ticket, (store, token), start),
        call_ensures(ReadMeta::command, (&start,), first),
        call_ensures(
            ReadMeta::advance,
            (start, Ok::<Option<String>, redis::RedisError>(Some(meta))),
            found,
        ),
        found matches Ok(Some(step)) ==> call_ensures(DecodeMeta::meta, (&step,), handed),
        found matches Ok(Some(step)) ==> call_ensures(
            DecodeMeta::advance,
            (step, Ok::<DownloadTicket, serde_json::Error>(ticket)),
            decoded,
        ),
        decoded matches Ok(step) ==> call_ensures(ReadData::command, (&step,), second),
        decoded matches Ok(step) ==> call_ensures(
            ReadData::advance,
            (step, Ok::<Option<Vec<u8>>, redis::RedisError>(Some(data))),
            ended,
        ),
    ensures
        found matches Ok(Some(_)),
        decoded is Ok,
        first.name@ == "GETDEL"@ && first.key@ == store.prefix() + ("download:meta:"@ + token@),
        handed@ == meta@,
        second.name@ == "GETDEL"@ && second.key@ == store.prefix() + ("download:data:"@ + token@),
        ended matches Ok(Some((won, bytes))) && won == ticket && bytes@ == data@,
{
    assert(first@ == meta_read(start@));
    if let Ok(Some(step)) = found {
        assert(step.spec_meta() == meta@);
    }
    if let Ok(step) = decoded {
        assert(second@ == data_read(step@));
        assert(step.spec_ticket() == ticket);
    }
}

/// Where redeeming ends early: a record that is not there ends it with nothing,
/// and each failure in its own error.
pub proof fn redeeming_ends_early_without_a_record(
    start: ReadMeta,
    read: Result<Option<String>, redis::RedisError>,
    found: Result<Option<DecodeMeta>, AppError>,
    middle: DecodeMeta,
    parsed: Result<DownloadTicket, serde_json::Error>,
    decoded: Result<ReadData, AppError>,
    last: ReadData,
    fetched: Result<Option<Vec<u8>>, redis::RedisError>,
    ended: Result<Option<(DownloadTicket, Vec<u8>)>, AppError>,
)
    requires
        call_ensures(ReadMeta::advance, (start, read), found),
        call_ensures(DecodeMeta::advance, (middle, parsed), decoded),
        call_ensures(ReadData::advance, (last, fetched), ended),
    ensures
        read matches Ok(None) ==> found == Ok::<Option<DecodeMeta>, AppError>(None),
        read matches Err(error) ==> found == Err::<Option<DecodeMeta>, AppError>(
            AppError::Redis(error),
        ),
        parsed matches Err(error) ==> decoded == Err::<ReadData, AppError>(
            AppError::Serialization(error),
        ),
        fetched matches Ok(None) ==> ended == Ok::<Option<(DownloadTicket, Vec<u8>)>, AppError>(
            None,
        ),
        fetched matches Err(error) ==> ended == Err::<Option<(DownloadTicket, Vec<u8>)>, AppError>(
            AppError::Redis(error),
        ),
{
}

} // verus!
