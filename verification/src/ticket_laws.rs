//! What holds of download tickets as a whole: a model of the Redis keys, the
//! runs of staging and redeeming over it, and the laws they keep.

use vstd::prelude::*;
use vstd::utf8::{decode_utf8, encode_utf8, valid_utf8};

use crate::error::AppError;
use crate::session::DownloadTicket;
use crate::ticket::{
    after_data_read, after_data_write, after_decode, after_meta_read, after_meta_write, data_key,
    data_read, data_write, meta_key, meta_read, meta_write, GetDelCommandView, RedeemState,
    RedeemView, Redeemed, SetCommandView, StageState, StageView,
};

verus! {

/// The live keys of a Redis and their values. Expiry takes keys away.
pub type Db = Map<Seq<char>, Seq<u8>>;

/// What a `SET` does to the live keys.
pub open spec fn set_value(db: Db, command: SetCommandView) -> Db {
    db.insert(command.key, command.value)
}

/// What `GETDEL` does to the live keys, and its reply.
pub open spec fn get_del(db: Db, command: GetDelCommandView) -> (Db, Option<Seq<u8>>) {
    (
        db.remove(command.key),
        if db.contains_key(command.key) {
            Some(db[command.key])
        } else {
            None
        },
    )
}

/// How what is stored is read back.
pub struct Reading {
    /// The error that the Redis client gives for a text that is not UTF-8.
    pub not_text: spec_fn(Seq<u8>) -> redis::RedisError,
    /// What metadata decodes to. Encoding and decoding belong to the caller;
    /// that they undo each other is a premise of the laws that need it.
    pub decode: spec_fn(Seq<char>) -> Result<DownloadTicket, serde_json::Error>,
}

/// A stored value read as text.
pub open spec fn reply_text(reply: Option<Seq<u8>>, reading: Reading) -> Result<
    Option<Seq<char>>,
    redis::RedisError,
> {
    match reply {
        Some(bytes) => if valid_utf8(bytes) {
            Ok(Some(decode_utf8(bytes)))
        } else {
            Err((reading.not_text)(bytes))
        },
        None => Ok(None),
    }
}

/// One step of staging, where every write succeeds.
pub open spec fn stage_step(db: Db, state: StageState) -> (Db, StageState) {
    match state {
        StageState::WriteData(stage) => (
            set_value(db, data_write(stage)),
            after_data_write(stage, Ok(())),
        ),
        StageState::WriteMeta(stage) => (
            set_value(db, meta_write(stage)),
            after_meta_write(stage, Ok(())),
        ),
        StageState::Done(_) => (db, state),
    }
}

/// One step of redeeming, where every read is answered.
pub open spec fn redeem_step(db: Db, state: RedeemState, reading: Reading) -> (Db, RedeemState) {
    match state {
        RedeemState::ReadMeta(at) => {
            let (rest, reply) = get_del(db, meta_read(at));
            (rest, after_meta_read(at, reply_text(reply, reading)))
        },
        RedeemState::DecodeMeta(at, meta) => (db, after_decode(at, (reading.decode)(meta))),
        RedeemState::ReadData(at, ticket) => {
            let (rest, reply) = get_del(db, data_read(at));
            (rest, after_data_read(ticket, Ok(reply)))
        },
        RedeemState::Done(_) => (db, state),
    }
}

/// How many steps staging has at most before it.
pub open spec fn staging_steps_left(state: StageState) -> nat {
    match state {
        StageState::WriteData(_) => 2,
        StageState::WriteMeta(_) => 1,
        StageState::Done(_) => 0,
    }
}

/// How many steps redeeming has at most before it.
pub open spec fn redeeming_steps_left(state: RedeemState) -> nat {
    match state {
        RedeemState::ReadMeta(_) => 3,
        RedeemState::DecodeMeta(_, _) => 2,
        RedeemState::ReadData(_, _) => 1,
        RedeemState::Done(_) => 0,
    }
}

/// Staging from one of its states to its end, with nothing in between.
pub open spec fn run_staging(db: Db, state: StageState) -> (Db, Result<Seq<char>, AppError>)
    decreases staging_steps_left(state),
{
    match state {
        StageState::Done(outcome) => (db, outcome),
        _ => {
            let (after, next) = stage_step(db, state);
            run_staging(after, next)
        },
    }
}

/// Redeeming from one of its states to its end, with nothing in between.
pub open spec fn run_redeeming(db: Db, state: RedeemState, reading: Reading) -> (Db, Redeemed)
    decreases redeeming_steps_left(state),
{
    match state {
        RedeemState::Done(outcome) => (db, outcome),
        _ => {
            let (after, next) = redeem_step(db, state, reading);
            run_redeeming(after, next, reading)
        },
    }
}

/// Metadata and bytes never share a key, and two tokens never share one.
pub proof fn ticket_keys_are_distinct(prefix: Seq<char>, a: Seq<char>, b: Seq<char>)
    ensures
        meta_key(prefix, a) != data_key(prefix, b),
        a != b ==> meta_key(prefix, a) != meta_key(prefix, b),
        a != b ==> data_key(prefix, a) != data_key(prefix, b),
{
    reveal_strlit("download:meta:");
    reveal_strlit("download:data:");
    let n = prefix.len() as int;
    assert(meta_key(prefix, a)[n + 9] == 'm');
    assert(data_key(prefix, b)[n + 9] == 'd');
    if meta_key(prefix, a) == meta_key(prefix, b) {
        assert(meta_key(prefix, a).skip(n + 14) =~= a);
        assert(meta_key(prefix, b).skip(n + 14) =~= b);
    }
    if data_key(prefix, a) == data_key(prefix, b) {
        assert(data_key(prefix, a).skip(n + 14) =~= a);
        assert(data_key(prefix, b).skip(n + 14) =~= b);
    }
}

/// Every key that staging or redeeming touches starts with the configured
/// prefix.
pub proof fn ticket_keys_are_namespaced(prefix: Seq<char>, token: Seq<char>)
    ensures
        prefix.is_prefix_of(meta_key(prefix, token)),
        prefix.is_prefix_of(data_key(prefix, token)),
{
    assert(prefix =~= meta_key(prefix, token).take(prefix.len() as int));
    assert(prefix =~= data_key(prefix, token).take(prefix.len() as int));
}

/// The commands that the Redis user of the server may run: `GET`, `GETDEL` and
/// `SET`, on keys under the configured prefix.
pub open spec fn permitted_command(prefix: Seq<char>, name: Seq<char>, key: Seq<char>) -> bool {
    &&& name == "GET"@ || name == "GETDEL"@ || name == "SET"@
    &&& prefix.is_prefix_of(key)
}

/// Every command of staging and redeeming is one that the Redis user may run,
/// and every write expires after fifteen minutes.
pub proof fn ticket_commands_are_permitted(stage: StageView, at: RedeemView)
    ensures
        permitted_command(stage.prefix, data_write(stage).name, data_write(stage).key),
        permitted_command(stage.prefix, meta_write(stage).name, meta_write(stage).key),
        permitted_command(at.prefix, meta_read(at).name, meta_read(at).key),
        permitted_command(at.prefix, data_read(at).name, data_read(at).key),
        data_write(stage).expiry_option == "EX"@ && data_write(stage).ttl_seconds == 900,
        meta_write(stage).expiry_option == "EX"@ && meta_write(stage).ttl_seconds == 900,
{
    ticket_keys_are_namespaced(stage.prefix, stage.token);
    ticket_keys_are_namespaced(at.prefix, at.token);
}

/// Staging ends with the token, writes exactly the two keys of that token, and
/// leaves all others as they were.
pub proof fn staging_writes_two_keys(db: Db, stage: StageView)
    ensures
        run_staging(db, StageState::WriteData(stage)) == (
            db.insert(data_key(stage.prefix, stage.token), stage.data).insert(
                meta_key(stage.prefix, stage.token),
                encode_utf8(stage.meta),
            ),
            Ok::<Seq<char>, AppError>(stage.token),
        ),
{
    reveal_with_fuel(run_staging, 3);
}

/// Redeeming touches no key but the two of its token.
pub proof fn redeeming_keeps_other_keys(
    db: Db,
    at: RedeemView,
    reading: Reading,
)
    ensures
        ({
            let (rest, _) = run_redeeming(db, RedeemState::ReadMeta(at), reading);
            forall|key: Seq<char>|
                key != meta_key(at.prefix, at.token) && key != data_key(at.prefix, at.token) ==> (
                rest.contains_key(key) == #[trigger] db.contains_key(key) && rest[key] == db[key])
        }),
{
    reveal_with_fuel(run_redeeming, 4);
}

/// What was staged is what is redeemed: the same metadata reaches the decoder,
/// the same bytes come back, and nothing of the ticket stays behind.
pub proof fn staged_attachment_is_redeemed(
    db: Db,
    stage: StageView,
    ticket: DownloadTicket,
    reading: Reading,
)
    requires
        (reading.decode)(stage.meta) == Ok::<DownloadTicket, serde_json::Error>(ticket),
    ensures
        ({
            let at = RedeemView { prefix: stage.prefix, token: stage.token };
            let (staged, _) = run_staging(db, StageState::WriteData(stage));
            let (rest, redeemed) = run_redeeming(staged, RedeemState::ReadMeta(at), reading);
            &&& redeemed == Ok::<Option<(DownloadTicket, Seq<u8>)>, AppError>(
                Some((ticket, stage.data)),
            )
            &&& rest == db.remove(meta_key(stage.prefix, stage.token)).remove(
                data_key(stage.prefix, stage.token),
            )
        }),
{
    let at = RedeemView { prefix: stage.prefix, token: stage.token };
    let meta = meta_key(stage.prefix, stage.token);
    let data = data_key(stage.prefix, stage.token);
    staging_writes_two_keys(db, stage);
    ticket_keys_are_distinct(stage.prefix, stage.token, stage.token);
    vstd::utf8::encode_utf8_valid_utf8(stage.meta);
    vstd::utf8::encode_utf8_decode_utf8(stage.meta);
    reveal_with_fuel(run_redeeming, 4);
    let (staged, _) = run_staging(db, StageState::WriteData(stage));
    assert(staged.remove(meta).remove(data) =~= db.remove(meta).remove(data));
    let (rest, redeemed) = run_redeeming(staged, RedeemState::ReadMeta(at), reading);
    assert(rest == staged.remove(meta).remove(data));
}

/// A redemption gives a ticket with bytes exactly where both keys of the token
/// are live and the stored metadata is text that decodes to that ticket; the
/// bytes are the stored ones.
pub proof fn redemption_gives_what_is_stored(
    db: Db,
    at: RedeemView,
    reading: Reading,
    ticket: DownloadTicket,
    data: Seq<u8>,
)
    ensures
        run_redeeming(db, RedeemState::ReadMeta(at), reading).1 == Ok::<
            Option<(DownloadTicket, Seq<u8>)>,
            AppError,
        >(Some((ticket, data))) <==> {
            &&& db.contains_key(meta_key(at.prefix, at.token))
            &&& db.contains_key(data_key(at.prefix, at.token))
            &&& valid_utf8(db[meta_key(at.prefix, at.token)])
            &&& (reading.decode)(decode_utf8(db[meta_key(at.prefix, at.token)])) == Ok::<
                DownloadTicket,
                serde_json::Error,
            >(ticket)
            &&& db[data_key(at.prefix, at.token)] == data
        },
{
    ticket_keys_are_distinct(at.prefix, at.token, at.token);
    reveal_with_fuel(run_redeeming, 4);
}

/// Metadata that is not text, or that does not decode, ends the redemption in
/// that error.
pub proof fn unreadable_metadata_is_an_error(db: Db, at: RedeemView, reading: Reading)
    requires
        db.contains_key(meta_key(at.prefix, at.token)),
    ensures
        ({
            let stored = db[meta_key(at.prefix, at.token)];
            let (_, redeemed) = run_redeeming(db, RedeemState::ReadMeta(at), reading);
            &&& !valid_utf8(stored) ==> redeemed == Err::<
                Option<(DownloadTicket, Seq<u8>)>,
                AppError,
            >(AppError::Redis((reading.not_text)(stored)))
            &&& valid_utf8(stored) ==> match (reading.decode)(decode_utf8(stored)) {
                Err(error) => redeemed == Err::<Option<(DownloadTicket, Seq<u8>)>, AppError>(
                    AppError::Serialization(error),
                ),
                Ok(_) => redeemed is Ok,
            }
        }),
{
    reveal_with_fuel(run_redeeming, 4);
}

/// A token works once: whatever the first redemption gave, the next one finds
/// nothing.
pub proof fn second_redemption_finds_nothing(
    db: Db,
    at: RedeemView,
    reading: Reading,
)
    ensures
        ({
            let (rest, _) = run_redeeming(db, RedeemState::ReadMeta(at), reading);
            let (_, again) = run_redeeming(rest, RedeemState::ReadMeta(at), reading);
            again == Ok::<Option<(DownloadTicket, Seq<u8>)>, AppError>(None)
        }),
{
    reveal_with_fuel(run_redeeming, 4);
}

/// A token that was never staged, or has expired, redeems to nothing and changes
/// nothing.
pub proof fn unknown_token_redeems_to_nothing(
    db: Db,
    at: RedeemView,
    reading: Reading,
)
    requires
        !db.contains_key(meta_key(at.prefix, at.token)),
    ensures
        run_redeeming(db, RedeemState::ReadMeta(at), reading) == (
            db,
            Ok::<Option<(DownloadTicket, Seq<u8>)>, AppError>(None),
        ),
{
    reveal_with_fuel(run_redeeming, 4);
    assert(db.remove(meta_key(at.prefix, at.token)) =~= db);
}

/// Bytes whose metadata never followed cannot be fetched.
pub proof fn half_staged_token_redeems_to_nothing(
    db: Db,
    stage: StageView,
    reading: Reading,
)
    requires
        !db.contains_key(meta_key(stage.prefix, stage.token)),
    ensures
        ({
            let at = RedeemView { prefix: stage.prefix, token: stage.token };
            run_redeeming(
                set_value(db, data_write(stage)),
                RedeemState::ReadMeta(at),
                reading,
            ).1 == Ok::<Option<(DownloadTicket, Seq<u8>)>, AppError>(None)
        }),
{
    ticket_keys_are_distinct(stage.prefix, stage.token, stage.token);
    reveal_with_fuel(run_redeeming, 4);
}

/// Neither staging nor redeeming one token changes what another one redeems to.
pub proof fn tickets_do_not_interfere(
    db: Db,
    stage: StageView,
    other: Seq<char>,
    reading: Reading,
)
    requires
        other != stage.token,
    ensures
        ({
            let at = RedeemView { prefix: stage.prefix, token: other };
            let elsewhere = RedeemView { prefix: stage.prefix, token: stage.token };
            let (staged, _) = run_staging(db, StageState::WriteData(stage));
            let (redeemed, _) = run_redeeming(db, RedeemState::ReadMeta(elsewhere), reading);
            let (_, undisturbed) = run_redeeming(db, RedeemState::ReadMeta(at), reading);
            &&& run_redeeming(staged, RedeemState::ReadMeta(at), reading).1 == undisturbed
            &&& run_redeeming(redeemed, RedeemState::ReadMeta(at), reading).1 == undisturbed
        }),
{
    staging_writes_two_keys(db, stage);
    ticket_keys_are_distinct(stage.prefix, stage.token, other);
    ticket_keys_are_distinct(stage.prefix, other, stage.token);
    ticket_keys_are_distinct(stage.prefix, other, other);
    reveal_with_fuel(run_redeeming, 4);
}

} // verus!
