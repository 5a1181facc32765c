//! The download endpoint: which tokens are looked up at all, and how the
//! outcome is answered.

use vstd::prelude::*;

use crate::disposition::{build_content_disposition, content_disposition, header_is_visible_ascii};
use crate::error::AppError;
use crate::interleaving::{
    found_nothing, one_winner, race_begins, race_is_over, redemption_of, run_schedule, served,
    staged_at, staged_attachment_goes_to_one_request, staging_begins, Task,
};
use crate::reply::{
    plain_reply, reply_content_is_in_its_fields, BodyView, Reply, ReplyBody, ReplyView,
};
use crate::session::{DownloadTicket, SessionStore};
use crate::text::{ascii_alphanumeric, is_ascii_alphanumeric, lower_hex, to_chars};
use crate::ticket::{
    issued_token, random_uuid_bytes, redeemed_view, token_text, GetDelCommand, ReadMeta,
    RedeemState, RedeemView, Redeemed, StageState, StageView,
};
use crate::ticket_laws::{
    run_redeeming, run_staging, second_redemption_finds_nothing, staged_attachment_is_redeemed,
    staging_writes_two_keys, Db, Reading,
};

verus! {

/// The characters of a download token.
pub open spec fn token_char(c: char) -> bool {
    ascii_alphanumeric(c) || c == '-' || c == '_'
}

/// The tokens that are looked up at all: one to sixty-four characters that are
/// safe in a URL.
pub open spec fn well_formed_token(token: Seq<char>) -> bool {
    &&& 0 < token.len() <= 64
    &&& forall|i: int| 0 <= i < token.len() ==> token_char(#[trigger] token[i])
}

/// The characters that Unicode counts as controls.
pub open spec fn control(c: char) -> bool {
    c <= '\u{1f}' || '\u{7f}' <= c <= '\u{9f}'
}

/// The MIME types that are safe to echo: ASCII without controls, quotes and
/// commas.
pub open spec fn safe_mime(mime: Seq<char>) -> bool {
    forall|i: int|
        0 <= i < mime.len() ==> {
            let c = #[trigger] mime[i];
            c <= '\u{7f}' && !control(c) && c != '"' && c != ','
        }
}

/// The MIME type that a download is served under.
pub open spec fn served_mime(mime: Seq<char>) -> Seq<char> {
    if safe_mime(mime) {
        mime
    } else {
        "application/octet-stream"@
    }
}

/// The answer for a link that is malformed, unknown, expired or already used.
pub open spec fn unknown_link() -> ReplyView {
    plain_reply(404, "Unknown or expired download link"@)
}

/// The answer that serves a file.
pub open spec fn file_reply(
    filename: Seq<char>,
    mime_type: Seq<char>,
    data: Seq<u8>,
) -> ReplyView {
    ReplyView {
        status: 200,
        headers: seq![
            ("content-type"@, served_mime(mime_type)),
            ("content-disposition"@, content_disposition(filename)),
            ("cache-control"@, "no-store, max-age=0"@),
            ("x-content-type-options"@, "nosniff"@),
        ],
        body: BodyView::Bytes(data),
    }
}

/// The answer to a download, given what redeeming its token gave.
pub open spec fn download_answer(redeemed: Redeemed) -> ReplyView {
    match redeemed {
        Ok(Some((ticket, data))) => file_reply(ticket.filename@, ticket.mime_type@, data),
        Ok(None) => unknown_link(),
        Err(_) => plain_reply(500, "Failed to load download"@),
    }
}

/// What a download request leads to.
pub enum DownloadStep {
    /// It is answered at once.
    Answer(Reply),
    /// Its token is to be redeemed.
    Redeem(ReadMeta),
}

/// Tells whether a token is looked up at all.
pub fn is_well_formed_token(token: &str) -> (b: bool)
    ensures
        b == well_formed_token(token@),
{
    let chars = to_chars(token);
    let mut i: usize = 0;
    while i < chars.len()
        invariant
            i <= chars.len(),
            chars@ == token@,
            forall|j: int| 0 <= j < i ==> token_char(#[trigger] token@[j]),
        decreases chars.len() - i,
    {
        let c = chars[i];
        if !(is_ascii_alphanumeric(c) || c == '-' || c == '_') {
            return false;
        }
        i = i + 1;
    }
    0 < chars.len() && chars.len() <= 64
}

/// The MIME type that a download is served under. Mail can carry anything here,
/// so only harmless types are echoed.
pub fn served_mime_type(mime_type: &str) -> (mime: String)
    ensures
        mime@ == served_mime(mime_type@),
{
    let chars = to_chars(mime_type);
    let mut i: usize = 0;
    while i < chars.len()
        invariant
            i <= chars.len(),
            chars@ == mime_type@,
            forall|j: int|
                0 <= j < i ==> {
                    let c = #[trigger] mime_type@[j];
                    c <= '\u{7f}' && !control(c) && c != '"' && c != ','
                },
        decreases chars.len() - i,
    {
        let c = chars[i];
        if c < ' ' || c > '~' || c == '"' || c == ',' {
            assert(!safe_mime(mime_type@));
            return "application/octet-stream".to_owned();
        }
        i = i + 1;
    }
    mime_type.to_owned()
}

/// Takes a download request. The token is the authorization: malformed ones are
/// turned away without asking Redis.
pub fn download_handler(sessions: &SessionStore, token: &str) -> (step: DownloadStep)
    ensures
        match step {
            DownloadStep::Answer(reply) => !well_formed_token(token@) && reply@ == unknown_link(),
            DownloadStep::Redeem(first) => well_formed_token(token@) && first@ == (RedeemView {
                prefix: sessions.prefix(),
                token: token@,
            }),
        },
{
    if !is_well_formed_token(token) {
        return DownloadStep::Answer(Reply::plain(404, "Unknown or expired download link"));
    }
    DownloadStep::Redeem(sessions.consume_download_ticket(token))
}

/// Answers a download, given what redeeming its token gave.
pub fn download_reply(redeemed: Result<Option<(DownloadTicket, Vec<u8>)>, AppError>) -> (reply:
    Reply)
    ensures
        reply@ == download_answer(redeemed_view(redeemed)),
{
    match redeemed {
        Ok(Some((ticket, data))) => {
            let disposition = build_content_disposition(ticket.filename.as_str());
            let mime = served_mime_type(ticket.mime_type.as_str());
            let blank = Reply { status: 200, headers: Vec::new(), body: ReplyBody::Bytes(data) };
            let reply = blank.with_header("content-type", mime.as_str()).with_header(
                "content-disposition",
                disposition.as_str(),
            ).with_header("cache-control", "no-store, max-age=0").with_header(
                "x-content-type-options",
                "nosniff",
            );
            assert(reply@.headers =~= file_reply(
                ticket.filename@,
                ticket.mime_type@,
                data@,
            ).headers);
            reply
        },
        Ok(None) => Reply::plain(404, "Unknown or expired download link"),
        Err(_) => Reply::plain(500, "Failed to load download"),
    }
}

/// Every token that staging hands out is looked up when it comes back.
pub proof fn issued_tokens_are_well_formed(token: Seq<char>)
    requires
        issued_token(token),
    ensures
        well_formed_token(token),
{
    let (first, second) = choose|first: Seq<u8>, second: Seq<u8>|
        random_uuid_bytes(first) && random_uuid_bytes(second) && token == #[trigger] token_text(
            first,
            second,
        );
    assert forall|i: int| 0 <= i < token.len() implies token_char(#[trigger] token[i]) by {
        if i < 32 {
            assert(token[i] == lower_hex(first)[i]);
        } else {
            assert(token[i] == lower_hex(second)[i - 32]);
        }
    }
}

/// A staged link works exactly once: the token that staging handed out is looked
/// up, the first download is answered with the file as it was staged, and the
/// next one as an unknown link.
pub proof fn staged_link_serves_once(
    db: Db,
    stage: StageView,
    ticket: DownloadTicket,
    reading: Reading,
)
    requires
        issued_token(stage.token),
        (reading.decode)(stage.meta) == Ok::<DownloadTicket, serde_json::Error>(ticket),
    ensures
        ({
            let at = RedeemView { prefix: stage.prefix, token: stage.token };
            let (staged, token) = run_staging(db, StageState::WriteData(stage));
            let (rest, first) = run_redeeming(staged, RedeemState::ReadMeta(at), reading);
            let (_, second) = run_redeeming(rest, RedeemState::ReadMeta(at), reading);
            &&& token == Ok::<Seq<char>, AppError>(stage.token)
            &&& well_formed_token(stage.token)
            &&& download_answer(first) == file_reply(
                ticket.filename@,
                ticket.mime_type@,
                stage.data,
            )
            &&& download_answer(first).status == 200
            &&& download_answer(first).body == BodyView::Bytes(stage.data)
            &&& download_answer(second) == unknown_link()
            &&& download_answer(second).status == 404
            &&& download_answer(second).body == BodyView::Text(
                "Unknown or expired download link"@,
            )
        }),
{
    let at = RedeemView { prefix: stage.prefix, token: stage.token };
    issued_tokens_are_well_formed(stage.token);
    staging_writes_two_keys(db, stage);
    staged_attachment_is_redeemed(db, stage, ticket, reading);
    let (staged, _) = run_staging(db, StageState::WriteData(stage));
    second_redemption_finds_nothing(staged, at, reading);
}

/// The answer to a download whose redemption has ended.
pub open spec fn answer_of(task: Task) -> Option<ReplyView> {
    match task {
        Task::Redeem(RedeemState::Done(redeemed)) => Some(download_answer(redeemed)),
        _ => None,
    }
}

/// A race for a link serves the file once: where one redemption of its token has
/// won and all others have found nothing, one request is answered with the file
/// and every other one as an unknown link.
pub proof fn race_for_a_link_serves_once(
    at: RedeemView,
    ticket: DownloadTicket,
    data: Seq<u8>,
    tasks: Seq<Task>,
    ended: Seq<Task>,
)
    requires
        one_winner(at, ticket, data, tasks, ended),
    ensures
        exists|winner: int|
            0 <= winner < tasks.len() && tasks[winner] == redemption_of(at) && answer_of(
                #[trigger] ended[winner],
            ) == Some(file_reply(ticket.filename@, ticket.mime_type@, data)) && answer_of(
                ended[winner],
            )->0.status == 200 && answer_of(ended[winner])->0.body == BodyView::Bytes(data)
                && forall|i: int|
                0 <= i < tasks.len() && tasks[i] == redemption_of(at) && i != winner ==> answer_of(
                    #[trigger] ended[i],
                ) == Some(unknown_link()) && answer_of(ended[i])->0.status == 404,
{
    let winner = choose|winner: int|
        0 <= winner < tasks.len() && tasks[winner] == redemption_of(at) && #[trigger] ended[winner]
            == served(ticket, data) && forall|i: int|
            0 <= i < tasks.len() && tasks[i] == redemption_of(at) && i != winner
                ==> #[trigger] ended[i] == found_nothing();
    assert(answer_of(ended[winner]) == Some(
        file_reply(ticket.filename@, ticket.mime_type@, data),
    ));
}

/// Whatever a mail calls its attachment and its type, the headers of a download
/// are visible ASCII: nothing in them can end the header block early.
pub proof fn download_headers_are_visible_ascii(redeemed: Redeemed)
    ensures
        forall|h: int, i: int|
            0 <= h < download_answer(redeemed).headers.len() && 0 <= i < download_answer(
                redeemed,
            ).headers[h].1.len() ==> ' ' <= #[trigger] download_answer(redeemed).headers[h].1[i]
                <= '~',
{
    reveal_strlit("application/octet-stream");
    reveal_strlit("no-store, max-age=0");
    reveal_strlit("nosniff");
    if let Ok(Some((ticket, data))) = redeemed {
        header_is_visible_ascii(ticket.filename@);
        let mime = ticket.mime_type@;
        assert forall|i: int| 0 <= i < served_mime(mime).len() implies ' ' <= #[trigger] served_mime(
            mime,
        )[i] <= '~' by {
            if safe_mime(mime) {
                assert(!control(mime[i]));
            }
        }
    }
}

/// A redeemed file is served whole: status 200, every byte of it and no other,
/// and the four headers that go with it.
pub proof fn files_are_served_whole(
    ticket: DownloadTicket,
    data: Vec<u8>,
    mime_type: &str,
    mime: String,
    filename: &str,
    disposition: String,
    reply: Reply,
)
    requires
        mime_type@ == ticket.mime_type@,
        call_ensures(served_mime_type, (mime_type,), mime),
        filename@ == ticket.filename@,
        call_ensures(build_content_disposition, (filename,), disposition),
        call_ensures(
            download_reply,
            (Ok::<Option<(DownloadTicket, Vec<u8>)>, AppError>(Some((ticket, data))),),
            reply,
        ),
    ensures
        reply.status == 200,
        reply.body is Bytes && reply.body->Bytes_0@ == data@,
        reply.headers@.len() == 4,
        reply.headers@[0].0@ == "content-type"@ && reply.headers@[0].1@ == mime@,
        reply.headers@[1].0@ == "content-disposition"@ && reply.headers@[1].1@ == disposition@,
        reply.headers@[2].0@ == "cache-control"@ && reply.headers@[2].1@
            == "no-store, max-age=0"@,
        reply.headers@[3].0@ == "x-content-type-options"@ && reply.headers@[3].1@ == "nosniff"@,
{
    reply_content_is_in_its_fields(reply);
    assert(reply@.headers[0] == ("content-type"@, mime@));
    assert(reply@.headers[1] == ("content-disposition"@, disposition@));
    assert(reply@.headers[2] == ("cache-control"@, "no-store, max-age=0"@));
    assert(reply@.headers[3] == ("x-content-type-options"@, "nosniff"@));
}

/// A file that is served has the very bytes that were redeemed.
pub proof fn served_bytes_are_the_redeemed_ones(
    ticket: DownloadTicket,
    data: Vec<u8>,
    reply: Reply,
)
    requires
        call_ensures(
            download_reply,
            (Ok::<Option<(DownloadTicket, Vec<u8>)>, AppError>(Some((ticket, data))),),
            reply,
        ),
    ensures
        reply.status == 200,
        reply.body is Bytes && reply.body->Bytes_0@ == data@,
{
    reply_content_is_in_its_fields(reply);
}

/// What cannot be served: an unknown link is a 404, a failed lookup a 500 that
/// does not tell why.
pub proof fn other_outcomes_are_answered_in_words(
    redeemed: Result<Option<(DownloadTicket, Vec<u8>)>, AppError>,
    reply: Reply,
)
    requires
        call_ensures(download_reply, (redeemed,), reply),
        !(redeemed matches Ok(Some(_))),
    ensures
        reply.headers@.len() == 0,
        reply.body is Text,
        redeemed is Ok ==> reply.status == 404 && reply.body->Text_0@
            == "Unknown or expired download link"@,
        redeemed is Err ==> reply.status == 500 && reply.body->Text_0@
            == "Failed to load download"@,
{
    reply_content_is_in_its_fields(reply);
}

/// A token is looked up exactly when it is one to sixty-four letters, digits,
/// hyphens and underscores; the lookup is for that very token, under the prefix
/// of the store. Any other is answered at once, as an unknown link.
pub proof fn well_formed_tokens_are_looked_up(
    sessions: &SessionStore,
    token: &str,
    step: DownloadStep,
    command: GetDelCommand,
)
    requires
        call_ensures(download_handler, (sessions, token), step),
        step matches DownloadStep::Redeem(first) ==> call_ensures(
            ReadMeta::command,
            (&first,),
            command,
        ),
    ensures
        step is Redeem <==> 1 <= token@.len() <= 64 && forall|i: int|
            0 <= i < token@.len() ==> {
                let u = #[trigger] token@[i] as int;
                48 <= u <= 57 || 65 <= u <= 90 || 97 <= u <= 122 || u == 45 || u == 95
            },
        match step {
            DownloadStep::Redeem(_) => command.name@ == "GETDEL"@ && command.key@
                == sessions.prefix() + ("download:meta:"@ + token@),
            DownloadStep::Answer(reply) => {
                &&& reply.status == 404
                &&& reply.headers@.len() == 0
                &&& reply.body is Text && reply.body->Text_0@
                    == "Unknown or expired download link"@
            },
        },
{
    if let DownloadStep::Answer(reply) = step {
        reply_content_is_in_its_fields(reply);
        if forall|i: int|
            0 <= i < token@.len() ==> {
                let u = #[trigger] token@[i] as int;
                48 <= u <= 57 || 65 <= u <= 90 || 97 <= u <= 122 || u == 45 || u == 95
            } {
            assert forall|i: int| 0 <= i < token@.len() implies token_char(
                #[trigger] token@[i],
            ) by {
            }
        }
    } else {
        assert forall|i: int| 0 <= i < token@.len() implies {
            let u = #[trigger] token@[i] as int;
            48 <= u <= 57 || 65 <= u <= 90 || 97 <= u <= 122 || u == 45 || u == 95
        } by {
            assert(token_char(token@[i]));
        }
    }
}

/// The check of a token and the endpoint agree on which tokens are well formed.
pub proof fn token_check_agrees_with_the_endpoint(
    sessions: &SessionStore,
    token: &str,
    step: DownloadStep,
    told: bool,
)
    requires
        call_ensures(download_handler, (sessions, token), step),
        call_ensures(is_well_formed_token, (token,), told),
    ensures
        told <==> step is Redeem,
{
}

/// A MIME type is echoed, all of it, where it is printable ASCII without quotes
/// and commas, and replaced otherwise.
pub proof fn harmless_mime_types_are_echoed(mime_type: &str, mime: String)
    requires
        call_ensures(served_mime_type, (mime_type,), mime),
    ensures
        mime@ == if forall|i: int|
            0 <= i < mime_type@.len() ==> {
                let u = #[trigger] mime_type@[i] as int;
                0x20 <= u <= 0x7e && u != 0x22 && u != 0x2c
            } {
            mime_type@
        } else {
            "application/octet-stream"@
        },
{
    if safe_mime(mime_type@) {
        assert forall|i: int| 0 <= i < mime_type@.len() implies {
            let u = #[trigger] mime_type@[i] as int;
            0x20 <= u <= 0x7e && u != 0x22 && u != 0x2c
        } by {
            assert(!control(mime_type@[i]));
        }
    } else if forall|i: int|
        0 <= i < mime_type@.len() ==> {
            let u = #[trigger] mime_type@[i] as int;
            0x20 <= u <= 0x7e && u != 0x22 && u != 0x2c
        } {
        assert forall|i: int| 0 <= i < mime_type@.len() implies {
            let c = #[trigger] mime_type@[i];
            c <= '\u{7f}' && !control(c) && c != '"' && c != ','
        } by {
        }
        assert(safe_mime(mime_type@));
    }
}

/// A link that was staged while anything else went on, and that any number of
/// requests then race for, serves the staged bytes, all of them, to exactly one
/// request; every other one is told that the link is unknown.
pub proof fn race_for_a_staged_link_serves_once(
    db: Db,
    stage: StageView,
    reading: Reading,
    ticket: DownloadTicket,
    stagers: Seq<Task>,
    own: int,
    before: Seq<int>,
    tasks: Seq<Task>,
    schedule: Seq<int>,
)
    requires
        (reading.decode)(stage.meta) == Ok::<DownloadTicket, serde_json::Error>(ticket),
        staging_begins(stage, stagers, own),
        run_schedule(db, stagers, before, reading).1[own] matches Task::Stage(StageState::Done(_)),
        race_begins(staged_at(stage), tasks),
        tasks.contains(redemption_of(staged_at(stage))),
        race_is_over(
            staged_at(stage),
            tasks,
            run_schedule(
                run_schedule(db, stagers, before, reading).0,
                tasks,
                schedule,
                reading,
            ).1,
        ),
    ensures
        ({
            let (staged, _) = run_schedule(db, stagers, before, reading);
            let (_, ended) = run_schedule(staged, tasks, schedule, reading);
            exists|winner: int|
                0 <= winner < tasks.len() && tasks[winner] == redemption_of(staged_at(stage))
                    && answer_of(#[trigger] ended[winner]) is Some && answer_of(
                    ended[winner],
                )->0.status == 200 && answer_of(ended[winner])->0.body == BodyView::Bytes(
                    stage.data,
                ) && forall|i: int|
                    0 <= i < tasks.len() && tasks[i] == redemption_of(staged_at(stage)) && i
                        != winner ==> answer_of(#[trigger] ended[i]) is Some && answer_of(
                        ended[i],
                    )->0.status == 404 && answer_of(ended[i])->0.body == BodyView::Text(
                        "Unknown or expired download link"@,
                    )
        }),
{
    staged_attachment_goes_to_one_request(
        db,
        stage,
        reading,
        ticket,
        stagers,
        own,
        before,
        tasks,
        schedule,
    );
    let (staged, _) = run_schedule(db, stagers, before, reading);
    let (_, ended) = run_schedule(staged, tasks, schedule, reading);
    race_for_a_link_serves_once(staged_at(stage), ticket, stage.data, tasks, ended);
}

} // verus!
