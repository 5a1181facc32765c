//! Any number of stagings and redemptions at once: their commands reach Redis
//! one by one, in an order that nobody controls.

use vstd::prelude::*;
use vstd::utf8::{
    decode_utf8, encode_utf8, encode_utf8_decode_utf8, encode_utf8_valid_utf8, valid_utf8,
};

use crate::error::AppError;
use crate::session::DownloadTicket;
use crate::ticket::{data_key, meta_key, RedeemState, RedeemView, StageState, StageView};
use crate::ticket_laws::{
    redeem_step, stage_step, ticket_keys_are_distinct, Db, Reading,
};

verus! {

/// One staging or redemption among others.
pub enum Task {
    Stage(StageState),
    Redeem(RedeemState),
}

/// One step of a task.
pub open spec fn task_step(db: Db, task: Task, reading: Reading) -> (Db, Task) {
    match task {
        Task::Stage(state) => {
            let (after, next) = stage_step(db, state);
            (after, Task::Stage(next))
        },
        Task::Redeem(state) => {
            let (after, next) = redeem_step(db, state, reading);
            (after, Task::Redeem(next))
        },
    }
}

/// Where tasks stand, and what is stored, once each index of the schedule has
/// let the task of that index take one step.
pub open spec fn run_schedule(
    db: Db,
    tasks: Seq<Task>,
    schedule: Seq<int>,
    reading: Reading,
) -> (Db, Seq<Task>)
    decreases schedule.len(),
{
    if schedule.len() == 0 {
        (db, tasks)
    } else {
        let (before, standing) = run_schedule(db, tasks, schedule.drop_last(), reading);
        let i = schedule.last();
        if 0 <= i < standing.len() {
            let (after, next) = task_step(before, standing[i], reading);
            (after, standing.update(i, next))
        } else {
            (before, standing)
        }
    }
}

/// A task that has ended, or is about another token of the same store.
pub open spec fn concerns_other(task: Task, at: RedeemView) -> bool {
    match task {
        Task::Stage(StageState::WriteData(stage)) => stage.prefix == at.prefix && stage.token
            != at.token,
        Task::Stage(StageState::WriteMeta(stage)) => stage.prefix == at.prefix && stage.token
            != at.token,
        Task::Stage(StageState::Done(_)) => true,
        Task::Redeem(RedeemState::ReadMeta(other)) => other.prefix == at.prefix && other.token
            != at.token,
        Task::Redeem(RedeemState::DecodeMeta(other, _)) => other.prefix == at.prefix
            && other.token != at.token,
        Task::Redeem(RedeemState::ReadData(other, _)) => other.prefix == at.prefix && other.token
            != at.token,
        Task::Redeem(RedeemState::Done(_)) => true,
    }
}

/// A redemption of the token that has not begun.
pub open spec fn redemption_of(at: RedeemView) -> Task {
    Task::Redeem(RedeemState::ReadMeta(at))
}

/// A redemption that ended with the ticket and its bytes.
pub open spec fn served(ticket: DownloadTicket, data: Seq<u8>) -> Task {
    Task::Redeem(RedeemState::Done(Ok(Some((ticket, data)))))
}

/// A redemption that found nothing.
pub open spec fn found_nothing() -> Task {
    Task::Redeem(RedeemState::Done(Ok(None)))
}

/// The tasks that a race is between: redemptions of the token, not yet begun, and
/// any stagings and redemptions of other tokens, wherever they stand.
pub open spec fn race_begins(at: RedeemView, tasks: Seq<Task>) -> bool {
    forall|i: int|
        0 <= i < tasks.len() ==> #[trigger] tasks[i] == redemption_of(at) || concerns_other(
            tasks[i],
            at,
        )
}

/// True when every task that set out to redeem the token has ended.
pub open spec fn race_is_over(at: RedeemView, tasks: Seq<Task>, now: Seq<Task>) -> bool {
    forall|i: int|
        0 <= i < tasks.len() && tasks[i] == redemption_of(at) ==> (#[trigger] now[i] matches
            Task::Redeem(RedeemState::Done(_)))
}

/// True when both maps hold the same under a key.
pub open spec fn agree_on(a: Db, b: Db, key: Seq<char>) -> bool {
    a.contains_key(key) == b.contains_key(key) && a[key] == b[key]
}

/// True when both keys of the token are live, and the metadata is text that
/// decodes to the ticket.
pub open spec fn holds_ticket(
    db: Db,
    at: RedeemView,
    reading: Reading,
    ticket: DownloadTicket,
) -> bool {
    let stored = db[meta_key(at.prefix, at.token)];
    &&& db.contains_key(meta_key(at.prefix, at.token))
    &&& db.contains_key(data_key(at.prefix, at.token))
    &&& valid_utf8(stored)
    &&& (reading.decode)(decode_utf8(stored)) == Ok::<DownloadTicket, serde_json::Error>(ticket)
}

/// A step of a task on another token leaves the keys of this one alone.
proof fn lemma_step_elsewhere(db: Db, task: Task, reading: Reading, at: RedeemView)
    requires
        concerns_other(task, at),
    ensures
        ({
            let (after, next) = task_step(db, task, reading);
            &&& concerns_other(next, at)
            &&& agree_on(after, db, meta_key(at.prefix, at.token))
            &&& agree_on(after, db, data_key(at.prefix, at.token))
        }),
{
    let other = match task {
        Task::Stage(StageState::WriteData(stage)) => stage.token,
        Task::Stage(StageState::WriteMeta(stage)) => stage.token,
        Task::Redeem(RedeemState::ReadMeta(at)) => at.token,
        Task::Redeem(RedeemState::DecodeMeta(at, _)) => at.token,
        Task::Redeem(RedeemState::ReadData(at, _)) => at.token,
        _ => at.token,
    };
    ticket_keys_are_distinct(at.prefix, at.token, other);
    ticket_keys_are_distinct(at.prefix, other, at.token);
}

/// No metadata was taken yet: every redemption of the token is still to begin.
spec fn undecided(start: Db, at: RedeemView, tasks: Seq<Task>, db: Db, now: Seq<Task>) -> bool {
    &&& agree_on(db, start, meta_key(at.prefix, at.token))
    &&& agree_on(db, start, data_key(at.prefix, at.token))
    &&& forall|i: int|
        0 <= i < tasks.len() && tasks[i] == redemption_of(at) ==> #[trigger] now[i] == tasks[i]
}

/// The redemption with the given index took the metadata: it is on its way to
/// the bytes or has them, and the others can only find nothing.
spec fn decided(
    start: Db,
    at: RedeemView,
    ticket: DownloadTicket,
    tasks: Seq<Task>,
    db: Db,
    now: Seq<Task>,
    winner: int,
) -> bool {
    let meta = meta_key(at.prefix, at.token);
    let data = data_key(at.prefix, at.token);
    &&& 0 <= winner < tasks.len() && tasks[winner] == redemption_of(at)
    &&& !db.contains_key(meta)
    &&& match now[winner] {
        Task::Redeem(RedeemState::DecodeMeta(place, text)) => place == at && text == decode_utf8(
            start[meta],
        ) && agree_on(db, start, data),
        Task::Redeem(RedeemState::ReadData(place, decoded)) => place == at && decoded == ticket
            && agree_on(db, start, data),
        _ => now[winner] == served(ticket, start[data]) && !db.contains_key(data),
    }
    &&& forall|i: int|
        0 <= i < tasks.len() && tasks[i] == redemption_of(at) && i != winner ==> #[trigger] now[i]
            == redemption_of(at) || now[i] == found_nothing()
}

/// What holds of a race at every point of every schedule.
spec fn race(
    start: Db,
    at: RedeemView,
    ticket: DownloadTicket,
    tasks: Seq<Task>,
    db: Db,
    now: Seq<Task>,
) -> bool {
    &&& now.len() == tasks.len()
    &&& forall|i: int|
        0 <= i < tasks.len() && tasks[i] != redemption_of(at) ==> concerns_other(
            #[trigger] now[i],
            at,
        )
    &&& undecided(start, at, tasks, db, now) || exists|winner: int|
        #[trigger] decided(start, at, ticket, tasks, db, now, winner)
}

proof fn lemma_race_step(
    start: Db,
    at: RedeemView,
    reading: Reading,
    ticket: DownloadTicket,
    tasks: Seq<Task>,
    db: Db,
    now: Seq<Task>,
    i: int,
)
    requires
        holds_ticket(start, at, reading, ticket),
        race(start, at, ticket, tasks, db, now),
        0 <= i < now.len(),
    ensures
        ({
            let (after, next) = task_step(db, now[i], reading);
            race(start, at, ticket, tasks, after, now.update(i, next))
        }),
{
    let (after, next) = task_step(db, now[i], reading);
    let then = now.update(i, next);
    ticket_keys_are_distinct(at.prefix, at.token, at.token);
    if tasks[i] != redemption_of(at) {
        lemma_step_elsewhere(db, now[i], reading, at);
        if undecided(start, at, tasks, db, now) {
            assert(undecided(start, at, tasks, after, then));
        } else {
            let winner = choose|winner: int|
                #[trigger] decided(start, at, ticket, tasks, db, now, winner);
            assert(decided(start, at, ticket, tasks, after, then, winner));
        }
    } else if undecided(start, at, tasks, db, now) {
        assert(now[i] == redemption_of(at));
        assert(decided(start, at, ticket, tasks, after, then, i));
    } else {
        let winner = choose|winner: int|
            #[trigger] decided(start, at, ticket, tasks, db, now, winner);
        assert(decided(start, at, ticket, tasks, after, then, winner));
    }
}

proof fn lemma_race(
    db: Db,
    at: RedeemView,
    reading: Reading,
    ticket: DownloadTicket,
    tasks: Seq<Task>,
    schedule: Seq<int>,
)
    requires
        holds_ticket(db, at, reading, ticket),
        race_begins(at, tasks),
    ensures
        ({
            let (after, now) = run_schedule(db, tasks, schedule, reading);
            race(db, at, ticket, tasks, after, now)
        }),
    decreases schedule.len(),
{
    if schedule.len() == 0 {
        assert(undecided(db, at, tasks, db, tasks));
    } else {
        lemma_race(db, at, reading, ticket, tasks, schedule.drop_last());
        let (before, now) = run_schedule(db, tasks, schedule.drop_last(), reading);
        let i = schedule.last();
        if 0 <= i < now.len() {
            lemma_race_step(db, at, reading, ticket, tasks, before, now, i);
        }
    }
}

/// True when, of the tasks that set out to redeem the token, exactly one has
/// ended with the ticket and all of its bytes, and every other one with nothing.
pub open spec fn one_winner(
    at: RedeemView,
    ticket: DownloadTicket,
    data: Seq<u8>,
    tasks: Seq<Task>,
    ended: Seq<Task>,
) -> bool {
    exists|winner: int|
        0 <= winner < tasks.len() && tasks[winner] == redemption_of(at) && #[trigger] ended[winner]
            == served(ticket, data) && forall|i: int|
            0 <= i < tasks.len() && tasks[i] == redemption_of(at) && i != winner
                ==> #[trigger] ended[i] == found_nothing()
}

/// However many requests race for a token, whatever else is staged and redeemed
/// under other tokens meanwhile, and in whatever order the commands reach Redis:
/// once all of those requests have ended, exactly one of them has the ticket and
/// all of its bytes, every other one has nothing, and nothing of the ticket is
/// left.
pub proof fn one_of_racing_requests_wins(
    db: Db,
    at: RedeemView,
    reading: Reading,
    ticket: DownloadTicket,
    tasks: Seq<Task>,
    schedule: Seq<int>,
)
    requires
        holds_ticket(db, at, reading, ticket),
        race_begins(at, tasks),
        tasks.contains(redemption_of(at)),
        race_is_over(at, tasks, run_schedule(db, tasks, schedule, reading).1),
    ensures
        ({
            let (after, ended) = run_schedule(db, tasks, schedule, reading);
            &&& one_winner(at, ticket, db[data_key(at.prefix, at.token)], tasks, ended)
            &&& !after.contains_key(meta_key(at.prefix, at.token))
            &&& !after.contains_key(data_key(at.prefix, at.token))
        }),
{
    let (after, ended) = run_schedule(db, tasks, schedule, reading);
    lemma_race(db, at, reading, ticket, tasks, schedule);
    let some = tasks.index_of(redemption_of(at));
    assert(ended[some] is Redeem);
    let winner = choose|winner: int|
        #[trigger] decided(db, at, ticket, tasks, after, ended, winner);
    assert(ended[winner] == served(ticket, db[data_key(at.prefix, at.token)]));
}

/// The token that is being staged, as its redemptions name it.
pub open spec fn staged_at(stage: StageView) -> RedeemView {
    RedeemView { prefix: stage.prefix, token: stage.token }
}

/// True when, but for the task that stages, all are about other tokens.
pub open spec fn staging_begins(stage: StageView, tasks: Seq<Task>, own: int) -> bool {
    &&& 0 <= own < tasks.len()
    &&& tasks[own] == Task::Stage(StageState::WriteData(stage))
    &&& forall|i: int|
        0 <= i < tasks.len() && i != own ==> concerns_other(#[trigger] tasks[i], staged_at(stage))
}

/// What holds of a staging at every point of every schedule.
spec fn staging(stage: StageView, db: Db, now: Seq<Task>, own: int) -> bool {
    let meta = meta_key(stage.prefix, stage.token);
    let data = data_key(stage.prefix, stage.token);
    &&& 0 <= own < now.len()
    &&& forall|i: int|
        0 <= i < now.len() && i != own ==> concerns_other(#[trigger] now[i], staged_at(stage))
    &&& match now[own] {
        Task::Stage(StageState::WriteData(due)) => due == stage,
        Task::Stage(StageState::WriteMeta(due)) => due == stage && db.contains_key(data) && db[data]
            == stage.data,
        Task::Stage(StageState::Done(outcome)) => {
            &&& outcome == Ok::<Seq<char>, AppError>(stage.token)
            &&& db.contains_key(data) && db[data] == stage.data
            &&& db.contains_key(meta) && db[meta] == encode_utf8(stage.meta)
        },
        _ => false,
    }
}

proof fn lemma_staging(
    db: Db,
    stage: StageView,
    reading: Reading,
    tasks: Seq<Task>,
    own: int,
    schedule: Seq<int>,
)
    requires
        staging_begins(stage, tasks, own),
    ensures
        ({
            let (after, now) = run_schedule(db, tasks, schedule, reading);
            staging(stage, after, now, own)
        }),
    decreases schedule.len(),
{
    if schedule.len() > 0 {
        lemma_staging(db, stage, reading, tasks, own, schedule.drop_last());
        let (before, now) = run_schedule(db, tasks, schedule.drop_last(), reading);
        let i = schedule.last();
        ticket_keys_are_distinct(stage.prefix, stage.token, stage.token);
        if 0 <= i < now.len() && i != own {
            lemma_step_elsewhere(before, now[i], reading, staged_at(stage));
        }
    }
}

/// Whatever is staged and redeemed under other tokens while an attachment is
/// staged: once that has ended, it has ended with the token, and the store holds
/// the bytes and the metadata as they were given.
pub proof fn staging_is_not_disturbed(
    db: Db,
    stage: StageView,
    reading: Reading,
    tasks: Seq<Task>,
    own: int,
    schedule: Seq<int>,
)
    requires
        staging_begins(stage, tasks, own),
        run_schedule(db, tasks, schedule, reading).1[own] matches Task::Stage(StageState::Done(_)),
    ensures
        ({
            let (after, now) = run_schedule(db, tasks, schedule, reading);
            let meta = meta_key(stage.prefix, stage.token);
            let data = data_key(stage.prefix, stage.token);
            &&& now[own] == Task::Stage(StageState::Done(Ok(stage.token)))
            &&& after.contains_key(data) && after[data] == stage.data
            &&& after.contains_key(meta) && after[meta] == encode_utf8(stage.meta)
        }),
{
    lemma_staging(db, stage, reading, tasks, own, schedule);
}

/// What was staged is what is redeemed, by exactly one request: an attachment is
/// staged while anything else goes on, and then any number of requests race for
/// it while anything else goes on. One of them has the ticket and all of the
/// bytes, and every other one nothing.
pub proof fn staged_attachment_goes_to_one_request(
    db: Db,
    stage: StageView,
    reading: Reading,
    ticket: DownloadTicket,
    stagers: Seq<Task>,
    own: int,
    before: Seq<int>,
    tasks: Seq<Task>,
    schedule: Seq<int>,
)
    requires
        (reading.decode)(stage.meta) == Ok::<DownloadTicket, serde_json::Error>(ticket),
        staging_begins(stage, stagers, own),
        run_schedule(db, stagers, before, reading).1[own] matches Task::Stage(StageState::Done(_)),
        race_begins(staged_at(stage), tasks),
        tasks.contains(redemption_of(staged_at(stage))),
        race_is_over(
            staged_at(stage),
            tasks,
            run_schedule(
                run_schedule(db, stagers, before, reading).0,
                tasks,
                schedule,
                reading,
            ).1,
        ),
    ensures
        ({
            let (staged, stood) = run_schedule(db, stagers, before, reading);
            let (after, ended) = run_schedule(staged, tasks, schedule, reading);
            &&& stood[own] == Task::Stage(StageState::Done(Ok(stage.token)))
            &&& one_winner(staged_at(stage), ticket, stage.data, tasks, ended)
            &&& !after.contains_key(meta_key(stage.prefix, stage.token))
            &&& !after.contains_key(data_key(stage.prefix, stage.token))
        }),
{
    staging_is_not_disturbed(db, stage, reading, stagers, own, before);
    encode_utf8_valid_utf8(stage.meta);
    encode_utf8_decode_utf8(stage.meta);
    let (staged, _) = run_schedule(db, stagers, before, reading);
    one_of_racing_requests_wins(staged, staged_at(stage), reading, ticket, tasks, schedule);
}

} // verus!
