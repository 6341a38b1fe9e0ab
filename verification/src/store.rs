//! The `entries` table as the handlers see it through their queries, and the
//! laws that hold of the server when the database answers each query as its
//! SQL says.
//!
//! The table is a map from entry id (the primary key) to the entry. Each
//! query is one SQL statement, so the database runs it as one atomic step,
//! however the requests of several clients interleave; a query that fails
//! changes nothing. Dates are taken in UTC, the database's time zone.

use vstd::prelude::*;
use crate::api::EntryView;
use crate::cli::{refusal, CommandView};
use crate::routes::{
    delete_entry_step, list_entries_step, start_timer_step, stop_timer_step, timer_status_step,
    update_entry_step, BodyView, DbCallView, DbReplyView, ResponseView, RouteStepView,
    BAD_REQUEST, CONFLICT, CREATED, INTERNAL_SERVER_ERROR, NOT_FOUND, NO_CONTENT, OK,
};
use crate::time::{earlier, Timestamp};

verus! {

/// Every row is stored under its own id.
pub open spec fn well_keyed(table: Map<u128, EntryView>) -> bool {
    forall|k: u128| #[trigger] table.dom().contains(k) ==> table[k].id == k
}

/// Some timer is running.
pub open spec fn has_running(table: Map<u128, EntryView>) -> bool {
    exists|k: u128| #[trigger] table.dom().contains(k) && table[k].is_running()
}

/// At most one timer is running.
pub open spec fn at_most_one_running(table: Map<u128, EntryView>) -> bool {
    forall|a: u128, b: u128|
        #[trigger] table.dom().contains(a) && #[trigger] table.dom().contains(b)
            && table[a].is_running() && table[b].is_running() ==> a == b
}

/// Every running entry stopped at `at`, with `description`.
pub open spec fn stop_all(
    table: Map<u128, EntryView>,
    description: Seq<char>,
    at: Timestamp,
) -> Map<u128, EntryView> {
    Map::new(
        |k: u128| table.dom().contains(k),
        |k: u128|
            if table[k].is_running() {
                EntryView { description: Some(description), stopped_at: Some(at), ..table[k] }
            } else {
                table[k]
            },
    )
}

/// The entry with `id`, if there is one, given `description`.
pub open spec fn describe(
    table: Map<u128, EntryView>,
    id: u128,
    description: Seq<char>,
) -> Map<u128, EntryView> {
    if table.dom().contains(id) {
        table.insert(id, EntryView { description: Some(description), ..table[id] })
    } else {
        table
    }
}

/// A failed reply to `call`.
pub open spec fn failed(call: DbCallView, reply: DbReplyView) -> bool {
    match (call, reply) {
        (DbCallView::GetRunning, DbReplyView::Running(Err(_))) => true,
        (DbCallView::StartEntry, DbReplyView::Started(Err(_))) => true,
        (DbCallView::StopEntry(_), DbReplyView::Stopped(Err(_))) => true,
        (DbCallView::ListEntriesToday, DbReplyView::Listed(Err(_))) => true,
        (DbCallView::DeleteEntry(_), DbReplyView::Deleted(Err(_))) => true,
        (DbCallView::UpdateEntry(_, _), DbReplyView::Updated(Err(_))) => true,
        _ => false,
    }
}

/// The calendar day, counted from 1970-01-01, that a timestamp falls on.
pub open spec fn day_of(t: Timestamp) -> int {
    t.seconds as int / 86_400
}

/// `rows` are the entries of `table` started on one day (the database's
/// today), each once, latest first.
pub open spec fn lists_one_day(table: Map<u128, EntryView>, rows: Seq<EntryView>) -> bool {
    &&& forall|i: int|
        0 <= i < rows.len() ==> table.dom().contains(#[trigger] rows[i].id) && table[rows[i].id] == rows[i]
    &&& forall|i: int, j: int| 0 <= i < j < rows.len() ==> #[trigger] rows[i].id != #[trigger] rows[j].id
    &&& forall|i: int, j: int|
        0 <= i < j < rows.len() ==> !earlier(#[trigger] rows[i].started_at, #[trigger] rows[j].started_at)
    &&& exists|day: int| #[trigger] all_of_day(table, rows, day)
}

/// `rows` started on `day`, and every entry of `table` started on `day` is
/// among them.
pub open spec fn all_of_day(table: Map<u128, EntryView>, rows: Seq<EntryView>, day: int) -> bool {
    &&& forall|i: int| 0 <= i < rows.len() ==> day_of(#[trigger] rows[i].started_at) == day
    &&& forall|k: u128|
        #[trigger] table.dom().contains(k) && day_of(table[k].started_at) == day
            ==> exists|i: int| 0 <= i < rows.len() && #[trigger] rows[i].id == k
}

/// The database answers `call` on table `before` with `reply`, leaving table
/// `after`, as the query's SQL says:
/// - the running entry is a row without `stopped_at` (any one of them);
/// - starting inserts a row with a fresh id, no description and no
///   `stopped_at` when no row runs, and inserts nothing when one does;
/// - stopping sets `stopped_at` and the description of every running row and
///   returns one of them, or nothing when none runs;
/// - today's entries are the rows started today, latest first;
/// - deleting removes the row with the id and tells whether there was one;
/// - updating sets the description of the row with the id and returns it.
pub open spec fn answers(
    before: Map<u128, EntryView>,
    call: DbCallView,
    reply: DbReplyView,
    after: Map<u128, EntryView>,
) -> bool {
    if failed(call, reply) {
        after == before
    } else {
        match (call, reply) {
            (DbCallView::GetRunning, DbReplyView::Running(Ok(found))) => {
                &&& after == before
                &&& match found {
                    None => !has_running(before),
                    Some(e) => before.dom().contains(e.id) && before[e.id] == e && e.is_running(),
                }
            },
            (DbCallView::StartEntry, DbReplyView::Started(Ok(found))) => match found {
                None => has_running(before) && after == before,
                Some(e) => {
                    &&& !has_running(before)
                    &&& !before.dom().contains(e.id)
                    &&& e.description is None
                    &&& e.is_running()
                    &&& after == before.insert(e.id, e)
                },
            },
            (DbCallView::StopEntry(d), DbReplyView::Stopped(Ok(found))) => match found {
                None => !has_running(before) && after == before,
                Some(e) => {
                    &&& before.dom().contains(e.id)
                    &&& before[e.id].is_running()
                    &&& e.stopped_at is Some
                    &&& after == stop_all(before, d, e.stopped_at->0)
                    &&& e == after[e.id]
                },
            },
            (DbCallView::ListEntriesToday, DbReplyView::Listed(Ok(rows))) => {
                after == before && lists_one_day(before, rows)
            },
            (DbCallView::DeleteEntry(id), DbReplyView::Deleted(Ok(found))) => {
                found == before.dom().contains(id) && after == before.remove(id)
            },
            (DbCallView::UpdateEntry(id, d), DbReplyView::Updated(Ok(found))) => match found {
                None => !before.dom().contains(id) && after == before,
                Some(e) => before.dom().contains(id) && after == describe(before, id, d)
                    && e == after[id],
            },
            _ => false,
        }
    }
}

/// The server's routes, with what each takes from its request.
pub enum Route {
    StartTimer,
    StopTimer(Seq<char>),
    TimerStatus,
    ListEntries,
    DeleteEntry(u128),
    UpdateEntry(u128, Option<Seq<char>>),
}

/// The step of a route's handler, given the last reply.
pub open spec fn route_step(route: Route, reply: Option<DbReplyView>) -> RouteStepView {
    match route {
        Route::StartTimer => start_timer_step(reply),
        Route::StopTimer(d) => stop_timer_step(d, reply),
        Route::TimerStatus => timer_status_step(reply),
        Route::ListEntries => list_entries_step(reply),
        Route::DeleteEntry(id) => delete_entry_step(id, reply),
        Route::UpdateEntry(id, d) => update_entry_step(id, d, reply),
    }
}

/// The step after the first `k` replies.
pub open spec fn step_at(route: Route, replies: Seq<DbReplyView>, k: int) -> RouteStepView {
    route_step(route, if k == 0 { None } else { Some(replies[k - 1]) })
}

/// One complete handling of `route`: the handler's queries are answered one
/// by one by the database, taking the table from `tables[k]` to
/// `tables[k + 1]`, and the handler then answers with `response`.
pub open spec fn is_run(
    route: Route,
    replies: Seq<DbReplyView>,
    tables: Seq<Map<u128, EntryView>>,
    response: ResponseView,
) -> bool {
    &&& tables.len() == replies.len() + 1
    &&& forall|k: int|
        0 <= k < replies.len() ==> match #[trigger] step_at(route, replies, k) {
            RouteStepView::Query(call) => answers(tables[k], call, replies[k], tables[k + 1]),
            RouteStepView::Respond(_) => false,
        }
    &&& step_at(route, replies, replies.len() as int) == RouteStepView::Respond(response)
}

/// Each of the database's answers keeps every row under its own id and at
/// most one timer running.
proof fn lemma_answer_keeps_table(
    before: Map<u128, EntryView>,
    call: DbCallView,
    reply: DbReplyView,
    after: Map<u128, EntryView>,
)
    requires
        well_keyed(before),
        at_most_one_running(before),
        answers(before, call, reply, after),
    ensures
        well_keyed(after),
        at_most_one_running(after),
{
    if failed(call, reply) {
    } else {
        match (call, reply) {
            (DbCallView::StartEntry, DbReplyView::Started(Ok(Some(e)))) => {
                assert forall|a: u128, b: u128|
                    #[trigger] after.dom().contains(a) && #[trigger] after.dom().contains(b)
                        && after[a].is_running() && after[b].is_running() implies a == b by {
                    if a != e.id {
                        assert(before.dom().contains(a) && before[a].is_running());
                    }
                    if b != e.id {
                        assert(before.dom().contains(b) && before[b].is_running());
                    }
                }
            },
            (DbCallView::StopEntry(d), DbReplyView::Stopped(Ok(found))) => {
                lemma_stop_leaves_none_running(before, d, reply, after);
            },
            (DbCallView::DeleteEntry(id), DbReplyView::Deleted(Ok(_))) => {
                assert forall|a: u128, b: u128|
                    #[trigger] after.dom().contains(a) && #[trigger] after.dom().contains(b)
                        && after[a].is_running() && after[b].is_running() implies a == b by {
                    assert(before.dom().contains(a) && before.dom().contains(b));
                }
            },
            (DbCallView::UpdateEntry(id, d), DbReplyView::Updated(Ok(_))) => {
                assert forall|a: u128, b: u128|
                    #[trigger] after.dom().contains(a) && #[trigger] after.dom().contains(b)
                        && after[a].is_running() && after[b].is_running() implies a == b by {
                    assert(before.dom().contains(a) && before[a].is_running());
                    assert(before.dom().contains(b) && before[b].is_running());
                }
            },
            _ => {},
        }
    }
}

/// A stop that does not fail leaves no timer running.
proof fn lemma_stop_leaves_none_running(
    before: Map<u128, EntryView>,
    description: Seq<char>,
    reply: DbReplyView,
    after: Map<u128, EntryView>,
)
    requires
        answers(before, DbCallView::StopEntry(description), reply, after),
        !failed(DbCallView::StopEntry(description), reply),
    ensures
        !has_running(after),
{
    if reply matches DbReplyView::Stopped(Ok(Some(e))) {
        assert forall|k: u128| #[trigger] after.dom().contains(k) implies !after[k].is_running() by {}
    }
}

/// At most one timer runs at a time, whatever the requests and however
/// their queries interleave: a table in which at most one timer runs keeps
/// at most one running through any sequence of the database's answers, from
/// any handlers.
pub proof fn law_interleaved_queries_keep_one_running(
    calls: Seq<DbCallView>,
    replies: Seq<DbReplyView>,
    tables: Seq<Map<u128, EntryView>>,
)
    requires
        calls.len() == replies.len(),
        tables.len() == replies.len() + 1,
        forall|k: int| 0 <= k < replies.len() ==> #[trigger] answers(tables[k], calls[k], replies[k], tables[k + 1]),
        well_keyed(tables[0]),
        at_most_one_running(tables[0]),
    ensures
        forall|k: int| 0 <= k < tables.len() ==> well_keyed(#[trigger] tables[k]) && at_most_one_running(tables[k]),
    decreases replies.len(),
{
    let n = replies.len() as int;
    if n > 0 {
        law_interleaved_queries_keep_one_running(
            calls.drop_last(),
            replies.drop_last(),
            tables.drop_last(),
        );
        assert(well_keyed(tables.drop_last()[n - 1]) && at_most_one_running(tables.drop_last()[n - 1]));
        assert(answers(tables[n - 1], calls[n - 1], replies[n - 1], tables[n]));
        lemma_answer_keeps_table(tables[n - 1], calls[n - 1], replies[n - 1], tables[n]);
        assert forall|k: int| 0 <= k < tables.len() implies well_keyed(#[trigger] tables[k])
            && at_most_one_running(tables[k]) by {
            if k < n {
                assert(tables.drop_last()[k] == tables[k]);
            }
        }
    }
}

/// At most one timer runs at a time: every request, handled against a table
/// in which at most one timer runs, leaves at most one running.
pub proof fn law_at_most_one_running_timer(
    route: Route,
    replies: Seq<DbReplyView>,
    tables: Seq<Map<u128, EntryView>>,
    response: ResponseView,
)
    requires
        is_run(route, replies, tables, response),
        well_keyed(tables[0]),
        at_most_one_running(tables[0]),
    ensures
        well_keyed(tables.last()),
        at_most_one_running(tables.last()),
{
    let calls = Seq::new(replies.len(), |k: int| step_at(route, replies, k)->Query_0);
    assert forall|k: int| 0 <= k < replies.len() implies #[trigger] answers(tables[k], calls[k], replies[k], tables[k + 1]) by {
        assert(step_at(route, replies, k) is Query);
    }
    law_interleaved_queries_keep_one_running(calls, replies, tables);
    assert(well_keyed(tables[tables.len() - 1]));
}

/// The error answer with `status` and `message`.
pub open spec fn error_response(status: u16, message: Seq<char>) -> ResponseView {
    ResponseView { status, body: BodyView::Error(message) }
}

/// A start is one query: its run has exactly one reply, to `StartEntry`,
/// which takes `tables[0]` to `tables[1]`.
proof fn lemma_start_run(
    replies: Seq<DbReplyView>,
    tables: Seq<Map<u128, EntryView>>,
    response: ResponseView,
)
    requires
        is_run(Route::StartTimer, replies, tables, response),
    ensures
        replies.len() == 1,
        replies[0] is Started,
        answers(tables[0], DbCallView::StartEntry, replies[0], tables[1]),
        response == start_timer_step(Some(replies[0]))->Respond_0,
{
    assert(step_at(Route::StartTimer, replies, 0) is Query);
    if replies.len() >= 2 {
        assert(step_at(Route::StartTimer, replies, 1) is Query);
    }
}

/// Starting a timer while one runs is refused with 409 and changes nothing,
/// unless the database fails, which answers 500 and changes nothing.
pub proof fn law_start_refused_while_running(
    replies: Seq<DbReplyView>,
    tables: Seq<Map<u128, EntryView>>,
    response: ResponseView,
)
    requires
        is_run(Route::StartTimer, replies, tables, response),
        has_running(tables[0]),
    ensures
        tables.last() == tables[0],
        !(replies[0] matches DbReplyView::Started(Err(_)))
            ==> response == error_response(CONFLICT, "A timer is already running"@),
        replies[0] matches DbReplyView::Started(Err(m))
            ==> response == error_response(INTERNAL_SERVER_ERROR, m),
{
    lemma_start_run(replies, tables, response);
}

/// Starting a timer while none runs either creates a running entry with no
/// description and answers 201 with it, or, when the database fails,
/// answers 500 and changes nothing.
pub proof fn law_start_creates_running_entry(
    replies: Seq<DbReplyView>,
    tables: Seq<Map<u128, EntryView>>,
    response: ResponseView,
)
    requires
        is_run(Route::StartTimer, replies, tables, response),
        !has_running(tables[0]),
    ensures
        response.status == CREATED ==> {
            &&& response.body is Entry
            &&& response.body->Entry_0.is_running()
            &&& response.body->Entry_0.description is None
            &&& !tables[0].dom().contains(response.body->Entry_0.id)
            &&& tables.last() == tables[0].insert(response.body->Entry_0.id, response.body->Entry_0)
        },
        response.status != CREATED ==> {
            &&& response.status == INTERNAL_SERVER_ERROR
            &&& tables.last() == tables[0]
        },
{
    lemma_start_run(replies, tables, response);
}

/// Of two starts, the second handled after the first, at most one answers
/// 201: once the first has created a running entry, the second is refused,
/// unless its query fails.
pub proof fn law_second_start_refused(
    first_replies: Seq<DbReplyView>,
    first_tables: Seq<Map<u128, EntryView>>,
    first_response: ResponseView,
    second_replies: Seq<DbReplyView>,
    second_tables: Seq<Map<u128, EntryView>>,
    second_response: ResponseView,
)
    requires
        is_run(Route::StartTimer, first_replies, first_tables, first_response),
        is_run(Route::StartTimer, second_replies, second_tables, second_response),
        second_tables[0] == first_tables.last(),
        first_response.status == CREATED,
    ensures
        second_response.status != CREATED,
        !(second_replies[0] matches DbReplyView::Started(Err(_)))
            ==> second_response == error_response(CONFLICT, "A timer is already running"@),
{
    lemma_start_run(first_replies, first_tables, first_response);
    let e = first_replies[0]->Started_0->Ok_0->Some_0;
    assert(second_tables[0].dom().contains(e.id) && second_tables[0][e.id].is_running());
    law_start_refused_while_running(second_replies, second_tables, second_response);
}

/// What a start creates is what the status then reports: after a start
/// answered 201, a status request whose look-up succeeds reports that
/// entry as running.
pub proof fn law_status_reports_started_timer(
    start_replies: Seq<DbReplyView>,
    start_tables: Seq<Map<u128, EntryView>>,
    start_response: ResponseView,
    status_replies: Seq<DbReplyView>,
    status_tables: Seq<Map<u128, EntryView>>,
    status_response: ResponseView,
)
    requires
        is_run(Route::StartTimer, start_replies, start_tables, start_response),
        start_response.status == CREATED,
        is_run(Route::TimerStatus, status_replies, status_tables, status_response),
        status_tables[0] == start_tables.last(),
        !(status_replies[0] matches DbReplyView::Running(Err(_))),
    ensures
        start_response.body is Entry,
        status_response == (ResponseView {
            status: OK,
            body: BodyView::Status(true, Some(start_response.body->Entry_0)),
        }),
{
    lemma_start_run(start_replies, start_tables, start_response);
    let t = start_tables.last();
    let e = start_replies[0]->Started_0->Ok_0->Some_0;
    assert(t.dom().contains(e.id) && t[e.id].is_running());
    assert(step_at(Route::TimerStatus, status_replies, 0) is Query);
    assert(answers(status_tables[0], DbCallView::GetRunning, status_replies[0], status_tables[1]));
    if status_replies.len() >= 2 {
        assert(step_at(Route::TimerStatus, status_replies, 1) is Query);
    }
    match status_replies[0] {
        DbReplyView::Running(Ok(Some(found))) => {
            assert(t.dom().contains(found.id) && t[found.id].is_running());
            if found.id != e.id {
                assert(start_tables[0].dom().contains(found.id) && start_tables[0][found.id].is_running());
            }
        },
        _ => {},
    }
}

/// Stopping the timer, when the database does not fail, stops every running
/// entry; an answer of 200 carries the stopped entry with the request's
/// description, and 404 comes only when no timer ran.
pub proof fn law_stop_ends_running_timer(
    description: Seq<char>,
    replies: Seq<DbReplyView>,
    tables: Seq<Map<u128, EntryView>>,
    response: ResponseView,
)
    requires
        is_run(Route::StopTimer(description), replies, tables, response),
        !(replies[0] matches DbReplyView::Stopped(Err(_))),
    ensures
        !has_running(tables.last()),
        response.status == OK || response.status == NOT_FOUND,
        response.status == OK ==> {
            &&& response.body is Entry
            &&& response.body->Entry_0.description == Some(description)
            &&& !response.body->Entry_0.is_running()
            &&& tables[0].dom().contains(response.body->Entry_0.id)
            &&& tables[0][response.body->Entry_0.id].is_running()
            &&& tables.last().dom().contains(response.body->Entry_0.id)
            &&& tables.last()[response.body->Entry_0.id] == response.body->Entry_0
            &&& response.body->Entry_0 == (EntryView {
                description: Some(description),
                stopped_at: response.body->Entry_0.stopped_at,
                ..tables[0][response.body->Entry_0.id]
            })
        },
        response.status == NOT_FOUND ==> {
            &&& response == error_response(NOT_FOUND, "No running timer"@)
            &&& !has_running(tables[0])
            &&& tables.last() == tables[0]
        },
{
    assert(step_at(Route::StopTimer(description), replies, 0) is Query);
    let call = DbCallView::StopEntry(description);
    assert(answers(tables[0], call, replies[0], tables[1]));
    lemma_stop_leaves_none_running(tables[0], description, replies[0], tables[1]);
    if replies.len() >= 2 {
        assert(step_at(Route::StopTimer(description), replies, 1) is Query);
    }
}

/// A stop after a start stops the started entry: after a start answered 201
/// with an entry, a stop that the database does not fail answers 200 with
/// that entry (same id and start time), now with the stop's description and
/// a stop time.
pub proof fn law_stop_returns_started_entry(
    start_replies: Seq<DbReplyView>,
    start_tables: Seq<Map<u128, EntryView>>,
    start_response: ResponseView,
    description: Seq<char>,
    stop_replies: Seq<DbReplyView>,
    stop_tables: Seq<Map<u128, EntryView>>,
    stop_response: ResponseView,
)
    requires
        is_run(Route::StartTimer, start_replies, start_tables, start_response),
        start_response.status == CREATED,
        is_run(Route::StopTimer(description), stop_replies, stop_tables, stop_response),
        stop_tables[0] == start_tables.last(),
        !(stop_replies[0] matches DbReplyView::Stopped(Err(_))),
    ensures
        start_response.body is Entry,
        stop_response.status == OK,
        stop_response.body is Entry,
        stop_response.body->Entry_0.id == start_response.body->Entry_0.id,
        stop_response.body->Entry_0.started_at == start_response.body->Entry_0.started_at,
        stop_response.body->Entry_0.description == Some(description),
        stop_response.body->Entry_0.stopped_at is Some,
        stop_tables.last()[stop_response.body->Entry_0.id] == stop_response.body->Entry_0,
{
    lemma_start_run(start_replies, start_tables, start_response);
    let t = start_tables.last();
    let e = start_replies[0]->Started_0->Ok_0->Some_0;
    assert(t.dom().contains(e.id) && t[e.id].is_running());
    assert(step_at(Route::StopTimer(description), stop_replies, 0) is Query);
    assert(answers(stop_tables[0], DbCallView::StopEntry(description), stop_replies[0], stop_tables[1]));
    if stop_replies.len() >= 2 {
        assert(step_at(Route::StopTimer(description), stop_replies, 1) is Query);
    }
    match stop_replies[0] {
        DbReplyView::Stopped(Ok(Some(found))) => {
            if found.id != e.id {
                assert(start_tables[0].dom().contains(found.id) && start_tables[0][found.id].is_running());
            }
        },
        DbReplyView::Stopped(Ok(None)) => {
            assert(has_running(t));
        },
        _ => {},
    }
}

/// The status reports the running entry, whatever its description: when
/// an entry runs (and no other), a status request whose look-up succeeds
/// answers 200, running, with that entry as the table holds it.
pub proof fn law_status_reports_running_entry(
    id: u128,
    replies: Seq<DbReplyView>,
    tables: Seq<Map<u128, EntryView>>,
    response: ResponseView,
)
    requires
        is_run(Route::TimerStatus, replies, tables, response),
        at_most_one_running(tables[0]),
        tables[0].dom().contains(id),
        tables[0][id].is_running(),
        !(replies[0] matches DbReplyView::Running(Err(_))),
    ensures
        response == (ResponseView { status: OK, body: BodyView::Status(true, Some(tables[0][id])) }),
        tables.last() == tables[0],
{
    assert(step_at(Route::TimerStatus, replies, 0) is Query);
    assert(answers(tables[0], DbCallView::GetRunning, replies[0], tables[1]));
    if replies.len() >= 2 {
        assert(step_at(Route::TimerStatus, replies, 1) is Query);
    }
    match replies[0] {
        DbReplyView::Running(Ok(Some(found))) => {
            assert(tables[0].dom().contains(found.id) && tables[0][found.id].is_running());
        },
        _ => {},
    }
}

/// The status reports that no timer runs when none does (and its look-up
/// succeeds).
pub proof fn law_status_reports_idle(
    replies: Seq<DbReplyView>,
    tables: Seq<Map<u128, EntryView>>,
    response: ResponseView,
)
    requires
        is_run(Route::TimerStatus, replies, tables, response),
        !has_running(tables[0]),
        !(replies[0] matches DbReplyView::Running(Err(_))),
    ensures
        response == (ResponseView { status: OK, body: BodyView::Status(false, None) }),
        tables.last() == tables[0],
{
    assert(step_at(Route::TimerStatus, replies, 0) is Query);
    assert(answers(tables[0], DbCallView::GetRunning, replies[0], tables[1]));
    if replies.len() >= 2 {
        assert(step_at(Route::TimerStatus, replies, 1) is Query);
    }
}

/// After a start answered 201 and an edit of that entry, the status reports
/// the edited entry as running.
pub proof fn law_status_reports_edited_running_entry(
    start_replies: Seq<DbReplyView>,
    start_tables: Seq<Map<u128, EntryView>>,
    start_response: ResponseView,
    description: Seq<char>,
    edit_replies: Seq<DbReplyView>,
    edit_tables: Seq<Map<u128, EntryView>>,
    edit_response: ResponseView,
    status_replies: Seq<DbReplyView>,
    status_tables: Seq<Map<u128, EntryView>>,
    status_response: ResponseView,
)
    requires
        is_run(Route::StartTimer, start_replies, start_tables, start_response),
        start_response.status == CREATED,
        well_keyed(start_tables[0]),
        at_most_one_running(start_tables[0]),
        is_run(Route::UpdateEntry(start_response.body->Entry_0.id, Some(description)), edit_replies, edit_tables, edit_response),
        edit_tables[0] == start_tables.last(),
        !(edit_replies[0] matches DbReplyView::Updated(Err(_))),
        is_run(Route::TimerStatus, status_replies, status_tables, status_response),
        status_tables[0] == edit_tables.last(),
        !(status_replies[0] matches DbReplyView::Running(Err(_))),
    ensures
        status_response == (ResponseView {
            status: OK,
            body: BodyView::Status(true, Some(EntryView {
                description: Some(description),
                ..start_response.body->Entry_0
            })),
        }),
{
    lemma_start_run(start_replies, start_tables, start_response);
    law_at_most_one_running_timer(Route::StartTimer, start_replies, start_tables, start_response);
    let e = start_response.body->Entry_0;
    let t = start_tables.last();
    assert(t.dom().contains(e.id) && t[e.id] == e);
    law_update_sets_description(e.id, Some(description), edit_replies, edit_tables, edit_response);
    law_at_most_one_running_timer(Route::UpdateEntry(e.id, Some(description)), edit_replies, edit_tables, edit_response);
    let t2 = edit_tables.last();
    assert(t2[e.id] == (EntryView { description: Some(description), ..e }));
    law_status_reports_running_entry(e.id, status_replies, status_tables, status_response);
}

/// Once stopped, no timer runs: after a stop that the database did not fail,
/// a status request whose look-up succeeds reports that none runs.
pub proof fn law_status_after_stop(
    description: Seq<char>,
    stop_replies: Seq<DbReplyView>,
    stop_tables: Seq<Map<u128, EntryView>>,
    stop_response: ResponseView,
    status_replies: Seq<DbReplyView>,
    status_tables: Seq<Map<u128, EntryView>>,
    status_response: ResponseView,
)
    requires
        is_run(Route::StopTimer(description), stop_replies, stop_tables, stop_response),
        !(stop_replies[0] matches DbReplyView::Stopped(Err(_))),
        is_run(Route::TimerStatus, status_replies, status_tables, status_response),
        status_tables[0] == stop_tables.last(),
        !(status_replies[0] matches DbReplyView::Running(Err(_))),
    ensures
        status_response == (ResponseView { status: OK, body: BodyView::Status(false, None) }),
{
    law_stop_ends_running_timer(description, stop_replies, stop_tables, stop_response);
    assert(step_at(Route::TimerStatus, status_replies, 0) is Query);
    assert(answers(status_tables[0], DbCallView::GetRunning, status_replies[0], status_tables[1]));
    if status_replies.len() >= 2 {
        assert(step_at(Route::TimerStatus, status_replies, 1) is Query);
    }
}

/// The entry list shows today's entries: unless the database fails, it
/// answers 200 with the entries started on one day, all of them, each once,
/// latest first, and changes nothing.
pub proof fn law_list_shows_one_day(
    replies: Seq<DbReplyView>,
    tables: Seq<Map<u128, EntryView>>,
    response: ResponseView,
)
    requires
        is_run(Route::ListEntries, replies, tables, response),
        !(replies[0] matches DbReplyView::Listed(Err(_))),
    ensures
        response.status == OK,
        response.body is Entries,
        lists_one_day(tables[0], response.body->Entries_0),
        tables.last() == tables[0],
{
    assert(step_at(Route::ListEntries, replies, 0) is Query);
    assert(answers(tables[0], DbCallView::ListEntriesToday, replies[0], tables[1]));
    if replies.len() >= 2 {
        assert(step_at(Route::ListEntries, replies, 1) is Query);
    }
}

/// Deleting answers 204 exactly when the entry existed and 404 otherwise,
/// and the entry is gone afterwards, unless the database fails.
pub proof fn law_delete_removes_entry(
    id: u128,
    replies: Seq<DbReplyView>,
    tables: Seq<Map<u128, EntryView>>,
    response: ResponseView,
)
    requires
        is_run(Route::DeleteEntry(id), replies, tables, response),
        !(replies[0] matches DbReplyView::Deleted(Err(_))),
    ensures
        tables[0].dom().contains(id) ==> response == (ResponseView { status: NO_CONTENT, body: BodyView::Empty }),
        !tables[0].dom().contains(id) ==> response == error_response(NOT_FOUND, "Entry not found"@),
        tables.last() == tables[0].remove(id),
{
    assert(step_at(Route::DeleteEntry(id), replies, 0) is Query);
    assert(answers(tables[0], DbCallView::DeleteEntry(id), replies[0], tables[1]));
    if replies.len() >= 2 {
        assert(step_at(Route::DeleteEntry(id), replies, 1) is Query);
    }
}

/// Editing sets the description of the entry and nothing else, and answers
/// 200 with it, or 404 when there is no such entry; without a description
/// the request is refused with 400 before any query. All this unless the
/// database fails.
pub proof fn law_update_sets_description(
    id: u128,
    description: Option<Seq<char>>,
    replies: Seq<DbReplyView>,
    tables: Seq<Map<u128, EntryView>>,
    response: ResponseView,
)
    requires
        is_run(Route::UpdateEntry(id, description), replies, tables, response),
        well_keyed(tables[0]),
        description is Some ==> !(replies[0] matches DbReplyView::Updated(Err(_))),
    ensures
        description is None ==> {
            &&& replies.len() == 0
            &&& response == error_response(BAD_REQUEST, "description is required"@)
            &&& tables.last() == tables[0]
        },
        description is Some && tables[0].dom().contains(id) ==> {
            &&& response == (ResponseView {
                status: OK,
                body: BodyView::Entry(EntryView { description: description, ..tables[0][id] }),
            })
            &&& tables.last() == tables[0].insert(id, EntryView { description: description, ..tables[0][id] })
        },
        description is Some && !tables[0].dom().contains(id) ==> {
            &&& response == error_response(NOT_FOUND, "Entry not found"@)
            &&& tables.last() == tables[0]
        },
{
    let route = Route::UpdateEntry(id, description);
    if replies.len() >= 1 {
        assert(step_at(route, replies, 0) is Query);
        assert(answers(tables[0], DbCallView::UpdateEntry(id, description->Some_0), replies[0], tables[1]));
        if replies.len() >= 2 {
            assert(step_at(route, replies, 1) is Query);
        }
    }
}

/// Once deleted, an entry cannot be edited: after a delete of `id` that the
/// database did not fail, an edit of `id` with a description answers 404.
pub proof fn law_deleted_entry_cannot_be_edited(
    id: u128,
    description: Seq<char>,
    delete_replies: Seq<DbReplyView>,
    delete_tables: Seq<Map<u128, EntryView>>,
    delete_response: ResponseView,
    update_replies: Seq<DbReplyView>,
    update_tables: Seq<Map<u128, EntryView>>,
    update_response: ResponseView,
)
    requires
        is_run(Route::DeleteEntry(id), delete_replies, delete_tables, delete_response),
        !(delete_replies[0] matches DbReplyView::Deleted(Err(_))),
        is_run(Route::UpdateEntry(id, Some(description)), update_replies, update_tables, update_response),
        update_tables[0] == delete_tables.last(),
        well_keyed(update_tables[0]),
        !(update_replies[0] matches DbReplyView::Updated(Err(_))),
    ensures
        update_response == error_response(NOT_FOUND, "Entry not found"@),
{
    law_delete_removes_entry(id, delete_replies, delete_tables, delete_response);
    law_update_sets_description(id, Some(description), update_replies, update_tables, update_response);
}

/// The server's status answer says a timer runs exactly when it carries the
/// running entry (which the client relies on when it prints the status).
pub proof fn law_status_carries_entry_when_running(reply: Option<DbReplyView>)
    ensures
        timer_status_step(reply) matches RouteStepView::Respond(r) ==> (r.body matches BodyView::Status(running, entry)
            ==> running == entry is Some),
{
}

/// Starting a timer while one runs ends, at the client, with its message
/// that a timer is already running (unless the server's look-up fails).
pub proof fn law_client_told_timer_running(
    replies: Seq<DbReplyView>,
    tables: Seq<Map<u128, EntryView>>,
    response: ResponseView,
)
    requires
        is_run(Route::StartTimer, replies, tables, response),
        has_running(tables[0]),
        !(replies[0] matches DbReplyView::Started(Err(_))),
    ensures
        refusal(CommandView::Start, response.status)
            == Some("A timer is already running. Stop it first with: epoch stop \"description\""@),
{
    law_start_refused_while_running(replies, tables, response);
}

/// The database's message when a reply is a failure.
pub open spec fn failure_message(reply: DbReplyView) -> Option<Seq<char>> {
    match reply {
        DbReplyView::Running(Err(m)) => Some(m),
        DbReplyView::Started(Err(m)) => Some(m),
        DbReplyView::Stopped(Err(m)) => Some(m),
        DbReplyView::Listed(Err(m)) => Some(m),
        DbReplyView::Deleted(Err(m)) => Some(m),
        DbReplyView::Updated(Err(m)) => Some(m),
        _ => None,
    }
}

/// Every request makes at most one query; when that query fails, nothing
/// changes and the request is answered with the database's message: with
/// status 500, except the status request, which answers it with 200.
pub proof fn law_database_failure_answered(
    route: Route,
    replies: Seq<DbReplyView>,
    tables: Seq<Map<u128, EntryView>>,
    response: ResponseView,
)
    requires
        is_run(route, replies, tables, response),
        replies.len() >= 1,
        failure_message(replies[0]) is Some,
    ensures
        replies.len() == 1,
        tables.last() == tables[0],
        response == error_response(
            if route is TimerStatus { OK } else { INTERNAL_SERVER_ERROR },
            failure_message(replies[0])->Some_0,
        ),
{
    assert(step_at(route, replies, 0) is Query);
    assert(answers(tables[0], step_at(route, replies, 0)->Query_0, replies[0], tables[1]));
    if replies.len() >= 2 {
        assert(step_at(route, replies, 1) is Query);
    }
}

/// Every request makes at most one query.
pub proof fn law_one_query_per_request(
    route: Route,
    replies: Seq<DbReplyView>,
    tables: Seq<Map<u128, EntryView>>,
    response: ResponseView,
)
    requires
        is_run(route, replies, tables, response),
    ensures
        replies.len() <= 1,
        replies.len() == 0 <==> route matches Route::UpdateEntry(_, None),
{
    if replies.len() >= 1 {
        assert(step_at(route, replies, 0) is Query);
        assert(answers(tables[0], step_at(route, replies, 0)->Query_0, replies[0], tables[1]));
        if replies.len() >= 2 {
            assert(step_at(route, replies, 1) is Query);
        }
    } else {
        assert(step_at(route, replies, 0) is Respond);
    }
}

} // verus!
