//! The server's request handlers. Each handler is a step function: given the
//! reply to its last database query (none at first), it either asks for the
//! next query or answers the request. The caller runs the queries.

use vstd::prelude::*;
use crate::api::{
    clone_text, entries_view, EntryResponse, EntryView, ErrorResponse, StatusResponse,
    StopRequest, UpdateEntryRequest,
};
use crate::time::Timestamp;

verus! {

pub const OK: u16 = 200;
pub const CREATED: u16 = 201;
pub const NO_CONTENT: u16 = 204;
pub const BAD_REQUEST: u16 = 400;
pub const UNAUTHORIZED: u16 = 401;
pub const NOT_FOUND: u16 = 404;
pub const CONFLICT: u16 = 409;
pub const INTERNAL_SERVER_ERROR: u16 = 500;

/// A row of the `entries` table.
#[derive(Debug)]
pub struct Entry {
    pub id: u128,
    pub description: Option<String>,
    pub started_at: Timestamp,
    pub stopped_at: Option<Timestamp>,
}

impl View for Entry {
    type V = EntryView;

    open spec fn view(&self) -> EntryView {
        EntryView {
            id: self.id,
            description: self.description.deep_view(),
            started_at: self.started_at,
            stopped_at: self.stopped_at,
        }
    }
}

/// A database query that failed, with the driver's account of why.
#[derive(Debug)]
pub struct DbError {
    pub message: String,
}

/// The database queries that the handlers ask for.
#[derive(Debug)]
pub enum DbCall {
    /// The entry that is running, if any.
    GetRunning,
    /// Insert a new running entry, started now, unless an entry is running:
    /// one statement, which the table's index of running entries keeps from
    /// inserting a second one however requests interleave.
    StartEntry,
    /// Stop the running entry now, with this description.
    StopEntry { description: String },
    /// The entries started today, latest first.
    ListEntriesToday,
    /// Delete the entry with this id; tell whether there was one.
    DeleteEntry { id: u128 },
    /// Set the description of the entry with this id.
    UpdateEntry { id: u128, description: String },
}

/// The reply to each kind of query.
#[derive(Debug)]
pub enum DbReply {
    Running(Result<Option<Entry>, DbError>),
    /// The new entry, or nothing when an entry was already running.
    Started(Result<Option<Entry>, DbError>),
    Stopped(Result<Option<Entry>, DbError>),
    Listed(Result<Vec<Entry>, DbError>),
    Deleted(Result<bool, DbError>),
    Updated(Result<Option<Entry>, DbError>),
}

/// The body of an answer.
#[derive(Debug)]
pub enum Body {
    Entry(EntryResponse),
    Entries(Vec<EntryResponse>),
    Status(StatusResponse),
    Error(ErrorResponse),
    Empty,
}

/// An answer: an HTTP status code and a body.
#[derive(Debug)]
pub struct Response {
    pub status: u16,
    pub body: Body,
}

/// What a handler does next.
#[derive(Debug)]
pub enum RouteStep {
    Query(DbCall),
    Respond(Response),
}

pub enum DbCallView {
    GetRunning,
    StartEntry,
    StopEntry(Seq<char>),
    ListEntriesToday,
    DeleteEntry(u128),
    UpdateEntry(u128, Seq<char>),
}

pub enum DbReplyView {
    Running(Result<Option<EntryView>, Seq<char>>),
    Started(Result<Option<EntryView>, Seq<char>>),
    Stopped(Result<Option<EntryView>, Seq<char>>),
    Listed(Result<Seq<EntryView>, Seq<char>>),
    Deleted(Result<bool, Seq<char>>),
    Updated(Result<Option<EntryView>, Seq<char>>),
}

pub enum BodyView {
    Entry(EntryView),
    Entries(Seq<EntryView>),
    Status(bool, Option<EntryView>),
    Error(Seq<char>),
    Empty,
}

pub struct ResponseView {
    pub status: u16,
    pub body: BodyView,
}

pub enum RouteStepView {
    Query(DbCallView),
    Respond(ResponseView),
}

pub open spec fn entry_option_view(e: Option<Entry>) -> Option<EntryView> {
    match e {
        Some(e) => Some(e@),
        None => None,
    }
}

pub open spec fn response_option_view(e: Option<EntryResponse>) -> Option<EntryView> {
    match e {
        Some(e) => Some(e@),
        None => None,
    }
}

pub open spec fn rows_view(rows: Seq<Entry>) -> Seq<EntryView> {
    rows.map_values(|e: Entry| e@)
}

impl View for DbCall {
    type V = DbCallView;

    open spec fn view(&self) -> DbCallView {
        match self {
            DbCall::GetRunning => DbCallView::GetRunning,
            DbCall::StartEntry => DbCallView::StartEntry,
            DbCall::StopEntry { description } => DbCallView::StopEntry(description@),
            DbCall::ListEntriesToday => DbCallView::ListEntriesToday,
            DbCall::DeleteEntry { id } => DbCallView::DeleteEntry(*id),
            DbCall::UpdateEntry { id, description } => DbCallView::UpdateEntry(*id, description@),
        }
    }
}

impl View for DbReply {
    type V = DbReplyView;

    open spec fn view(&self) -> DbReplyView {
        match self {
            DbReply::Running(r) => DbReplyView::Running(match r {
                Ok(e) => Ok(entry_option_view(*e)),
                Err(err) => Err(err.message@),
            }),
            DbReply::Started(r) => DbReplyView::Started(match r {
                Ok(e) => Ok(entry_option_view(*e)),
                Err(err) => Err(err.message@),
            }),
            DbReply::Stopped(r) => DbReplyView::Stopped(match r {
                Ok(e) => Ok(entry_option_view(*e)),
                Err(err) => Err(err.message@),
            }),
            DbReply::Listed(r) => DbReplyView::Listed(match r {
                Ok(rows) => Ok(rows_view(rows@)),
                Err(err) => Err(err.message@),
            }),
            DbReply::Deleted(r) => DbReplyView::Deleted(match r {
                Ok(b) => Ok(*b),
                Err(err) => Err(err.message@),
            }),
            DbReply::Updated(r) => DbReplyView::Updated(match r {
                Ok(e) => Ok(entry_option_view(*e)),
                Err(err) => Err(err.message@),
            }),
        }
    }
}

pub open spec fn reply_option_view(reply: Option<DbReply>) -> Option<DbReplyView> {
    match reply {
        Some(r) => Some(r@),
        None => None,
    }
}

impl View for Body {
    type V = BodyView;

    open spec fn view(&self) -> BodyView {
        match self {
            Body::Entry(e) => BodyView::Entry(e@),
            Body::Entries(es) => BodyView::Entries(entries_view(es@)),
            Body::Status(s) => BodyView::Status(s.running, response_option_view(s.entry)),
            Body::Error(e) => BodyView::Error(e.error@),
            Body::Empty => BodyView::Empty,
        }
    }
}

impl View for Response {
    type V = ResponseView;

    open spec fn view(&self) -> ResponseView {
        ResponseView { status: self.status, body: self.body@ }
    }
}

impl View for RouteStep {
    type V = RouteStepView;

    open spec fn view(&self) -> RouteStepView {
        match self {
            RouteStep::Query(c) => RouteStepView::Query(c@),
            RouteStep::Respond(r) => RouteStepView::Respond(r@),
        }
    }
}

/// Answer with a status code and an error message.
pub open spec fn refuse(status: u16, message: Seq<char>) -> RouteStepView {
    RouteStepView::Respond(ResponseView { status, body: BodyView::Error(message) })
}

/// Answer with a status code and a body.
pub open spec fn answer(status: u16, body: BodyView) -> RouteStepView {
    RouteStepView::Respond(ResponseView { status, body })
}

/// What `POST /api/timer/start` does: create a running entry unless one
/// runs, in one query, and answer 201 with it, or 409 when a timer was
/// already running, or 500 when the query fails.
pub open spec fn start_timer_step(reply: Option<DbReplyView>) -> RouteStepView {
    match reply {
        None => RouteStepView::Query(DbCallView::StartEntry),
        Some(DbReplyView::Started(Ok(Some(e)))) => answer(CREATED, BodyView::Entry(e)),
        Some(DbReplyView::Started(Ok(None))) => refuse(CONFLICT, "A timer is already running"@),
        Some(DbReplyView::Started(Err(m))) => refuse(INTERNAL_SERVER_ERROR, m),
        _ => answer(INTERNAL_SERVER_ERROR, BodyView::Empty),
    }
}

/// What `POST /api/timer/stop` does: stop the running entry with the
/// request's description and answer 200 with it, or 404 when none runs.
pub open spec fn stop_timer_step(description: Seq<char>, reply: Option<DbReplyView>) -> RouteStepView {
    match reply {
        None => RouteStepView::Query(DbCallView::StopEntry(description)),
        Some(DbReplyView::Stopped(Ok(Some(e)))) => answer(OK, BodyView::Entry(e)),
        Some(DbReplyView::Stopped(Ok(None))) => refuse(NOT_FOUND, "No running timer"@),
        Some(DbReplyView::Stopped(Err(m))) => refuse(INTERNAL_SERVER_ERROR, m),
        _ => answer(INTERNAL_SERVER_ERROR, BodyView::Empty),
    }
}

/// What `GET /api/timer/status` does: report the running entry, if any. Even
/// a failed look-up is answered with status 200.
pub open spec fn timer_status_step(reply: Option<DbReplyView>) -> RouteStepView {
    match reply {
        None => RouteStepView::Query(DbCallView::GetRunning),
        Some(DbReplyView::Running(Ok(Some(e)))) => answer(OK, BodyView::Status(true, Some(e))),
        Some(DbReplyView::Running(Ok(None))) => answer(OK, BodyView::Status(false, None)),
        Some(DbReplyView::Running(Err(m))) => refuse(OK, m),
        _ => answer(INTERNAL_SERVER_ERROR, BodyView::Empty),
    }
}

/// What `GET /api/entries` does: answer 200 with today's entries.
pub open spec fn list_entries_step(reply: Option<DbReplyView>) -> RouteStepView {
    match reply {
        None => RouteStepView::Query(DbCallView::ListEntriesToday),
        Some(DbReplyView::Listed(Ok(es))) => answer(OK, BodyView::Entries(es)),
        Some(DbReplyView::Listed(Err(m))) => refuse(INTERNAL_SERVER_ERROR, m),
        _ => answer(INTERNAL_SERVER_ERROR, BodyView::Empty),
    }
}

/// What `DELETE /api/entries/{id}` does: answer 204 with no body when the
/// entry was deleted, 404 when there was none.
pub open spec fn delete_entry_step(id: u128, reply: Option<DbReplyView>) -> RouteStepView {
    match reply {
        None => RouteStepView::Query(DbCallView::DeleteEntry(id)),
        Some(DbReplyView::Deleted(Ok(true))) => answer(NO_CONTENT, BodyView::Empty),
        Some(DbReplyView::Deleted(Ok(false))) => refuse(NOT_FOUND, "Entry not found"@),
        Some(DbReplyView::Deleted(Err(m))) => refuse(INTERNAL_SERVER_ERROR, m),
        _ => answer(INTERNAL_SERVER_ERROR, BodyView::Empty),
    }
}

/// What `PUT /api/entries/{id}` does: refuse with 400 a body without a
/// description, otherwise set it and answer 200 with the entry, or 404.
pub open spec fn update_entry_step(
    id: u128,
    description: Option<Seq<char>>,
    reply: Option<DbReplyView>,
) -> RouteStepView {
    match reply {
        None => match description {
            Some(d) => RouteStepView::Query(DbCallView::UpdateEntry(id, d)),
            None => refuse(BAD_REQUEST, "description is required"@),
        },
        Some(DbReplyView::Updated(Ok(Some(e)))) => answer(OK, BodyView::Entry(e)),
        Some(DbReplyView::Updated(Ok(None))) => refuse(NOT_FOUND, "Entry not found"@),
        Some(DbReplyView::Updated(Err(m))) => refuse(INTERNAL_SERVER_ERROR, m),
        _ => answer(INTERNAL_SERVER_ERROR, BodyView::Empty),
    }
}

fn error_step(status: u16, message: String) -> (step: RouteStep)
    ensures
        step@ == refuse(status, message@),
{
    RouteStep::Respond(Response { status, body: Body::Error(ErrorResponse { error: message }) })
}

/// The response form of a table row.
pub fn entry_to_response(e: Entry) -> (r: EntryResponse)
    ensures
        r@ == e@,
{
    EntryResponse {
        id: e.id,
        description: e.description,
        started_at: e.started_at,
        stopped_at: e.stopped_at,
    }
}

fn rows_to_responses(rows: &Vec<Entry>) -> (out: Vec<EntryResponse>)
    ensures
        entries_view(out@) == rows_view(rows@),
{
    let mut out: Vec<EntryResponse> = Vec::new();
    let mut i: usize = 0;
    while i < rows.len()
        invariant
            i <= rows.len(),
            out@.len() == i,
            forall|j: int| 0 <= j < i ==> #[trigger] out@[j]@ == rows@[j]@,
        decreases rows.len() - i,
    {
        let row = &rows[i];
        out.push(EntryResponse {
            id: row.id,
            description: clone_text(&row.description),
            started_at: row.started_at,
            stopped_at: row.stopped_at,
        });
        i = i + 1;
    }
    assert(entries_view(out@) =~= rows_view(rows@));
    out
}

/// `POST /api/timer/start`.
pub fn start_timer(reply: Option<DbReply>) -> (step: RouteStep)
    requires
        reply matches Some(r) ==> r is Started,
    ensures
        step@ == start_timer_step(reply_option_view(reply)),
{
    match reply {
        None => RouteStep::Query(DbCall::StartEntry),
        Some(DbReply::Started(Ok(Some(e)))) => RouteStep::Respond(Response { status: CREATED, body: Body::Entry(entry_to_response(e)) }),
        Some(DbReply::Started(Ok(None))) => error_step(CONFLICT, String::from_str("A timer is already running")),
        Some(DbReply::Started(Err(e))) => error_step(INTERNAL_SERVER_ERROR, e.message),
        Some(_) => RouteStep::Respond(Response { status: INTERNAL_SERVER_ERROR, body: Body::Empty }),
    }
}

/// `POST /api/timer/stop`.
pub fn stop_timer(body: &StopRequest, reply: Option<DbReply>) -> (step: RouteStep)
    requires
        reply matches Some(r) ==> r is Stopped,
    ensures
        step@ == stop_timer_step(body.description@, reply_option_view(reply)),
{
    match reply {
        None => RouteStep::Query(DbCall::StopEntry { description: body.description.clone() }),
        Some(DbReply::Stopped(Ok(Some(e)))) => RouteStep::Respond(Response { status: OK, body: Body::Entry(entry_to_response(e)) }),
        Some(DbReply::Stopped(Ok(None))) => error_step(NOT_FOUND, String::from_str("No running timer")),
        Some(DbReply::Stopped(Err(e))) => error_step(INTERNAL_SERVER_ERROR, e.message),
        Some(_) => RouteStep::Respond(Response { status: INTERNAL_SERVER_ERROR, body: Body::Empty }),
    }
}

/// `GET /api/timer/status`.
pub fn timer_status(reply: Option<DbReply>) -> (step: RouteStep)
    requires
        reply matches Some(r) ==> r is Running,
    ensures
        step@ == timer_status_step(reply_option_view(reply)),
{
    match reply {
        None => RouteStep::Query(DbCall::GetRunning),
        Some(DbReply::Running(Ok(Some(e)))) => RouteStep::Respond(Response {
            status: OK,
            body: Body::Status(StatusResponse { running: true, entry: Some(entry_to_response(e)) }),
        }),
        Some(DbReply::Running(Ok(None))) => RouteStep::Respond(Response {
            status: OK,
            body: Body::Status(StatusResponse { running: false, entry: None }),
        }),
        Some(DbReply::Running(Err(e))) => error_step(OK, e.message),
        Some(_) => RouteStep::Respond(Response { status: INTERNAL_SERVER_ERROR, body: Body::Empty }),
    }
}

/// `GET /api/entries`.
pub fn list_entries(reply: Option<DbReply>) -> (step: RouteStep)
    requires
        reply matches Some(r) ==> r is Listed,
    ensures
        step@ == list_entries_step(reply_option_view(reply)),
{
    match reply {
        None => RouteStep::Query(DbCall::ListEntriesToday),
        Some(DbReply::Listed(Ok(rows))) => RouteStep::Respond(Response { status: OK, body: Body::Entries(rows_to_responses(&rows)) }),
        Some(DbReply::Listed(Err(e))) => error_step(INTERNAL_SERVER_ERROR, e.message),
        Some(_) => RouteStep::Respond(Response { status: INTERNAL_SERVER_ERROR, body: Body::Empty }),
    }
}

/// `DELETE /api/entries/{id}`.
pub fn delete_entry(id: u128, reply: Option<DbReply>) -> (step: RouteStep)
    requires
        reply matches Some(r) ==> r is Deleted,
    ensures
        step@ == delete_entry_step(id, reply_option_view(reply)),
{
    match reply {
        None => RouteStep::Query(DbCall::DeleteEntry { id }),
        Some(DbReply::Deleted(Ok(true))) => RouteStep::Respond(Response { status: NO_CONTENT, body: Body::Empty }),
        Some(DbReply::Deleted(Ok(false))) => error_step(NOT_FOUND, String::from_str("Entry not found")),
        Some(DbReply::Deleted(Err(e))) => error_step(INTERNAL_SERVER_ERROR, e.message),
        Some(_) => RouteStep::Respond(Response { status: INTERNAL_SERVER_ERROR, body: Body::Empty }),
    }
}

/// `PUT /api/entries/{id}`.
pub fn update_entry(id: u128, body: &UpdateEntryRequest, reply: Option<DbReply>) -> (step: RouteStep)
    requires
        reply matches Some(r) ==> r is Updated,
    ensures
        step@ == update_entry_step(id, body.description.deep_view(), reply_option_view(reply)),
{
    match reply {
        None => match &body.description {
            Some(d) => RouteStep::Query(DbCall::UpdateEntry { id, description: d.clone() }),
            None => error_step(BAD_REQUEST, String::from_str("description is required")),
        },
        Some(DbReply::Updated(Ok(Some(e)))) => RouteStep::Respond(Response { status: OK, body: Body::Entry(entry_to_response(e)) }),
        Some(DbReply::Updated(Ok(None))) => error_step(NOT_FOUND, String::from_str("Entry not found")),
        Some(DbReply::Updated(Err(e))) => error_step(INTERNAL_SERVER_ERROR, e.message),
        Some(_) => RouteStep::Respond(Response { status: INTERNAL_SERVER_ERROR, body: Body::Empty }),
    }
}

} // verus!
