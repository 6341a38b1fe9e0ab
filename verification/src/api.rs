//! The bodies that the client and the server exchange.

use vstd::prelude::*;
use crate::time::Timestamp;

verus! {

/// The body of a request to stop the running timer.
#[derive(Debug)]
pub struct StopRequest {
    pub description: String,
}

/// The body of a request to edit an entry; the server refuses it without a description.
#[derive(Debug)]
pub struct UpdateEntryRequest {
    pub description: Option<String>,
}

/// One time entry as the server reports it. An entry is running while it has
/// no `stopped_at`; the server gives it a description when it is stopped.
#[derive(Debug)]
pub struct EntryResponse {
    pub id: u128,
    pub description: Option<String>,
    pub started_at: Timestamp,
    pub stopped_at: Option<Timestamp>,
}

/// Whether a timer is running, and which entry it is.
#[derive(Debug)]
pub struct StatusResponse {
    pub running: bool,
    pub entry: Option<EntryResponse>,
}

/// The body of a refused or failed request.
#[derive(Debug)]
pub struct ErrorResponse {
    pub error: String,
}

/// The mathematical value of a time entry: texts as sequences of characters.
pub struct EntryView {
    pub id: u128,
    pub description: Option<Seq<char>>,
    pub started_at: Timestamp,
    pub stopped_at: Option<Timestamp>,
}

impl EntryView {
    /// An entry runs until it is stopped.
    pub open spec fn is_running(self) -> bool {
        self.stopped_at is None
    }
}

impl View for EntryResponse {
    type V = EntryView;

    open spec fn view(&self) -> EntryView {
        EntryView {
            id: self.id,
            description: self.description.deep_view(),
            started_at: self.started_at,
            stopped_at: self.stopped_at,
        }
    }
}

/// The view of a list of entries.
pub open spec fn entries_view(entries: Seq<EntryResponse>) -> Seq<EntryView> {
    entries.map_values(|e: EntryResponse| e@)
}

/// Copies a text that may be absent.
pub fn clone_text(text: &Option<String>) -> (copy: Option<String>)
    ensures
        copy.deep_view() == text.deep_view(),
{
    match text {
        Some(t) => Some(t.clone()),
        None => None,
    }
}

} // verus!
