use vstd::prelude::*;
use crate::time::Timestamp;

verus! {

/// The detail of an error reported by the reports endpoints.
#[derive(Clone, Debug, PartialEq, Eq)]
pub struct ReportsErrorDetail {
    pub message: String,
    pub tip: String,
    pub code: i64,
}

/// The error body of the reports endpoints: `{"error": {message, tip, code}}`.
#[derive(Clone, Debug, PartialEq, Eq)]
pub struct ReportsErrorJson {
    pub error: ReportsErrorDetail,
}

/// A tag of a workspace.
#[derive(Clone, Debug, PartialEq, Eq)]
pub struct Tag {
    /// Not needed when creating a tag.
    pub id: Option<i64>,
    /// The name of the tag, unique in its workspace.
    pub name: String,
    /// The workspace the tag belongs to.
    pub wid: i64,
}

/// A time entry. Only `start` and `duration` are always present.
#[derive(Clone, Debug, PartialEq, Eq)]
pub struct TimeEntry {
    /// Not needed when creating a time entry.
    pub id: Option<i64>,
    pub description: Option<String>,
    /// Workspace id, needed when neither `pid` nor `tid` is given.
    pub wid: Option<i64>,
    /// Project id.
    pub pid: Option<i64>,
    /// Task id.
    pub tid: Option<i64>,
    /// Available for pro workspaces.
    pub billable: Option<bool>,
    pub start: Timestamp,
    pub stop: Option<Timestamp>,
    /// Duration in seconds; negative while the entry is running.
    pub duration: i64,
    /// The name of the client application.
    pub created_with: Option<String>,
    /// Tag names.
    pub tags: Option<Vec<String>>,
    /// Whether only the duration, not the start and stop times, is shown.
    pub duronly: Option<bool>,
    /// When the entry was last updated; only sent by the service.
    pub at: Option<Timestamp>,
}

impl TimeEntry {
    /// An entry with the given start and duration and every optional field
    /// unset.
    pub fn new(start: Timestamp, duration: i64) -> (r: TimeEntry)
        ensures
            r.start == start,
            r.duration == duration,
            r.id is None && r.description is None && r.wid is None && r.pid is None,
            r.tid is None && r.billable is None && r.stop is None && r.created_with is None,
            r.tags is None && r.duronly is None && r.at is None,
    {
        TimeEntry {
            id: None,
            description: None,
            wid: None,
            pid: None,
            tid: None,
            billable: None,
            start,
            stop: None,
            duration,
            created_with: None,
            tags: None,
            duronly: None,
            at: None,
        }
    }
}

/// The service's answer to the creation of a time entry.
#[derive(Clone, Debug, PartialEq, Eq)]
pub struct TimeEntryResponse {
    pub data: TimeEntry,
}

} // verus!
