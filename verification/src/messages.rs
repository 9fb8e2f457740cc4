//! Request and response bodies exchanged with the two remote APIs.
//!
//! Plain carriers: the application shell serializes them.  Only the bodies
//! whose fields are plain values live here; bodies carrying free-form
//! remote documents stay with the shell.

use crate::models::Reminder;
use vstd::prelude::*;

verus! {

/// Body for testing source-system credentials; the token travels in a
/// header, so the body is empty.
#[derive(Debug, Clone)]
pub struct TestRequest {}

/// The plain-text answer of endpoints that reply "OK".
#[derive(Debug, Clone)]
pub struct TestResponse(pub String);

/// Body to mark a task done.
#[derive(Debug, Clone)]
pub struct MarkDoneRequest {
    pub item_id: String,
    pub time_zone_offset: Option<i32>,
}

/// Query for reading a document by identifier.
#[derive(Debug, Clone)]
pub struct ReadDocQuery {
    pub id: String,
}

/// Body to create a calendar event.
#[derive(Debug, Clone)]
pub struct CreateEventRequest {
    pub title: String,
    pub note: Option<String>,
    pub length: i64,
    pub start: String,
}

/// Body to delete a document.
#[derive(Debug, Clone)]
pub struct DeleteDocRequest {
    pub item_id: String,
}

/// Body for the time-tracking endpoint of the source system.
#[derive(Debug, Clone)]
pub struct TrackRequest {
    pub task_id: String,
    pub action: String,
}

/// Answer of the time-tracking endpoint.
#[derive(Debug, Clone)]
pub struct TrackResponse {
    pub start_id: Option<String>,
    pub start_times: Option<Vec<i64>>,
    pub stop_id: Option<String>,
    pub stop_times: Option<Vec<i64>>,
    pub issues: Vec<String>,
}

/// Body asking for the tracked times of a set of tasks.
#[derive(Debug, Clone)]
pub struct TracksRequest {
    pub task_ids: Vec<String>,
}

/// One task's tracked times.
#[derive(Debug, Clone)]
pub struct TrackItem {
    pub task_id: String,
    pub times: Vec<i64>,
}

/// The currently tracked item of the source system.
#[derive(Debug, Clone)]
pub struct TrackedItemResponse {
    pub id: String,
    pub db: String,
    pub title: String,
}

/// Body to reset reward points; the endpoint takes no fields.
#[derive(Debug, Clone)]
pub struct ResetRewardPointsRequest {}

/// Body to set (create or update) reminders.
#[derive(Debug, Clone)]
pub struct SetRemindersRequest {
    pub reminders: Vec<Reminder>,
}

/// Body to delete specific reminders.
#[derive(Debug, Clone)]
pub struct DeleteRemindersRequest {
    pub reminder_ids: Vec<String>,
}

/// Body to delete every reminder; the endpoint takes no fields.
#[derive(Debug, Clone)]
pub struct DeleteAllRemindersRequest {}

/// Body to create a client in the target system.
#[derive(Debug, Clone)]
pub struct CreateClientRequest {
    pub name: String,
    pub notes: Option<String>,
}

/// Body to create a tag in the target system.
#[derive(Debug, Clone)]
pub struct CreateTagRequest {
    pub name: String,
}

/// Metadata attached to a created time entry.
#[derive(Debug, Clone)]
pub struct EventMetadata {
    pub origin_feature: Option<String>,
    pub visible_goals_count: Option<i64>,
}

/// How a recurring target-system project repeats.
#[derive(Debug, Clone)]
pub struct RecurringParameters {
    pub custom_period: Option<i64>,
    pub period: Option<String>,
    pub project_start_date: Option<String>,
}

/// Body to create a time entry in the target system.  A negative duration
/// marks the entry as running.
#[derive(Debug, Clone)]
pub struct CreateTimeEntryRequest {
    pub billable: Option<bool>,
    pub created_with: String,
    pub description: Option<String>,
    pub duration: i64,
    pub duronly: Option<bool>,
    pub event_metadata: Option<EventMetadata>,
    pub pid: Option<i64>,
    pub project_id: Option<i64>,
    pub shared_with_user_ids: Option<Vec<i64>>,
    pub start: String,
    pub start_date: Option<String>,
    pub stop: Option<String>,
    pub tag_action: Option<String>,
    pub tag_ids: Option<Vec<i64>>,
    pub tags: Option<Vec<String>>,
    pub task_id: Option<i64>,
    pub tid: Option<i64>,
    pub user_id: Option<i64>,
    pub workspace_id: i64,
}

/// Builds the body that starts a running time entry: duration `-1`, the
/// start stamp handed in, tags added by identifier, and the resolved
/// project and task attached.
pub fn build_start_entry(
    workspace_id: i64,
    project_id: Option<i64>,
    task_id: Option<i64>,
    description: &str,
    tags: Vec<i64>,
    start: String,
) -> (r: CreateTimeEntryRequest)
    ensures
        r.workspace_id == workspace_id,
        r.project_id == project_id,
        r.task_id == task_id,
        r.description matches Some(d) && d@ == description@,
        r.duration == -1,
        r.billable == Some(false),
        r.created_with@ == "MarvinWebhook"@,
        r.start == start,
        r.stop is None,
        r.tag_action matches Some(a) && a@ == "add"@,
        r.tag_ids matches Some(t) && t == tags,
        r.tags is None,
        r.pid is None && r.tid is None && r.user_id is None && r.duronly is None
            && r.event_metadata is None && r.shared_with_user_ids is None && r.start_date is None,
{
    CreateTimeEntryRequest {
        billable: Some(false),
        created_with: String::from_str("MarvinWebhook"),
        description: Some(description.to_owned()),
        duration: crate::default_negative_duration(),
        duronly: None,
        event_metadata: None,
        pid: None,
        project_id,
        shared_with_user_ids: None,
        start,
        start_date: None,
        stop: None,
        tag_action: Some(String::from_str("add")),
        tag_ids: Some(tags),
        tags: None,
        task_id,
        tid: None,
        user_id: None,
        workspace_id,
    }
}

} // verus!
