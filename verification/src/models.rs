//! Source-system data models.
//!
//! Plain carriers for the documents the source system serves: tasks,
//! projects, labels, calendars, reminders, rewards and goals.  They hold
//! only plain values; the application shell converts between them and the
//! wire format.  Maps keyed by strings are carried as vectors of pairs.

use vstd::prelude::*;

verus! {

/// An inline reminder stored on a task or subtask.
#[derive(Debug, Clone)]
pub struct ReminderInfo {
    pub time: String,
    pub diff: i64,
}

/// A subtask of a task.
#[derive(Debug, Clone)]
pub struct Subtask {
    pub id: String,
    pub title: String,
    pub done: bool,
    pub rank: i64,
    pub time_estimate: Option<i64>,
    pub task_time: Option<String>,
    pub reminder_offset: Option<i64>,
    pub reminder_time: Option<i64>,
    pub snooze: Option<i64>,
    pub auto_snooze: Option<bool>,
    pub remind_at: Option<String>,
    pub reminder: Option<ReminderInfo>,
}

/// A task of the source system; also the payload of the tracking webhooks.
/// Only `id`, `title`, `parent_id` and `label_ids` drive the relay.
#[derive(Debug, Clone)]
pub struct Task {
    pub id: String,
    pub created_at: i64,
    pub updated_at: i64,
    pub worked_on_at: Option<i64>,
    pub title: String,
    pub parent_id: String,
    pub due_date: Option<String>,
    pub start_date: Option<String>,
    pub end_date: Option<String>,
    pub day: String,
    pub first_scheduled: Option<String>,
    pub planned_week: Option<String>,
    pub planned_month: Option<String>,
    pub sprint_id: Option<String>,
    pub rank: Option<i64>,
    pub master_rank: Option<i64>,
    pub done: Option<bool>,
    pub completed_at: Option<i64>,
    pub duration: Option<i64>,
    pub times: Vec<i64>,
    pub first_tracked: Option<i64>,
    pub done_at: Option<i64>,
    pub is_reward: Option<bool>,
    pub is_starred: Option<bool>,
    pub is_frogged: Option<bool>,
    pub is_pinned: Option<bool>,
    pub pin_id: Option<String>,
    pub recurring: Option<bool>,
    pub recurring_task_id: Option<String>,
    pub echo: Option<bool>,
    pub echo_id: Option<String>,
    pub link: Option<String>,
    pub subtasks: Vec<(String, Subtask)>,
    pub color_bar: Option<String>,
    pub label_ids: Vec<String>,
    pub time_estimate: Option<i64>,
    pub note: Option<String>,
    pub email: Option<String>,
    pub daily_section: Option<String>,
    pub bonus_section: Option<String>,
    pub custom_section: Option<String>,
    pub time_block_section: Option<String>,
    pub depends_on: Vec<(String, bool)>,
    pub backburner: Option<bool>,
    pub review_date: Option<String>,
    pub item_snooze_time: Option<i64>,
    pub perma_snooze_time: Option<String>,
    pub cal_id: Option<String>,
    pub cal_url: Option<String>,
    pub etag: Option<String>,
    pub cal_data: Option<String>,
    pub generated_at: Option<i64>,
    pub echoed_at: Option<i64>,
    pub deleted_at: Option<i64>,
    pub restored_at: Option<i64>,
    pub onboard: Option<bool>,
    pub imported: Option<bool>,
    pub marvin_points: Option<i64>,
    pub mp_notes: Option<Vec<String>>,
    pub reward_points: Option<i64>,
    pub reward_id: Option<i64>,
    pub task_time: Option<String>,
    pub reminder_offset: Option<i64>,
    pub reminder_time: Option<i64>,
    pub snooze: Option<i64>,
    pub auto_snooze: Option<bool>,
    pub remind_at: Option<String>,
    pub reminder: Option<ReminderInfo>,
}

/// A project or category of the source system: an inner node of the
/// hierarchy the walker climbs.
#[derive(Debug, Clone)]
pub struct ProjectOrCategory {
    pub id: String,
    pub title: String,
    pub kind: String,
    pub updated_at: i64,
    pub worked_on_at: Option<i64>,
    pub parent_id: String,
    pub rank: Option<i64>,
    pub day_rank: Option<i64>,
    pub day: Option<String>,
    pub first_scheduled: Option<String>,
    pub due_date: Option<String>,
    pub label_ids: Vec<String>,
    pub time_estimate: Option<i64>,
    pub start_date: Option<String>,
    pub end_date: Option<String>,
    pub planned_week: Option<String>,
    pub planned_month: Option<String>,
    pub sprint_id: Option<String>,
    pub done: Option<bool>,
    pub done_date: Option<String>,
    pub priority: Option<String>,
    pub color: Option<String>,
    pub icon: Option<String>,
    pub note: Option<String>,
    pub recurring: Option<bool>,
    pub recurring_task_id: Option<String>,
    pub echo: Option<bool>,
    pub is_frogged: Option<bool>,
    pub review_date: Option<String>,
    pub marvin_points: Option<i64>,
    pub mp_notes: Option<Vec<String>>,
}

/// A recurring-task document.
#[derive(Debug, Clone)]
pub struct RecurringTask {
    pub id: String,
    pub recurring_type: String,
    pub title: String,
    pub parent_id: Option<String>,
    pub kind: String,
    pub day: Option<i64>,
    pub date: Option<i64>,
    pub week_days: Option<Vec<i64>>,
    pub repeat: Option<i64>,
    pub repeat_start: Option<String>,
    pub limit_to_weekdays: Option<bool>,
    pub subtask_list: Option<Vec<Task>>,
    pub section: Option<String>,
    pub time_estimate: Option<i64>,
    pub label_ids: Option<Vec<String>>,
    pub due_in: Option<i64>,
    pub auto_plan: Option<String>,
    pub echo_days: Option<i64>,
    pub on_count: Option<i64>,
    pub off_count: Option<i64>,
    pub custom_recurrence: Option<String>,
    pub end_date: Option<String>,
}

/// A saved item (template).
#[derive(Debug, Clone)]
pub struct SavedItem {
    pub id: String,
    pub item_type: String,
    pub title: String,
    pub rank: i64,
    pub tasks: Vec<Task>,
    pub default_parent_id: Option<String>,
}

/// An anticipated challenge recorded on a goal.
#[derive(Debug, Clone)]
pub struct Challenge {
    pub id: String,
    pub challenge: String,
    pub action: String,
}

/// A section within a goal.
#[derive(Debug, Clone)]
pub struct GoalSection {
    pub id: String,
    pub title: String,
    pub note: String,
}

/// A question answered during a goal check-in.
#[derive(Debug, Clone)]
pub struct CheckInQuestion {
    pub id: String,
    pub title: String,
}

/// A goal that habits, tasks and projects can be attached to.
#[derive(Debug, Clone)]
pub struct Goal {
    pub id: String,
    pub title: String,
    pub note: String,
    pub hide_in_day_view: Option<bool>,
    pub parent_id: Option<String>,
    pub is_starred: Option<i64>,
    pub label_ids: Vec<String>,
    pub importance: Option<i64>,
    pub difficulty: Option<i64>,
    pub motivations: Vec<String>,
    pub challenges: Vec<Challenge>,
    pub committed: Option<bool>,
    pub expected_tasks: Option<i64>,
    pub expected_duration: Option<i64>,
    pub expected_habits: Option<String>,
    pub check_in: Option<bool>,
    pub check_ins: Vec<i64>,
    pub last_check_in: Option<String>,
    pub check_in_weeks: Option<i64>,
    pub check_in_start: Option<String>,
    pub check_in_questions: Vec<CheckInQuestion>,
    pub status: String,
    pub started_at: Option<i64>,
    pub color: Option<String>,
    pub due_date: Option<String>,
    pub has_end: Option<bool>,
    pub sections: Vec<GoalSection>,
    pub task_progress: Option<bool>,
    pub tracker_progress: Option<Vec<(String, bool)>>,
}

/// A label attached to tasks; its title becomes a target-system tag name.
#[derive(Debug, Clone)]
pub struct Label {
    pub id: String,
    pub title: String,
    pub group_id: Option<String>,
    pub created_at: i64,
    pub color: Option<String>,
    pub icon: Option<String>,
    pub show_as: Option<String>,
    pub is_action: Option<bool>,
    pub is_hidden: Option<bool>,
}

/// A group of labels.
#[derive(Debug, Clone)]
pub struct LabelGroup {
    pub id: String,
    pub title: String,
    pub rank: i64,
    pub created_at: i64,
    pub is_exclusive: Option<bool>,
    pub color: Option<String>,
    pub icon: Option<String>,
    pub is_menu: Option<bool>,
}

/// A connected calendar.
#[derive(Debug, Clone)]
pub struct Calendar {
    pub id: String,
    pub two_way: bool,
    pub provider: String,
    pub display_name: String,
    pub url: String,
    pub username: Option<String>,
    pub password: Option<String>,
    pub item_type: Option<String>,
    pub ctag: Option<String>,
    pub parent_id: Option<String>,
    pub label_ids: Option<Vec<String>>,
    pub calendar_id: Option<String>,
    pub color: Option<String>,
    pub access_role: Option<String>,
    pub rank: Option<i64>,
    pub time_zone_fix: Option<i64>,
}

/// An exception to a recurring calendar event.
#[derive(Debug, Clone)]
pub struct EventException {
    pub etag: Option<String>,
    pub cal_data: Option<String>,
    pub start: Option<String>,
    pub title: Option<String>,
    pub length: Option<i64>,
}

/// A calendar event.
#[derive(Debug, Clone)]
pub struct Event {
    pub id: String,
    pub title: String,
    pub is_all_day: bool,
    pub parent_id: Option<String>,
    pub label_ids: Vec<String>,
    pub start: String,
    pub length: i64,
    pub cal_id: Option<String>,
    pub cal_url: Option<String>,
    pub etag: Option<String>,
    pub cal_data: Option<String>,
    pub cancel_dates: Vec<(String, bool)>,
    pub exceptions: Vec<(String, EventException)>,
    pub note: Option<String>,
    pub hidden: Option<bool>,
    pub time_zone_fix: Option<i64>,
}

/// An exception to a recurring time block.
#[derive(Debug, Clone)]
pub struct TimeBlockException {
    pub etag: Option<String>,
    pub cal_data: Option<String>,
    pub date: Option<String>,
    pub title: Option<String>,
    pub time: Option<String>,
    pub duration: Option<String>,
}

/// A server-side reminder used for push notifications.
#[derive(Debug, Clone)]
pub struct Reminder {
    pub time: i64,
    pub offset: i64,
    pub reminder_id: String,
    pub reminder_type: String,
    pub title: Option<String>,
    pub snooze: Option<i64>,
    pub auto_snooze: Option<bool>,
    pub can_track: bool,
}

/// A reward the user can earn or spend points on.
#[derive(Debug, Clone)]
pub struct Reward {
    pub id: String,
    pub is_archived: Option<bool>,
    pub rank: i64,
    pub group_id: Option<String>,
    pub title: String,
    pub note: Option<String>,
    pub is_pinned: Option<bool>,
    pub reward_points: Option<i64>,
    pub earned: Vec<i64>,
    pub spent: Vec<i64>,
}

} // verus!
