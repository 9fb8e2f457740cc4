//! Webhook dispatch.
//!
//! The source system labels each webhook delivery with a type string; what
//! is decided here is which kind of payload that string announces.  The
//! deserialization of the payload itself happens outside the library.

use crate::hierarchy::str_eq;
use vstd::prelude::*;

verus! {

/// The kinds of webhook delivery the relay distinguishes.
#[derive(Debug, PartialEq, Eq, Structural)]
pub enum WebhookKind {
    /// A new task or project.
    AddItem,
    /// A new habit.
    AddHabit,
    /// A timer was started.
    AddTimer,
    /// A timer ran out.
    TimerDone,
    /// A task or project was marked done.
    MarkDone,
    /// A habit was edited.
    EditHabit,
    /// Anything else: logged and otherwise ignored.
    Other,
}

/// Which payload kind a webhook type string announces.
pub open spec fn webhook_kind_spec(t: Seq<char>) -> WebhookKind {
    if t == "add"@ || t == "addTask"@ || t == "addProject"@ {
        WebhookKind::AddItem
    } else if t == "addHabit"@ {
        WebhookKind::AddHabit
    } else if t == "addTimer"@ {
        WebhookKind::AddTimer
    } else if t == "timerDone"@ {
        WebhookKind::TimerDone
    } else if t == "markDone"@ || t == "markDoneTask"@ || t == "markDoneProject"@ {
        WebhookKind::MarkDone
    } else if t == "editHabit"@ {
        WebhookKind::EditHabit
    } else {
        WebhookKind::Other
    }
}

/// Classifies a webhook delivery by its type string.
pub fn webhook_kind(t: &str) -> (k: WebhookKind)
    ensures
        k == webhook_kind_spec(t@),
{
    if str_eq(t, "add") || str_eq(t, "addTask") || str_eq(t, "addProject") {
        WebhookKind::AddItem
    } else if str_eq(t, "addHabit") {
        WebhookKind::AddHabit
    } else if str_eq(t, "addTimer") {
        WebhookKind::AddTimer
    } else if str_eq(t, "timerDone") {
        WebhookKind::TimerDone
    } else if str_eq(t, "markDone") || str_eq(t, "markDoneTask") || str_eq(t, "markDoneProject") {
        WebhookKind::MarkDone
    } else if str_eq(t, "editHabit") {
        WebhookKind::EditHabit
    } else {
        WebhookKind::Other
    }
}

} // verus!
