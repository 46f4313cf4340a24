use vstd::prelude::*;

use crate::text::str_equals;

verus! {

/// Where a task stands.
#[derive(Debug, Clone, Copy, PartialEq, Eq, Structural)]
pub enum TaskStatus {
    Pending,
    InProgress,
    Done,
}

/// The name under which a status is stored.
pub open spec fn status_name(s: TaskStatus) -> Seq<char> {
    match s {
        TaskStatus::Pending => "Pending"@,
        TaskStatus::InProgress => "InProgress"@,
        TaskStatus::Done => "Done"@,
    }
}

/// The status that a stored name stands for; any other name reads as `Pending`.
pub open spec fn status_from_name(s: Seq<char>) -> TaskStatus {
    if s == "InProgress"@ {
        TaskStatus::InProgress
    } else if s == "Done"@ {
        TaskStatus::Done
    } else {
        TaskStatus::Pending
    }
}

/// The symbol shown beside a status.
pub open spec fn status_emoji(s: TaskStatus) -> Seq<char> {
    match s {
        TaskStatus::Pending => "⏳"@,
        TaskStatus::InProgress => "🔄"@,
        TaskStatus::Done => "✅"@,
    }
}

/// The label shown for a status.
pub open spec fn status_label(s: TaskStatus) -> Seq<char> {
    match s {
        TaskStatus::Pending => "待機中"@,
        TaskStatus::InProgress => "進行中"@,
        TaskStatus::Done => "完了"@,
    }
}

impl TaskStatus {
    /// Reads a stored status name; an unknown name reads as `Pending`.
    pub fn from_str(s: &str) -> (r: TaskStatus)
        ensures
            r == status_from_name(s@),
    {
        if str_equals(s, "InProgress") {
            TaskStatus::InProgress
        } else if str_equals(s, "Done") {
            TaskStatus::Done
        } else {
            TaskStatus::Pending
        }
    }

    /// The name under which the status is stored.
    pub fn as_str(&self) -> (r: &'static str)
        ensures
            r@ == status_name(*self),
    {
        match self {
            TaskStatus::Pending => "Pending",
            TaskStatus::InProgress => "InProgress",
            TaskStatus::Done => "Done",
        }
    }

    pub fn emoji(&self) -> (r: &'static str)
        ensures
            r@ == status_emoji(*self),
    {
        match self {
            TaskStatus::Pending => "⏳",
            TaskStatus::InProgress => "🔄",
            TaskStatus::Done => "✅",
        }
    }

    pub fn display(&self) -> (r: &'static str)
        ensures
            r@ == status_label(*self),
    {
        match self {
            TaskStatus::Pending => "待機中",
            TaskStatus::InProgress => "進行中",
            TaskStatus::Done => "完了",
        }
    }
}

/// How urgent a task is.
#[derive(Debug, Clone, Copy, PartialEq, Eq, Structural)]
pub enum Priority {
    Low,
    Medium,
    High,
}

/// The name under which a priority is stored.
pub open spec fn priority_name(p: Priority) -> Seq<char> {
    match p {
        Priority::Low => "Low"@,
        Priority::Medium => "Medium"@,
        Priority::High => "High"@,
    }
}

/// The priority that a stored name stands for; any other name reads as `Medium`.
pub open spec fn priority_from_name(s: Seq<char>) -> Priority {
    if s == "Low"@ {
        Priority::Low
    } else if s == "High"@ {
        Priority::High
    } else {
        Priority::Medium
    }
}

/// The symbol shown beside a priority.
pub open spec fn priority_emoji(p: Priority) -> Seq<char> {
    match p {
        Priority::Low => "🟢"@,
        Priority::Medium => "🟡"@,
        Priority::High => "🔴"@,
    }
}

/// The label shown for a priority.
pub open spec fn priority_label(p: Priority) -> Seq<char> {
    match p {
        Priority::Low => "低"@,
        Priority::Medium => "中"@,
        Priority::High => "高"@,
    }
}

impl Priority {
    /// Reads a stored priority name; an unknown name reads as `Medium`.
    pub fn from_str(s: &str) -> (r: Priority)
        ensures
            r == priority_from_name(s@),
    {
        if str_equals(s, "Low") {
            Priority::Low
        } else if str_equals(s, "High") {
            Priority::High
        } else {
            Priority::Medium
        }
    }

    /// The name under which the priority is stored.
    pub fn as_str(&self) -> (r: &'static str)
        ensures
            r@ == priority_name(*self),
    {
        match self {
            Priority::Low => "Low",
            Priority::Medium => "Medium",
            Priority::High => "High",
        }
    }

    pub fn emoji(&self) -> (r: &'static str)
        ensures
            r@ == priority_emoji(*self),
    {
        match self {
            Priority::Low => "🟢",
            Priority::Medium => "🟡",
            Priority::High => "🔴",
        }
    }

    pub fn display(&self) -> (r: &'static str)
        ensures
            r@ == priority_label(*self),
    {
        match self {
            Priority::Low => "低",
            Priority::Medium => "中",
            Priority::High => "高",
        }
    }
}

/// A reminder of a task: seconds before the due date, and whether it was sent.
pub type ReminderEntry = (i64, bool);

/// A task as the bot shows it.
#[derive(Debug, Clone)]
pub struct Task {
    pub id: i64,
    pub user_id: String,
    pub guild_id: String,
    pub title: String,
    pub description: Option<String>,
    pub status: TaskStatus,
    pub priority: Priority,
    pub due_date: Option<String>,
    pub created_at: String,
    pub channel_id: Option<String>,
    /// The task's reminders, by seconds before the due date, ascending.
    pub reminders: Vec<ReminderEntry>,
    /// The Discord scheduled event made for the task, if any.
    pub discord_event_id: Option<String>,
}

/// A reminder not yet sent, with what it takes to send it.
#[derive(Debug, Clone)]
pub struct PendingReminder {
    pub reminder_id: i64,
    pub task_id: i64,
    pub user_id: String,
    pub title: String,
    pub channel_id: String,
    pub due_date: String,
    pub remind_before: i64,
}

/// Reading back the name under which a status is stored gives the status.
pub proof fn law_status_name_round_trip(s: TaskStatus)
    ensures
        status_from_name(status_name(s)) == s,
{
    reveal_strlit("Pending");
    reveal_strlit("InProgress");
    reveal_strlit("Done");
    assert("Pending"@.len() != "InProgress"@.len());
    assert("Pending"@.len() != "Done"@.len());
    assert("Done"@.len() != "InProgress"@.len());
}

/// Reading back the name under which a priority is stored gives the priority.
pub proof fn law_priority_name_round_trip(p: Priority)
    ensures
        priority_from_name(priority_name(p)) == p,
{
    reveal_strlit("Low");
    reveal_strlit("Medium");
    reveal_strlit("High");
    assert("Medium"@.len() != "Low"@.len());
    assert("Medium"@.len() != "High"@.len());
    assert("High"@.len() != "Low"@.len());
}

/// Each status is stored under its own name, and a stored name that is none
/// of them reads as `Pending`.
pub proof fn law_status_names(s: TaskStatus, n: Seq<char>)
    ensures
        s == TaskStatus::Pending ==> status_name(s) == "Pending"@,
        s == TaskStatus::InProgress ==> status_name(s) == "InProgress"@,
        s == TaskStatus::Done ==> status_name(s) == "Done"@,
        n != "InProgress"@ && n != "Done"@ ==> status_from_name(n) == TaskStatus::Pending,
        status_from_name(n) != TaskStatus::Pending ==> n == status_name(status_from_name(n)),
{
}

/// Each priority is stored under its own name, and a stored name that is
/// none of them reads as `Medium`.
pub proof fn law_priority_names(p: Priority, n: Seq<char>)
    ensures
        p == Priority::Low ==> priority_name(p) == "Low"@,
        p == Priority::Medium ==> priority_name(p) == "Medium"@,
        p == Priority::High ==> priority_name(p) == "High"@,
        n != "Low"@ && n != "High"@ ==> priority_from_name(n) == Priority::Medium,
        priority_from_name(n) != Priority::Medium ==> n == priority_name(priority_from_name(n)),
{
}

} // verus!
