use vstd::prelude::*;

use crate::models::{Priority, TaskStatus, priority_name, status_name};

verus! {

/// The priority a user picks for a task.
#[derive(Debug, Clone, Copy, PartialEq, Eq, Structural)]
pub enum PriorityChoice {
    Low,
    Medium,
    High,
}

/// Which tasks a listing shows.
#[derive(Debug, Clone, Copy, PartialEq, Eq, Structural)]
pub enum StatusFilterChoice {
    All,
    Pending,
    InProgress,
    Done,
}

/// The status a user moves a task to.
#[derive(Debug, Clone, Copy, PartialEq, Eq, Structural)]
pub enum StatusUpdateChoice {
    Pending,
    InProgress,
    Done,
}

/// How long before the due date a reminder goes out.
#[derive(Debug, Clone, Copy, PartialEq, Eq, Structural)]
pub enum RemindChoice {
    ThirtyMin,
    OneHour,
    ThreeHours,
    OneDay,
    ThreeDays,
    OneWeek,
}

/// The priority that a choice stands for.
pub open spec fn priority_of_choice(c: PriorityChoice) -> Priority {
    match c {
        PriorityChoice::Low => Priority::Low,
        PriorityChoice::Medium => Priority::Medium,
        PriorityChoice::High => Priority::High,
    }
}

/// The status that a choice stands for.
pub open spec fn status_of_choice(c: StatusUpdateChoice) -> TaskStatus {
    match c {
        StatusUpdateChoice::Pending => TaskStatus::Pending,
        StatusUpdateChoice::InProgress => TaskStatus::InProgress,
        StatusUpdateChoice::Done => TaskStatus::Done,
    }
}

/// The status that a listing filter keeps, or `None` for every task.
pub open spec fn filter_status(c: Option<StatusFilterChoice>) -> Option<TaskStatus> {
    match c {
        None => None,
        Some(StatusFilterChoice::All) => None,
        Some(StatusFilterChoice::Pending) => Some(TaskStatus::Pending),
        Some(StatusFilterChoice::InProgress) => Some(TaskStatus::InProgress),
        Some(StatusFilterChoice::Done) => Some(TaskStatus::Done),
    }
}

/// Seconds before the due date at which a reminder choice fires.
pub open spec fn remind_seconds(c: RemindChoice) -> i64 {
    match c {
        RemindChoice::ThirtyMin => 1800,
        RemindChoice::OneHour => 3600,
        RemindChoice::ThreeHours => 10800,
        RemindChoice::OneDay => 86400,
        RemindChoice::ThreeDays => 259200,
        RemindChoice::OneWeek => 604800,
    }
}

/// The name under which a reminder choice is offered to users.
pub open spec fn remind_choice_name(c: RemindChoice) -> Seq<char> {
    match c {
        RemindChoice::ThirtyMin => "30分前"@,
        RemindChoice::OneHour => "1時間前"@,
        RemindChoice::ThreeHours => "3時間前"@,
        RemindChoice::OneDay => "1日前"@,
        RemindChoice::ThreeDays => "3日前"@,
        RemindChoice::OneWeek => "1週間前"@,
    }
}

impl RemindChoice {
    /// Seconds before the due date at which the reminder fires.
    pub fn to_seconds(&self) -> (r: i64)
        ensures
            r == remind_seconds(*self),
    {
        match self {
            RemindChoice::ThirtyMin => 30 * 60,
            RemindChoice::OneHour => 3600,
            RemindChoice::ThreeHours => 3 * 3600,
            RemindChoice::OneDay => 24 * 3600,
            RemindChoice::ThreeDays => 3 * 24 * 3600,
            RemindChoice::OneWeek => 7 * 24 * 3600,
        }
    }
}

impl From<PriorityChoice> for Priority {
    fn from(c: PriorityChoice) -> (r: Priority) {
        match c {
            PriorityChoice::Low => Priority::Low,
            PriorityChoice::Medium => Priority::Medium,
            PriorityChoice::High => Priority::High,
        }
    }
}

impl vstd::std_specs::convert::FromSpecImpl<PriorityChoice> for Priority {
    open spec fn obeys_from_spec() -> bool {
        true
    }

    open spec fn from_spec(v: PriorityChoice) -> Priority {
        priority_of_choice(v)
    }
}

impl From<StatusUpdateChoice> for TaskStatus {
    fn from(c: StatusUpdateChoice) -> (r: TaskStatus) {
        match c {
            StatusUpdateChoice::Pending => TaskStatus::Pending,
            StatusUpdateChoice::InProgress => TaskStatus::InProgress,
            StatusUpdateChoice::Done => TaskStatus::Done,
        }
    }
}

impl vstd::std_specs::convert::FromSpecImpl<StatusUpdateChoice> for TaskStatus {
    open spec fn obeys_from_spec() -> bool {
        true
    }

    open spec fn from_spec(v: StatusUpdateChoice) -> TaskStatus {
        status_of_choice(v)
    }
}

/// The status that a listing filter keeps, or `None` to list every task.
pub fn status_filter(c: Option<StatusFilterChoice>) -> (r: Option<TaskStatus>)
    ensures
        r == filter_status(c),
{
    match c {
        None => None,
        Some(StatusFilterChoice::All) => None,
        Some(StatusFilterChoice::Pending) => Some(TaskStatus::Pending),
        Some(StatusFilterChoice::InProgress) => Some(TaskStatus::InProgress),
        Some(StatusFilterChoice::Done) => Some(TaskStatus::Done),
    }
}

/// The priority of a new task: the chosen one, `Medium` when none was chosen.
pub fn priority_or_default(c: Option<PriorityChoice>) -> (r: Priority)
    ensures
        r == (match c {
            Some(p) => priority_of_choice(p),
            None => Priority::Medium,
        }),
{
    match c {
        Some(p) => Priority::from(p),
        None => Priority::Medium,
    }
}

/// The reminder choices fire at strictly increasing times before the due date,
/// in the order in which they are offered, and all strictly before it.
pub proof fn law_remind_choices_ordered()
    ensures
        0 < remind_seconds(RemindChoice::ThirtyMin),
        remind_seconds(RemindChoice::ThirtyMin) < remind_seconds(RemindChoice::OneHour),
        remind_seconds(RemindChoice::OneHour) < remind_seconds(RemindChoice::ThreeHours),
        remind_seconds(RemindChoice::ThreeHours) < remind_seconds(RemindChoice::OneDay),
        remind_seconds(RemindChoice::OneDay) < remind_seconds(RemindChoice::ThreeDays),
        remind_seconds(RemindChoice::ThreeDays) < remind_seconds(RemindChoice::OneWeek),
{
}

/// The status a user moves a task to is the status of the same name: each
/// choice sets its own status, and distinct choices set distinct statuses.
pub proof fn law_status_choice_sets_that_status(c: StatusUpdateChoice, c2: StatusUpdateChoice)
    ensures
        c == StatusUpdateChoice::Pending ==> status_of_choice(c) == TaskStatus::Pending,
        c == StatusUpdateChoice::InProgress ==> status_of_choice(c) == TaskStatus::InProgress,
        c == StatusUpdateChoice::Done ==> status_of_choice(c) == TaskStatus::Done,
        c == StatusUpdateChoice::Pending ==> status_name(status_of_choice(c)) == "Pending"@,
        c == StatusUpdateChoice::InProgress ==> status_name(status_of_choice(c)) == "InProgress"@,
        c == StatusUpdateChoice::Done ==> status_name(status_of_choice(c)) == "Done"@,
        status_of_choice(c) == status_of_choice(c2) ==> c == c2,
{
}

/// The priority a user picks is the priority of the same name, and distinct
/// choices give distinct priorities.
pub proof fn law_priority_choice_gives_that_priority(c: PriorityChoice, c2: PriorityChoice)
    ensures
        c == PriorityChoice::Low ==> priority_of_choice(c) == Priority::Low,
        c == PriorityChoice::Medium ==> priority_of_choice(c) == Priority::Medium,
        c == PriorityChoice::High ==> priority_of_choice(c) == Priority::High,
        c == PriorityChoice::Low ==> priority_name(priority_of_choice(c)) == "Low"@,
        c == PriorityChoice::Medium ==> priority_name(priority_of_choice(c)) == "Medium"@,
        c == PriorityChoice::High ==> priority_name(priority_of_choice(c)) == "High"@,
        priority_of_choice(c) == priority_of_choice(c2) ==> c == c2,
{
}

/// A listing filter keeps exactly the status it is named after; "all" and no
/// filter keep every status; distinct filters keep distinct statuses.
pub proof fn law_filter_keeps_that_status(c: StatusFilterChoice, c2: StatusFilterChoice)
    ensures
        filter_status(None) is None,
        c == StatusFilterChoice::All <==> filter_status(Some(c)) is None,
        c == StatusFilterChoice::Pending ==> filter_status(Some(c)) == Some(TaskStatus::Pending),
        c == StatusFilterChoice::InProgress ==> filter_status(Some(c)) == Some(
            TaskStatus::InProgress,
        ),
        c == StatusFilterChoice::Done ==> filter_status(Some(c)) == Some(TaskStatus::Done),
        c == StatusFilterChoice::Pending ==> status_name(filter_status(Some(c))->0) == "Pending"@,
        c == StatusFilterChoice::InProgress ==> status_name(filter_status(Some(c))->0)
            == "InProgress"@,
        c == StatusFilterChoice::Done ==> status_name(filter_status(Some(c))->0) == "Done"@,
        filter_status(Some(c)) == filter_status(Some(c2)) ==> c == c2,
{
}

/// Each reminder choice fires the span it is named after, in seconds.
pub proof fn law_remind_seconds_match_names(c: RemindChoice)
    ensures
        c == RemindChoice::ThirtyMin ==> remind_seconds(c) == 30 * 60,
        c == RemindChoice::OneHour ==> remind_seconds(c) == 60 * 60,
        c == RemindChoice::ThreeHours ==> remind_seconds(c) == 3 * 60 * 60,
        c == RemindChoice::OneDay ==> remind_seconds(c) == 24 * 60 * 60,
        c == RemindChoice::ThreeDays ==> remind_seconds(c) == 3 * 24 * 60 * 60,
        c == RemindChoice::OneWeek ==> remind_seconds(c) == 7 * 24 * 60 * 60,
{
}

} // verus!
