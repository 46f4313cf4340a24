use vstd::prelude::*;

use crate::choices::{PriorityChoice, RemindChoice, priority_of_choice};
use crate::models::{Priority, priority_from_name, priority_name};
use crate::reminders::{collect_reminders, is_reminder_list};

verus! {

/// The fields of a stored task that an edit can change, as stored.
pub struct StoredFields {
    pub title: String,
    pub description: Option<String>,
    /// The stored priority name.
    pub priority: String,
    pub due_date: Option<String>,
}

/// What an edit asks for: each field given replaces the stored one.
pub struct TaskEdit {
    pub title: Option<String>,
    pub description: Option<String>,
    pub priority: Option<Priority>,
    pub due_date: Option<String>,
    /// `None` keeps the reminders; `Some` replaces them all (empty: removes them).
    pub reminders: Option<Vec<i64>>,
}

/// What becomes of a task's reminders in an edit.
pub enum ReminderUpdate {
    /// Remove all reminders and set these, none of them sent.
    Replace(Vec<i64>),
    /// Keep the reminders but mark them all as not sent.
    ResetSent,
    /// Leave the reminders as they are.
    Keep,
}

/// The fields that an edit writes back, and what becomes of the reminders.
pub struct EditPlan {
    pub title: String,
    pub description: Option<String>,
    pub priority: String,
    pub due_date: Option<String>,
    pub reminders: ReminderUpdate,
}

/// Whether an edit moves the due date: a new one is given that differs from
/// the stored one, or none was stored.
pub open spec fn due_changed(new_due: Option<String>, stored: Option<String>) -> bool {
    match new_due {
        None => false,
        Some(d) => match stored {
            None => true,
            Some(c) => d@ != c@,
        },
    }
}

/// What an edit writes: each given field replaces the stored one; given
/// reminders replace all reminders; a moved due date marks every reminder
/// as not sent; else the reminders stay.
pub open spec fn edit_plan(cur: StoredFields, e: TaskEdit, p: EditPlan) -> bool {
    &&& p.title == (match e.title {
        Some(t) => t,
        None => cur.title,
    })
    &&& p.description == (match e.description {
        Some(d) => Some(d),
        None => cur.description,
    })
    &&& p.priority@ == (match e.priority {
        Some(pr) => priority_name(pr),
        None => cur.priority@,
    })
    &&& p.due_date == (match e.due_date {
        Some(d) => Some(d),
        None => cur.due_date,
    })
    &&& match e.reminders {
        Some(v) => p.reminders matches ReminderUpdate::Replace(w) && w@ == v@,
        None => if due_changed(e.due_date, cur.due_date) {
            p.reminders is ResetSent
        } else {
            p.reminders is Keep
        },
    }
}

/// Works out what an edit writes back to a stored task.
pub fn plan_edit(cur: StoredFields, e: TaskEdit) -> (p: EditPlan)
    ensures
        edit_plan(cur, e, p),
{
    let moved = match &e.due_date {
        None => false,
        Some(d) => match &cur.due_date {
            None => true,
            Some(c) => !(*d == *c),
        },
    };
    let reminders = match e.reminders {
        Some(v) => ReminderUpdate::Replace(v),
        None => if moved {
            ReminderUpdate::ResetSent
        } else {
            ReminderUpdate::Keep
        },
    };
    let title = match e.title {
        Some(t) => t,
        None => cur.title,
    };
    let description = match e.description {
        Some(d) => Some(d),
        None => cur.description,
    };
    let priority = match e.priority {
        Some(pr) => String::from_str(pr.as_str()),
        None => cur.priority,
    };
    let due_date = match e.due_date {
        Some(d) => Some(d),
        None => cur.due_date,
    };
    EditPlan { title, description, priority, due_date, reminders }
}

/// What an edit request asks for once checked.
pub enum EditRequest {
    /// No field was given; the request is refused.
    NothingToChange,
    /// Go ahead; `reminders` is `Some` when any reminder was picked.
    Apply { priority: Option<Priority>, reminders: Option<Vec<i64>> },
}

/// Checks an edit request: at least one field or reminder must be given;
/// picking any reminder replaces all of them with the picked ones.
pub fn check_edit_request(
    has_title: bool,
    has_description: bool,
    priority: Option<PriorityChoice>,
    has_due_date: bool,
    r1: Option<RemindChoice>,
    r2: Option<RemindChoice>,
    r3: Option<RemindChoice>,
) -> (r: EditRequest)
    ensures
        (!has_title && !has_description && priority is None && !has_due_date && r1 is None
            && r2 is None && r3 is None) <==> r is NothingToChange,
        r matches EditRequest::Apply { priority: p, reminders: rs } ==> {
            &&& p == (match priority {
                Some(c) => Some(priority_of_choice(c)),
                None => None,
            })
            &&& (rs is Some <==> (r1 is Some || r2 is Some || r3 is Some))
            &&& (rs matches Some(v) ==> is_reminder_list(v@, r1, r2, r3))
        },
{
    let remind_changed = r1.is_some() || r2.is_some() || r3.is_some();
    if !has_title && !has_description && priority.is_none() && !has_due_date && !remind_changed {
        return EditRequest::NothingToChange;
    }
    let p = match priority {
        Some(c) => Some(Priority::from(c)),
        None => None,
    };
    let reminders = if remind_changed {
        Some(collect_reminders(r1, r2, r3))
    } else {
        None
    };
    EditRequest::Apply { priority: p, reminders }
}

/// Giving the stored due date again does not mark the reminders as unsent.
pub proof fn law_same_due_keeps_reminders(cur: StoredFields, e: TaskEdit, p: EditPlan)
    requires
        edit_plan(cur, e, p),
        e.reminders is None,
        e.due_date matches Some(d) && cur.due_date matches Some(c) && d@ == c@,
    ensures
        p.reminders is Keep,
{
}

/// An edit that gives no field writes back what was stored and keeps the reminders.
pub proof fn law_empty_edit_changes_nothing(cur: StoredFields, e: TaskEdit, p: EditPlan)
    requires
        edit_plan(cur, e, p),
        e.title is None,
        e.description is None,
        e.priority is None,
        e.due_date is None,
        e.reminders is None,
    ensures
        p.title == cur.title,
        p.description == cur.description,
        p.priority@ == cur.priority@,
        p.due_date == cur.due_date,
        p.reminders is Keep,
{
}

/// Each field given in an edit is what gets written, whatever was stored;
/// each field not given keeps the stored value.
pub proof fn law_given_fields_replace(cur: StoredFields, e: TaskEdit, p: EditPlan)
    requires
        edit_plan(cur, e, p),
    ensures
        e.title matches Some(t) ==> p.title == t,
        e.title is None ==> p.title == cur.title,
        e.description matches Some(d) ==> p.description == Some(d),
        e.description is None ==> p.description == cur.description,
        e.due_date matches Some(d) ==> p.due_date == Some(d),
        e.due_date is None ==> p.due_date == cur.due_date,
        e.priority matches Some(pr) ==> priority_from_name(p.priority@) == pr,
        e.priority == Some(Priority::Low) ==> p.priority@ == "Low"@,
        e.priority == Some(Priority::Medium) ==> p.priority@ == "Medium"@,
        e.priority == Some(Priority::High) ==> p.priority@ == "High"@,
        e.priority is None ==> p.priority@ == cur.priority@,
{
    crate::models::law_priority_name_round_trip(Priority::Low);
    crate::models::law_priority_name_round_trip(Priority::Medium);
    crate::models::law_priority_name_round_trip(Priority::High);
}

/// Given reminders replace all reminders; without them, a new due date that
/// differs from the stored one (or where none was stored) marks every
/// reminder unsent, and anything else leaves the reminders as they are.
pub proof fn law_reminders_after_edit(cur: StoredFields, e: TaskEdit, p: EditPlan)
    requires
        edit_plan(cur, e, p),
    ensures
        e.reminders matches Some(v) ==> (p.reminders matches ReminderUpdate::Replace(w) && w@ == v@),
        (e.reminders is None && e.due_date is Some && (cur.due_date is None
            || cur.due_date->0@ != e.due_date->0@)) ==> p.reminders is ResetSent,
        (e.reminders is None && e.due_date is None) ==> p.reminders is Keep,
        (e.reminders is None && e.due_date is Some && cur.due_date is Some && cur.due_date->0@
            == e.due_date->0@) ==> p.reminders is Keep,
{
}

} // verus!
