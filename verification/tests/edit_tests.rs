use discord_task_bot::choices::{PriorityChoice, RemindChoice};
use discord_task_bot::edit::{check_edit_request, plan_edit, EditRequest, ReminderUpdate, StoredFields, TaskEdit};
use discord_task_bot::models::Priority;

fn stored() -> StoredFields {
    StoredFields {
        title: "old".to_string(),
        description: Some("desc".to_string()),
        priority: "Low".to_string(),
        due_date: Some("2025-12-31".to_string()),
    }
}

fn no_edit() -> TaskEdit {
    TaskEdit { title: None, description: None, priority: None, due_date: None, reminders: None }
}

#[test]
fn given_fields_replace_stored_ones() {
    let p = plan_edit(stored(), TaskEdit {
        title: Some("new".to_string()),
        priority: Some(Priority::High),
        ..no_edit()
    });
    assert_eq!(p.title, "new");
    assert_eq!(p.description.as_deref(), Some("desc"));
    assert_eq!(p.priority, "High");
    assert_eq!(p.due_date.as_deref(), Some("2025-12-31"));
    assert!(matches!(p.reminders, ReminderUpdate::Keep));
}

#[test]
fn an_empty_edit_keeps_everything() {
    let p = plan_edit(stored(), no_edit());
    assert_eq!(p.title, "old");
    assert_eq!(p.priority, "Low");
    assert!(matches!(p.reminders, ReminderUpdate::Keep));
}

#[test]
fn a_moved_due_date_resets_reminders() {
    let p = plan_edit(stored(), TaskEdit { due_date: Some("2026-01-01".to_string()), ..no_edit() });
    assert_eq!(p.due_date.as_deref(), Some("2026-01-01"));
    assert!(matches!(p.reminders, ReminderUpdate::ResetSent));
    let same = plan_edit(stored(), TaskEdit { due_date: Some("2025-12-31".to_string()), ..no_edit() });
    assert!(matches!(same.reminders, ReminderUpdate::Keep));
    let none_before = plan_edit(
        StoredFields { due_date: None, ..stored() },
        TaskEdit { due_date: Some(String::new()), ..no_edit() },
    );
    assert!(matches!(none_before.reminders, ReminderUpdate::ResetSent));
}

#[test]
fn given_reminders_replace_all() {
    let p = plan_edit(stored(), TaskEdit {
        due_date: Some("2026-01-01".to_string()),
        reminders: Some(vec![60]),
        ..no_edit()
    });
    match p.reminders {
        ReminderUpdate::Replace(v) => assert_eq!(v, vec![60]),
        _ => panic!("reminders were not replaced"),
    }
    let cleared = plan_edit(stored(), TaskEdit { reminders: Some(vec![]), ..no_edit() });
    assert!(matches!(cleared.reminders, ReminderUpdate::Replace(ref v) if v.is_empty()));
}

#[test]
fn edit_requests_need_a_change() {
    assert!(matches!(
        check_edit_request(false, false, None, false, None, None, None),
        EditRequest::NothingToChange
    ));
    match check_edit_request(false, false, Some(PriorityChoice::High), false, None, None, None) {
        EditRequest::Apply { priority, reminders } => {
            assert_eq!(priority, Some(Priority::High));
            assert!(reminders.is_none());
        }
        _ => panic!("request refused"),
    }
    match check_edit_request(false, false, None, false, None, Some(RemindChoice::OneWeek), Some(RemindChoice::OneHour)) {
        EditRequest::Apply { priority, reminders } => {
            assert_eq!(priority, None);
            assert_eq!(reminders, Some(vec![3600, 604800]));
        }
        _ => panic!("request refused"),
    }
}
