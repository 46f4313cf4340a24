use discord_task_bot::models::PendingReminder;
use discord_task_bot::notify::{check_reminder, plan_reminder, reminder_content, ReminderAction};

fn reminder(channel: &str, due: &str, before: i64) -> PendingReminder {
    PendingReminder {
        reminder_id: 1,
        task_id: 2,
        user_id: "42".to_string(),
        title: "report".to_string(),
        channel_id: channel.to_string(),
        due_date: due.to_string(),
        remind_before: before,
    }
}

#[test]
fn reminder_message_text() {
    let r = reminder("5", "2025-12-31 15:00", 3600);
    assert_eq!(
        reminder_content(&r),
        "⏰ **タスクリマインダー**\n<@42> タスク「**report**」の期限**1時間前**です！\n📅 期限: `2025-12-31 15:00`"
    );
}

#[test]
fn reminders_wait_for_their_time() {
    let r = reminder("5", "2025-12-31 15:00", 3600);
    let due = 1767193200;
    assert!(matches!(plan_reminder(&r, Some(due), due - 3601), ReminderAction::NotYet));
    match plan_reminder(&r, Some(due), due - 3600) {
        ReminderAction::Send { channel_id, content } => {
            assert_eq!(channel_id, 5);
            assert_eq!(content, reminder_content(&r));
        }
        other => panic!("unexpected {:?}", other),
    }
    assert!(matches!(plan_reminder(&r, Some(due), due + 10), ReminderAction::Send { .. }));
    assert!(matches!(plan_reminder(&r, None, due), ReminderAction::BadDueDate));
}

#[test]
fn reminders_need_a_channel() {
    let due = 1767193200;
    for ch in ["0", "", "abc", "-3", "18446744073709551616"] {
        let r = reminder(ch, "2025-12-31 15:00", 60);
        assert!(matches!(plan_reminder(&r, Some(due), due), ReminderAction::NoChannel), "{:?}", ch);
    }
    let r = reminder("+7", "2025-12-31 15:00", 60);
    assert!(matches!(plan_reminder(&r, Some(due), due), ReminderAction::Send { channel_id: 7, .. }));
}

#[test]
fn reminders_read_their_due_date() {
    let r = reminder("5", "2025-12-31 15:00", 1800);
    assert!(matches!(check_reminder(&r, 1767191399), ReminderAction::NotYet));
    assert!(matches!(check_reminder(&r, 1767191400), ReminderAction::Send { .. }));
    let bad = reminder("5", "someday", 1800);
    assert!(matches!(check_reminder(&bad, 1767191400), ReminderAction::BadDueDate));
}
