use discord_task_bot::models::{Priority, TaskStatus};
use discord_task_bot::rows::{parse_reminders, row_to_task, TaskRow};

#[test]
fn stored_reminders_read_back_sorted() {
    assert_eq!(parse_reminders(None), vec![]);
    assert_eq!(parse_reminders(Some(String::new())), vec![]);
    assert_eq!(parse_reminders(Some("1800:0".to_string())), vec![(1800, false)]);
    assert_eq!(
        parse_reminders(Some("86400:1,1800:0,3600:2".to_string())),
        vec![(1800, false), (3600, true), (86400, true)]
    );
}

#[test]
fn unreadable_pieces_are_skipped() {
    assert_eq!(
        parse_reminders(Some("x:0,3600,,7200:1:1,-60:0,5:y,10:+3".to_string())),
        vec![(-60, false), (10, true)]
    );
    assert_eq!(parse_reminders(Some(",".to_string())), vec![]);
}

#[test]
fn equal_offsets_keep_their_order() {
    assert_eq!(
        parse_reminders(Some("60:1,30:0,60:0,30:1".to_string())),
        vec![(30, false), (30, true), (60, true), (60, false)]
    );
}

#[test]
fn rows_become_tasks() {
    let row = TaskRow {
        id: 7,
        user_id: "42".to_string(),
        guild_id: "99".to_string(),
        title: "write report".to_string(),
        description: None,
        status: "InProgress".to_string(),
        priority: "bogus".to_string(),
        due_date: Some("2025-12-31 15:00".to_string()),
        created_at: "2025-01-01 00:00:00 UTC".to_string(),
        channel_id: Some("123".to_string()),
        reminders_data: Some("3600:0,1800:1".to_string()),
        discord_event_id: None,
    };
    let t = row_to_task(row);
    assert_eq!(t.id, 7);
    assert_eq!(t.user_id, "42");
    assert_eq!(t.guild_id, "99");
    assert_eq!(t.title, "write report");
    assert_eq!(t.status, TaskStatus::InProgress);
    assert_eq!(t.priority, Priority::Medium);
    assert_eq!(t.due_date.as_deref(), Some("2025-12-31 15:00"));
    assert_eq!(t.channel_id.as_deref(), Some("123"));
    assert_eq!(t.reminders, vec![(1800, true), (3600, false)]);
    assert_eq!(t.discord_event_id, None);
}

#[test]
fn written_reminders_read_back() {
    let written: Vec<(i64, i64)> = vec![(86400, 0), (-1800, 1), (3600, 1), (86400, 1), (i64::MIN, 0), (i64::MAX, 7)];
    let column = written
        .iter()
        .map(|(s, f)| format!("{}:{}", s, f))
        .collect::<Vec<_>>()
        .join(",");
    let mut expected: Vec<(i64, bool)> = written.iter().map(|(s, f)| (*s, *f != 0)).collect();
    expected.sort_by_key(|(s, _)| *s);
    assert_eq!(parse_reminders(Some(column)), expected);
}
