use discord_task_bot::messages::{
    added_task_fields, check_add_request, deleted_message, edited_message, event_url, guild_number,
    guild_only_message, help_fields, list_footer, no_tasks_message, nothing_to_change_message, not_found_message, now_message, status_colour,
    status_updated_message, task_list_entry, task_view_fields, task_view_title, AddRejection,
    EmbedField,
};
use discord_task_bot::models::{Priority, Task, TaskStatus};

fn texts(v: &[EmbedField]) -> Vec<(String, String, bool)> {
    v.iter().map(|f| (f.name.clone(), f.value.clone(), f.inline)).collect()
}

fn task() -> Task {
    Task {
        id: 3,
        user_id: "42".to_string(),
        guild_id: "99".to_string(),
        title: "report".to_string(),
        description: None,
        status: TaskStatus::InProgress,
        priority: Priority::High,
        due_date: Some("2025-12-31 15:00".to_string()),
        created_at: "2025-01-01 00:00:00 UTC".to_string(),
        channel_id: Some("5".to_string()),
        reminders: vec![(1800, true), (3600, false)],
        discord_event_id: Some("77".to_string()),
    }
}

#[test]
fn now_shows_discord_timestamps() {
    assert_eq!(now_message(1700000000), "🕐 **現在時刻**\n日時: <t:1700000000:F>\n相対: <t:1700000000:R>");
}

#[test]
fn add_requests_need_a_due_date_for_reminders_and_events() {
    assert_eq!(check_add_request(&[1800], false, None), Some(AddRejection::RemindersNeedDueDate));
    assert_eq!(check_add_request(&[1800], false, Some(true)), Some(AddRejection::RemindersNeedDueDate));
    assert_eq!(check_add_request(&[], false, Some(true)), Some(AddRejection::EventNeedsDueDate));
    assert_eq!(check_add_request(&[], false, Some(false)), None);
    assert_eq!(check_add_request(&[1800], true, Some(true)), None);
    assert_eq!(
        AddRejection::RemindersNeedDueDate.message(),
        "リマインダーを設定するには期限 (due_date) も指定してください。"
    );
    assert_eq!(AddRejection::EventNeedsDueDate.message(), "イベントを作成するには期限 (due_date) も指定してください。");
}

#[test]
fn added_task_embed() {
    let f = added_task_fields(12, "report", Priority::Medium, &None, &Some("2025-12-31".to_string()), &[1800, 86400], &Some("https://discord.com/events/9/8".to_string()));
    assert_eq!(texts(&f), vec![
        ("ID".to_string(), "12".to_string(), true),
        ("タイトル".to_string(), "report".to_string(), true),
        ("優先度".to_string(), "🟡 中".to_string(), true),
        ("説明".to_string(), "なし".to_string(), false),
        ("期限".to_string(), "2025-12-31".to_string(), true),
        ("リマインダー".to_string(), "⏰ 30分前\n⏰ 1日前".to_string(), true),
        ("イベント".to_string(), "[Discord イベント](https://discord.com/events/9/8)".to_string(), false),
    ]);
    let g = added_task_fields(1, "t", Priority::Low, &Some("d".to_string()), &None, &[], &None);
    assert_eq!(g.len(), 6);
    assert_eq!(g[3].value, "d");
    assert_eq!(g[4].value, "未設定");
    assert_eq!(g[5].value, "なし");
}

#[test]
fn list_lines() {
    let t = task();
    let e = task_list_entry(&t);
    assert_eq!(e.name, "[3] ⏰ report");
    assert_eq!(e.value, "🔄 🔴 | <@42> | 期限: 2025-12-31 15:00");
    assert!(!e.inline);
    let done = Task { reminders: vec![(1800, true)], due_date: None, ..task() };
    let e = task_list_entry(&done);
    assert_eq!(e.name, "[3] report");
    assert_eq!(e.value, "🔄 🔴 | <@42> | 期限: 未設定 ✔");
    let none = Task { reminders: vec![], ..task() };
    assert_eq!(task_list_entry(&none).value, "🔄 🔴 | <@42> | 期限: 2025-12-31 15:00");
    assert_eq!(list_footer(4), "合計: 4 件");
}

#[test]
fn task_detail_view() {
    assert_eq!(task_view_title(3), "📌 タスク #3");
    assert_eq!(status_colour(TaskStatus::Pending), 0xF1C40F);
    assert_eq!(status_colour(TaskStatus::InProgress), 0x3498DB);
    assert_eq!(status_colour(TaskStatus::Done), 0x2ECC71);
    let f = task_view_fields(&task(), "99");
    assert_eq!(texts(&f), vec![
        ("タイトル".to_string(), "report".to_string(), false),
        ("ステータス".to_string(), "🔄 進行中".to_string(), true),
        ("優先度".to_string(), "🔴 高".to_string(), true),
        ("説明".to_string(), "なし".to_string(), false),
        ("期限".to_string(), "2025-12-31 15:00".to_string(), true),
        ("作成者".to_string(), "<@42>".to_string(), true),
        ("リマインダー".to_string(), "~~⏰ 30分前~~ ✔\n⏰ 1時間前".to_string(), true),
        ("作成日時".to_string(), "2025-01-01 00:00:00 UTC".to_string(), true),
        ("イベント".to_string(), "[Discord イベント](https://discord.com/events/99/77)".to_string(), false),
    ]);
}

#[test]
fn replies_naming_a_task() {
    assert_eq!(not_found_message(5), "タスク #5 が見つかりません。");
    assert_eq!(status_updated_message(5, TaskStatus::Done), "タスク #5 のステータスを ✅ 完了 に更新しました！");
    assert_eq!(edited_message(5), "✏️ タスク #5 を更新しました！");
    assert_eq!(deleted_message(-1), "🗑️ タスク #-1 を削除しました。");
}

#[test]
fn server_ids_and_event_links() {
    assert_eq!(event_url("9", "8"), "https://discord.com/events/9/8");
    assert_eq!(guild_number("123"), 123);
    assert_eq!(guild_number("abc"), 0);
    assert_eq!(guild_number(""), 0);
}

#[test]
fn help_lists_every_command() {
    let f = help_fields();
    let names: Vec<&str> = f.iter().map(|x| x.name.as_str()).collect();
    assert_eq!(names, vec!["/task add", "/task list", "/task view", "/task status", "/task edit", "/task delete", "/now", "期限の書式"]);
    assert!(f.iter().all(|x| !x.inline));
    assert_eq!(f[2].value, "タスクの詳細を表示する\n`id` タスクID（必須）");
    assert_eq!(f[7].value, "`YYYY-MM-DD HH:MM` （例: `2025-12-31 09:00`）\n時刻を省略すると `00:00` 扱い");
}

#[test]
fn refusal_replies() {
    assert_eq!(guild_only_message(), "このコマンドはサーバー内でのみ使用できます。");
    assert_eq!(no_tasks_message(), "タスクはありません。`/task add` でタスクを追加してください。");
    assert_eq!(nothing_to_change_message(), "変更する項目を少なくとも1つ指定してください。");
}
