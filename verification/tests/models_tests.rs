use discord_task_bot::choices::{
    priority_or_default, status_filter, PriorityChoice, RemindChoice, StatusFilterChoice,
    StatusUpdateChoice,
};
use discord_task_bot::models::{Priority, TaskStatus};

#[test]
fn status_names_read_back() {
    for s in [TaskStatus::Pending, TaskStatus::InProgress, TaskStatus::Done] {
        assert_eq!(TaskStatus::from_str(s.as_str()), s);
    }
    assert_eq!(TaskStatus::from_str("InProgress"), TaskStatus::InProgress);
    assert_eq!(TaskStatus::from_str("Done"), TaskStatus::Done);
    assert_eq!(TaskStatus::from_str("done"), TaskStatus::Pending);
    assert_eq!(TaskStatus::from_str(""), TaskStatus::Pending);
}

#[test]
fn status_labels() {
    assert_eq!(TaskStatus::Pending.as_str(), "Pending");
    assert_eq!(TaskStatus::InProgress.emoji(), "🔄");
    assert_eq!(TaskStatus::Done.emoji(), "✅");
    assert_eq!(TaskStatus::Pending.emoji(), "⏳");
    assert_eq!(TaskStatus::Pending.display(), "待機中");
    assert_eq!(TaskStatus::InProgress.display(), "進行中");
    assert_eq!(TaskStatus::Done.display(), "完了");
}

#[test]
fn priority_names_read_back() {
    for p in [Priority::Low, Priority::Medium, Priority::High] {
        assert_eq!(Priority::from_str(p.as_str()), p);
    }
    assert_eq!(Priority::from_str("High"), Priority::High);
    assert_eq!(Priority::from_str("urgent"), Priority::Medium);
}

#[test]
fn priority_labels() {
    assert_eq!(Priority::Low.emoji(), "🟢");
    assert_eq!(Priority::Medium.emoji(), "🟡");
    assert_eq!(Priority::High.emoji(), "🔴");
    assert_eq!(Priority::Low.display(), "低");
    assert_eq!(Priority::Medium.display(), "中");
    assert_eq!(Priority::High.display(), "高");
    assert_eq!(Priority::Medium.as_str(), "Medium");
}

#[test]
fn choices_convert() {
    assert_eq!(Priority::from(PriorityChoice::Low), Priority::Low);
    assert_eq!(Priority::from(PriorityChoice::High), Priority::High);
    assert_eq!(TaskStatus::from(StatusUpdateChoice::InProgress), TaskStatus::InProgress);
    assert_eq!(TaskStatus::from(StatusUpdateChoice::Done), TaskStatus::Done);
    assert_eq!(priority_or_default(None), Priority::Medium);
    assert_eq!(priority_or_default(Some(PriorityChoice::High)), Priority::High);
    assert_eq!(status_filter(None), None);
    assert_eq!(status_filter(Some(StatusFilterChoice::All)), None);
    assert_eq!(status_filter(Some(StatusFilterChoice::Done)), Some(TaskStatus::Done));
    assert_eq!(status_filter(Some(StatusFilterChoice::Pending)), Some(TaskStatus::Pending));
}

#[test]
fn reminder_choice_seconds() {
    assert_eq!(RemindChoice::ThirtyMin.to_seconds(), 1800);
    assert_eq!(RemindChoice::OneHour.to_seconds(), 3600);
    assert_eq!(RemindChoice::ThreeHours.to_seconds(), 10800);
    assert_eq!(RemindChoice::OneDay.to_seconds(), 86400);
    assert_eq!(RemindChoice::ThreeDays.to_seconds(), 259200);
    assert_eq!(RemindChoice::OneWeek.to_seconds(), 604800);
}

#[test]
fn reminder_choices_fire_in_offered_order() {
    let secs: Vec<i64> = [
        RemindChoice::ThirtyMin,
        RemindChoice::OneHour,
        RemindChoice::ThreeHours,
        RemindChoice::OneDay,
        RemindChoice::ThreeDays,
        RemindChoice::OneWeek,
    ]
    .iter()
    .map(|c| c.to_seconds())
    .collect();
    assert!(secs[0] > 0);
    assert!(secs.windows(2).all(|w| w[0] < w[1]));
}
