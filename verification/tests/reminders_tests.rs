use discord_task_bot::choices::RemindChoice;
use discord_task_bot::reminders::{collect_reminders, format_duration, format_reminders, reminder_summary};

#[test]
fn durations_read_in_the_largest_whole_unit() {
    assert_eq!(format_duration(1800), "30分前");
    assert_eq!(format_duration(3600), "1時間前");
    assert_eq!(format_duration(10800), "3時間前");
    assert_eq!(format_duration(86400), "1日前");
    assert_eq!(format_duration(259200), "3日前");
    assert_eq!(format_duration(604800), "1週間前");
    assert_eq!(format_duration(2 * 604800 + 5), "2週間前");
    assert_eq!(format_duration(90000), "1日前");
    assert_eq!(format_duration(59), "0分前");
    assert_eq!(format_duration(0), "0分前");
    assert_eq!(format_duration(-90), "-1分前");
    assert_eq!(format_duration(i64::MIN), format!("{}分前", i64::MIN / 60));
}

#[test]
fn every_choice_reads_under_its_own_name() {
    let names = ["30分前", "1時間前", "3時間前", "1日前", "3日前", "1週間前"];
    let choices = [
        RemindChoice::ThirtyMin,
        RemindChoice::OneHour,
        RemindChoice::ThreeHours,
        RemindChoice::OneDay,
        RemindChoice::ThreeDays,
        RemindChoice::OneWeek,
    ];
    for (c, n) in choices.iter().zip(names) {
        assert_eq!(format_duration(c.to_seconds()), n);
    }
}

#[test]
fn reminders_show_one_per_line() {
    assert_eq!(format_reminders(&[]), "なし");
    assert_eq!(format_reminders(&[(1800, false)]), "⏰ 30分前");
    assert_eq!(
        format_reminders(&[(1800, true), (86400, false)]),
        "~~⏰ 30分前~~ ✔\n⏰ 1日前"
    );
    assert_eq!(reminder_summary(&[]), "なし");
    assert_eq!(reminder_summary(&[3600, 604800]), "⏰ 1時間前\n⏰ 1週間前");
}

#[test]
fn picked_reminders_are_sorted_and_unique() {
    assert_eq!(collect_reminders(None, None, None), Vec::<i64>::new());
    assert_eq!(
        collect_reminders(Some(RemindChoice::OneWeek), None, Some(RemindChoice::ThirtyMin)),
        vec![1800, 604800]
    );
    assert_eq!(
        collect_reminders(Some(RemindChoice::OneDay), Some(RemindChoice::OneDay), None),
        vec![86400]
    );
    assert_eq!(
        collect_reminders(
            Some(RemindChoice::ThreeDays),
            Some(RemindChoice::OneHour),
            Some(RemindChoice::ThreeHours)
        ),
        vec![3600, 10800, 259200]
    );
}

#[test]
fn pick_order_does_not_matter() {
    let a = collect_reminders(Some(RemindChoice::OneHour), Some(RemindChoice::OneDay), Some(RemindChoice::ThirtyMin));
    let b = collect_reminders(Some(RemindChoice::ThirtyMin), Some(RemindChoice::OneHour), Some(RemindChoice::OneDay));
    let c = collect_reminders(Some(RemindChoice::OneDay), Some(RemindChoice::ThirtyMin), Some(RemindChoice::OneHour));
    assert_eq!(a, b);
    assert_eq!(b, c);
}
