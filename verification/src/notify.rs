use vstd::prelude::*;

use crate::due::{due_seconds, parse_due_date};
use crate::models::PendingReminder;
use crate::reminders::{duration_text, format_duration};
use crate::text::{parse_u64, parse_u64_text};

verus! {

/// What to do with a reminder that has not been sent yet.
#[derive(Debug)]
pub enum ReminderAction {
    /// The task's due date does not read as a date; the reminder is skipped.
    BadDueDate,
    /// It is not yet time to send the reminder.
    NotYet,
    /// The task's channel is not a channel id; the reminder is skipped.
    NoChannel,
    /// Send `content` to the channel, then mark the reminder as sent.
    Send { channel_id: u64, content: String },
}

/// The message that a reminder sends.
pub open spec fn reminder_message(r: PendingReminder) -> Seq<char> {
    "⏰ **タスクリマインダー**\n<@"@ + r.user_id@ + "> タスク「**"@ + r.title@ + "**」の期限**"@
        + duration_text(r.remind_before) + "**です！\n📅 期限: `"@ + r.due_date@ + "`"@
}

/// When a reminder is due: its offset before the due date.
pub open spec fn notify_at(due: i64, remind_before: i64) -> int {
    due - remind_before
}

/// What a reminder calls for at time `now`, its due date read as `due`
/// (seconds on the clock that `now` is on): nothing before `due -
/// remind_before`, then a message to the task's channel when that is a
/// nonzero channel id.
pub open spec fn reminder_action(
    r: PendingReminder,
    due: Option<i64>,
    now: i64,
    a: ReminderAction,
) -> bool {
    match due {
        None => a is BadDueDate,
        Some(d) => if now < notify_at(d, r.remind_before) {
            a is NotYet
        } else {
            match parse_u64_text(r.channel_id@) {
                Some(id) => if id > 0 {
                    match a {
                        ReminderAction::Send { channel_id, content } => channel_id == id
                            && content@ == reminder_message(r),
                        _ => false,
                    }
                } else {
                    a is NoChannel
                },
                None => a is NoChannel,
            }
        },
    }
}

/// The message that a reminder sends.
pub fn reminder_content(r: &PendingReminder) -> (m: String)
    ensures
        m@ == reminder_message(*r),
{
    let label = format_duration(r.remind_before);
    let m = String::from_str("⏰ **タスクリマインダー**\n<@").concat(r.user_id.as_str()).concat(
        "> タスク「**",
    ).concat(r.title.as_str()).concat("**」の期限**").concat(label.as_str()).concat(
        "**です！\n📅 期限: `",
    ).concat(r.due_date.as_str()).concat("`");
    m
}

/// Decides what to do with a reminder at time `now`, its due date already
/// read as `due`.
pub fn plan_reminder(r: &PendingReminder, due: Option<i64>, now: i64) -> (a: ReminderAction)
    ensures
        reminder_action(*r, due, now, a),
{
    let d = match due {
        None => {
            return ReminderAction::BadDueDate;
        },
        Some(d) => d,
    };
    let at: i128 = d as i128 - r.remind_before as i128;
    if (now as i128) < at {
        return ReminderAction::NotYet;
    }
    match parse_u64(r.channel_id.as_str()) {
        Some(id) => {
            if id > 0 {
                ReminderAction::Send { channel_id: id, content: reminder_content(r) }
            } else {
                ReminderAction::NoChannel
            }
        },
        None => ReminderAction::NoChannel,
    }
}

/// Decides what to do with a reminder at time `now`, given as seconds since
/// 1970-01-01 00:00:00 on the clock that due dates are written in.
pub fn check_reminder(r: &PendingReminder, now: i64) -> (a: ReminderAction)
    ensures
        reminder_action(*r, due_seconds(r.due_date@), now, a),
{
    let due = parse_due_date(r.due_date.as_str());
    plan_reminder(r, due, now)
}

/// A reminder is never sent before its offset ahead of the due date.
pub proof fn law_never_early(r: PendingReminder, due: Option<i64>, now: i64, a: ReminderAction)
    requires
        reminder_action(r, due, now, a),
        a is Send,
    ensures
        due is Some,
        now >= notify_at(due->0, r.remind_before),
{
}

/// Once a reminder is due it stays due: at any later time it is sent to the
/// same channel with the same message.
pub proof fn law_stays_due(
    r: PendingReminder,
    due: Option<i64>,
    now: i64,
    later: i64,
    a: ReminderAction,
    b: ReminderAction,
)
    requires
        reminder_action(r, due, now, a),
        reminder_action(r, due, later, b),
        a is Send,
        now <= later,
    ensures
        b is Send,
        b->channel_id == a->channel_id,
        b->content@ == a->content@,
{
}

/// A reminder with a readable due date `d` waits exactly until `d` minus its
/// own offset, whatever the offset: before that it is not yet due, from then
/// on it is never "not yet".
pub proof fn law_sent_at_due_minus_offset(
    r: PendingReminder,
    d: i64,
    now: i64,
    a: ReminderAction,
)
    requires
        reminder_action(r, Some(d), now, a),
    ensures
        (a is NotYet) <==> (now as int) + (r.remind_before as int) < (d as int),
        !(a is BadDueDate),
{
}

/// At the moment `d - remind_before`, a reminder whose channel reads as a
/// nonzero id is sent to that channel.
pub proof fn law_sent_on_time(r: PendingReminder, d: i64, a: ReminderAction)
    requires
        (d as int) - (r.remind_before as int) >= i64::MIN,
        (d as int) - (r.remind_before as int) <= i64::MAX,
        reminder_action(r, Some(d), ((d as int) - (r.remind_before as int)) as i64, a),
        parse_u64_text(r.channel_id@) matches Some(id) && id > 0,
    ensures
        a matches ReminderAction::Send { channel_id, .. } && Some(channel_id) == parse_u64_text(
            r.channel_id@,
        ),
{
}

} // verus!
