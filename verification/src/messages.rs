use vstd::prelude::*;

use crate::models::{
    priority_emoji, priority_label, status_emoji, status_label, Priority, ReminderEntry, Task,
    TaskStatus,
};
use crate::reminders::{format_reminders, reminder_summary, reminders_text, unsent};
use crate::text::{i64_to_text, int_text, nat_text, parse_u64, parse_u64_text, usize_to_text};

verus! {

/// A field of a Discord embed: name, value and whether it sits inline.
pub struct EmbedField {
    pub name: String,
    pub value: String,
    pub inline: bool,
}

/// The text of the fields of an embed.
pub open spec fn fields_text(v: Seq<EmbedField>) -> Seq<(Seq<char>, Seq<char>, bool)> {
    v.map_values(|f: EmbedField| (f.name@, f.value@, f.inline))
}

fn field(name: &str, value: String, inline: bool) -> (f: EmbedField)
    ensures
        f.name@ == name@,
        f.value@ == value@,
        f.inline == inline,
{
    EmbedField { name: String::from_str(name), value, inline }
}

/// An optional text, or `fallback` when it is absent.
pub open spec fn text_or(o: Option<String>, fallback: Seq<char>) -> Seq<char> {
    match o {
        Some(t) => t@,
        None => fallback,
    }
}

fn opt_or(o: &Option<String>, fallback: &str) -> (r: String)
    ensures
        r@ == text_or(*o, fallback@),
{
    match o {
        Some(t) => t.clone(),
        None => String::from_str(fallback),
    }
}

// ---------------------------------------------------------------------------
// /now
// ---------------------------------------------------------------------------

/// The answer to `/now`: the time as Discord timestamps, absolute and relative.
pub open spec fn now_text(unix: i64) -> Seq<char> {
    "🕐 **現在時刻**\n日時: <t:"@ + int_text(unix as int) + ":F>\n相対: <t:"@ + int_text(unix as int)
        + ":R>"@
}

/// Answers `/now` for the Unix time `unix`.
pub fn now_message(unix: i64) -> (m: String)
    ensures
        m@ == now_text(unix),
{
    let t = i64_to_text(unix);
    String::from_str("🕐 **現在時刻**\n日時: <t:").concat(t.as_str()).concat(":F>\n相対: <t:").concat(
        t.as_str(),
    ).concat(":R>")
}

// ---------------------------------------------------------------------------
// Labels
// ---------------------------------------------------------------------------

/// How a status is shown: its symbol, then its label.
pub open spec fn status_badge_text(s: TaskStatus) -> Seq<char> {
    status_emoji(s) + " "@ + status_label(s)
}

/// How a priority is shown: its symbol, then its label.
pub open spec fn priority_badge_text(p: Priority) -> Seq<char> {
    priority_emoji(p) + " "@ + priority_label(p)
}

pub fn status_badge(s: TaskStatus) -> (r: String)
    ensures
        r@ == status_badge_text(s),
{
    String::from_str(s.emoji()).concat(" ").concat(s.display())
}

pub fn priority_badge(p: Priority) -> (r: String)
    ensures
        r@ == priority_badge_text(p),
{
    String::from_str(p.emoji()).concat(" ").concat(p.display())
}

/// The colour of a task's detail view, by status.
pub open spec fn status_colour_value(s: TaskStatus) -> u32 {
    match s {
        TaskStatus::Pending => 0xF1C40F,
        TaskStatus::InProgress => 0x3498DB,
        TaskStatus::Done => 0x2ECC71,
    }
}

pub fn status_colour(s: TaskStatus) -> (c: u32)
    ensures
        c == status_colour_value(s),
{
    match s {
        TaskStatus::Pending => 0xF1C40F,
        TaskStatus::InProgress => 0x3498DB,
        TaskStatus::Done => 0x2ECC71,
    }
}

/// The link to a Discord scheduled event of a server.
pub open spec fn event_url_text(guild_id: Seq<char>, event_id: Seq<char>) -> Seq<char> {
    "https://discord.com/events/"@ + guild_id + "/"@ + event_id
}

pub fn event_url(guild_id: &str, event_id: &str) -> (r: String)
    ensures
        r@ == event_url_text(guild_id@, event_id@),
{
    String::from_str("https://discord.com/events/").concat(guild_id).concat("/").concat(event_id)
}

/// The number of a server id, or 0 when it does not read as one.
pub fn guild_number(guild_id: &str) -> (r: u64)
    ensures
        r == (match parse_u64_text(guild_id@) {
            Some(n) => n,
            None => 0,
        }),
{
    match parse_u64(guild_id) {
        Some(n) => n,
        None => 0,
    }
}

// ---------------------------------------------------------------------------
// /task add
// ---------------------------------------------------------------------------

/// Why an add request is refused.
#[derive(Debug, Clone, Copy, PartialEq, Eq, Structural)]
pub enum AddRejection {
    /// Reminders were picked without a due date.
    RemindersNeedDueDate,
    /// A scheduled event was asked for without a due date.
    EventNeedsDueDate,
}

pub open spec fn add_rejection_text(r: AddRejection) -> Seq<char> {
    match r {
        AddRejection::RemindersNeedDueDate => "リマインダーを設定するには期限 (due_date) も指定してください。"@,
        AddRejection::EventNeedsDueDate => "イベントを作成するには期限 (due_date) も指定してください。"@,
    }
}

impl AddRejection {
    /// What the user is told.
    pub fn message(&self) -> (m: &'static str)
        ensures
            m@ == add_rejection_text(*self),
    {
        match self {
            AddRejection::RemindersNeedDueDate => "リマインダーを設定するには期限 (due_date) も指定してください。",
            AddRejection::EventNeedsDueDate => "イベントを作成するには期限 (due_date) も指定してください。",
        }
    }
}

/// Checks an add request: reminders and a scheduled event both need a due date.
pub fn check_add_request(reminders: &[i64], has_due_date: bool, create_event: Option<bool>) -> (r:
    Option<AddRejection>)
    ensures
        r == (if reminders@.len() > 0 && !has_due_date {
            Some(AddRejection::RemindersNeedDueDate)
        } else if create_event == Some(true) && !has_due_date {
            Some(AddRejection::EventNeedsDueDate)
        } else {
            None
        }),
{
    if reminders.len() > 0 && !has_due_date {
        return Some(AddRejection::RemindersNeedDueDate);
    }
    if create_event == Some(true) && !has_due_date {
        return Some(AddRejection::EventNeedsDueDate);
    }
    None
}

/// The fields shown for a task just added.
pub open spec fn added_fields_text(
    task_id: i64,
    title: Seq<char>,
    priority: Priority,
    description: Option<String>,
    due_date: Option<String>,
    reminders: Seq<i64>,
    event_url: Option<String>,
) -> Seq<(Seq<char>, Seq<char>, bool)> {
    let base = seq![
        ("ID"@, int_text(task_id as int), true),
        ("タイトル"@, title, true),
        ("優先度"@, priority_badge_text(priority), true),
        ("説明"@, text_or(description, "なし"@), false),
        ("期限"@, text_or(due_date, "未設定"@), true),
        ("リマインダー"@, reminders_text(unsent(reminders)), true),
    ];
    match event_url {
        Some(u) => base.push(("イベント"@, "[Discord イベント]("@ + u@ + ")"@, false)),
        None => base,
    }
}

/// The fields shown for a task just added.
pub fn added_task_fields(
    task_id: i64,
    title: &str,
    priority: Priority,
    description: &Option<String>,
    due_date: &Option<String>,
    reminders: &[i64],
    event_url: &Option<String>,
) -> (v: Vec<EmbedField>)
    ensures
        fields_text(v@) == added_fields_text(
            task_id,
            title@,
            priority,
            *description,
            *due_date,
            reminders@,
            *event_url,
        ),
{
    let mut v: Vec<EmbedField> = Vec::new();
    v.push(field("ID", i64_to_text(task_id), true));
    v.push(field("タイトル", String::from_str(title), true));
    v.push(field("優先度", priority_badge(priority), true));
    v.push(field("説明", opt_or(description, "なし"), false));
    v.push(field("期限", opt_or(due_date, "未設定"), true));
    v.push(field("リマインダー", reminder_summary(reminders), true));
    match event_url {
        Some(u) => {
            let link = String::from_str("[Discord イベント](").concat(u.as_str()).concat(")");
            v.push(field("イベント", link, false));
        },
        None => {},
    }
    assert(fields_text(v@) =~= added_fields_text(
        task_id,
        title@,
        priority,
        *description,
        *due_date,
        reminders@,
        *event_url,
    ));
    v
}

// ---------------------------------------------------------------------------
// /task list
// ---------------------------------------------------------------------------

/// Whether some reminder has not been sent yet.
pub open spec fn any_unsent(es: Seq<ReminderEntry>) -> bool {
    exists|i: int| 0 <= i < es.len() && !es[i].1
}

/// Whether there are reminders and all of them were sent.
pub open spec fn all_sent(es: Seq<ReminderEntry>) -> bool {
    es.len() > 0 && forall|i: int| 0 <= i < es.len() ==> es[i].1
}

/// The name of a task's line in a listing: `[id]`, an alarm clock while a
/// reminder is still to come, then the title.
pub open spec fn list_name_text(t: Task) -> Seq<char> {
    "["@ + int_text(t.id as int) + "] "@ + (if any_unsent(t.reminders@) {
        "⏰ "@
    } else {
        Seq::empty()
    }) + t.title@
}

/// The value of a task's line in a listing: status and priority symbols,
/// the author, the due date, and a tick when every reminder was sent.
pub open spec fn list_value_text(t: Task) -> Seq<char> {
    status_emoji(t.status) + " "@ + priority_emoji(t.priority) + " | <@"@ + t.user_id@
        + "> | 期限: "@ + text_or(t.due_date, "未設定"@) + (if all_sent(t.reminders@) {
        " ✔"@
    } else {
        Seq::empty()
    })
}

fn reminder_flags(es: &Vec<ReminderEntry>) -> (r: (bool, bool))
    ensures
        r.0 == any_unsent(es@),
        r.1 == all_sent(es@),
{
    let mut any = false;
    let mut all = true;
    let mut i: usize = 0;
    while i < es.len()
        invariant
            i <= es@.len(),
            any == (exists|j: int| 0 <= j < i && !es@[j].1),
            all == (forall|j: int| 0 <= j < i ==> es@[j].1),
        decreases es@.len() - i,
    {
        if !es[i].1 {
            any = true;
            all = false;
        }
        i = i + 1;
    }
    (any, all && es.len() > 0)
}

/// A task's line in a listing.
pub fn task_list_entry(t: &Task) -> (f: EmbedField)
    ensures
        f.name@ == list_name_text(*t),
        f.value@ == list_value_text(*t),
        !f.inline,
{
    let (any, all) = reminder_flags(&t.reminders);
    let id = i64_to_text(t.id);
    let icon = if any {
        "⏰ "
    } else {
        ""
    };
    proof {
        reveal_strlit("");
    }
    let name = String::from_str("[").concat(id.as_str()).concat("] ").concat(icon).concat(
        t.title.as_str(),
    );
    let due = opt_or(&t.due_date, "未設定");
    let tick = if all {
        " ✔"
    } else {
        ""
    };
    let value = String::from_str(t.status.emoji()).concat(" ").concat(t.priority.emoji()).concat(
        " | <@",
    ).concat(t.user_id.as_str()).concat("> | 期限: ").concat(due.as_str()).concat(tick);
    assert(name@ =~= list_name_text(*t));
    assert(value@ =~= list_value_text(*t));
    EmbedField { name, value, inline: false }
}

/// The footer of a listing: how many tasks it shows.
pub open spec fn list_footer_text(n: nat) -> Seq<char> {
    "合計: "@ + nat_text(n) + " 件"@
}

pub fn list_footer(n: usize) -> (r: String)
    ensures
        r@ == list_footer_text(n as nat),
{
    String::from_str("合計: ").concat(usize_to_text(n).as_str()).concat(" 件")
}

// ---------------------------------------------------------------------------
// /task view
// ---------------------------------------------------------------------------

/// The title of a task's detail view.
pub open spec fn view_title_text(id: i64) -> Seq<char> {
    "📌 タスク #"@ + int_text(id as int)
}

pub fn task_view_title(id: i64) -> (r: String)
    ensures
        r@ == view_title_text(id),
{
    String::from_str("📌 タスク #").concat(i64_to_text(id).as_str())
}

/// The fields of a task's detail view in server `guild_id`.
pub open spec fn view_fields_text(t: Task, guild_id: Seq<char>) -> Seq<(Seq<char>, Seq<char>, bool)> {
    let base = seq![
        ("タイトル"@, t.title@, false),
        ("ステータス"@, status_badge_text(t.status), true),
        ("優先度"@, priority_badge_text(t.priority), true),
        ("説明"@, text_or(t.description, "なし"@), false),
        ("期限"@, text_or(t.due_date, "未設定"@), true),
        ("作成者"@, "<@"@ + t.user_id@ + ">"@, true),
        ("リマインダー"@, reminders_text(t.reminders@), true),
        ("作成日時"@, t.created_at@, true),
    ];
    match t.discord_event_id {
        Some(eid) => base.push(
            ("イベント"@, "[Discord イベント]("@ + event_url_text(guild_id, eid@) + ")"@, false),
        ),
        None => base,
    }
}

/// The fields of a task's detail view in server `guild_id`.
pub fn task_view_fields(t: &Task, guild_id: &str) -> (v: Vec<EmbedField>)
    ensures
        fields_text(v@) == view_fields_text(*t, guild_id@),
{
    let mut v: Vec<EmbedField> = Vec::new();
    v.push(field("タイトル", t.title.clone(), false));
    v.push(field("ステータス", status_badge(t.status), true));
    v.push(field("優先度", priority_badge(t.priority), true));
    v.push(field("説明", opt_or(&t.description, "なし"), false));
    v.push(field("期限", opt_or(&t.due_date, "未設定"), true));
    v.push(field("作成者", String::from_str("<@").concat(t.user_id.as_str()).concat(">"), true));
    v.push(field("リマインダー", format_reminders(t.reminders.as_slice()), true));
    v.push(field("作成日時", t.created_at.clone(), true));
    match &t.discord_event_id {
        Some(eid) => {
            let url = event_url(guild_id, eid.as_str());
            let link = String::from_str("[Discord イベント](").concat(url.as_str()).concat(")");
            v.push(field("イベント", link, false));
        },
        None => {},
    }
    assert(fields_text(v@) =~= view_fields_text(*t, guild_id@));
    v
}

// ---------------------------------------------------------------------------
// Replies naming a task
// ---------------------------------------------------------------------------

pub open spec fn not_found_text(id: i64) -> Seq<char> {
    "タスク #"@ + int_text(id as int) + " が見つかりません。"@
}

/// The reply when no task has the given id in this server.
pub fn not_found_message(id: i64) -> (r: String)
    ensures
        r@ == not_found_text(id),
{
    String::from_str("タスク #").concat(i64_to_text(id).as_str()).concat(" が見つかりません。")
}

pub open spec fn status_updated_text(id: i64, s: TaskStatus) -> Seq<char> {
    "タスク #"@ + int_text(id as int) + " のステータスを "@ + status_badge_text(s) + " に更新しました！"@
}

/// The reply when a task's status was changed.
pub fn status_updated_message(id: i64, s: TaskStatus) -> (r: String)
    ensures
        r@ == status_updated_text(id, s),
{
    String::from_str("タスク #").concat(i64_to_text(id).as_str()).concat(" のステータスを ").concat(
        status_badge(s).as_str(),
    ).concat(" に更新しました！")
}

pub open spec fn edited_text(id: i64) -> Seq<char> {
    "✏️ タスク #"@ + int_text(id as int) + " を更新しました！"@
}

/// The reply when a task was edited.
pub fn edited_message(id: i64) -> (r: String)
    ensures
        r@ == edited_text(id),
{
    String::from_str("✏️ タスク #").concat(i64_to_text(id).as_str()).concat(" を更新しました！")
}

pub open spec fn deleted_text(id: i64) -> Seq<char> {
    "🗑️ タスク #"@ + int_text(id as int) + " を削除しました。"@
}

/// The reply when a task was deleted.
pub fn deleted_message(id: i64) -> (r: String)
    ensures
        r@ == deleted_text(id),
{
    String::from_str("🗑️ タスク #").concat(i64_to_text(id).as_str()).concat(" を削除しました。")
}

// ---------------------------------------------------------------------------
// Refusals
// ---------------------------------------------------------------------------

/// The reply to a task command used outside a server.
pub fn guild_only_message() -> (m: &'static str)
    ensures
        m@ == "このコマンドはサーバー内でのみ使用できます。"@,
{
    "このコマンドはサーバー内でのみ使用できます。"
}

/// The reply to a listing that finds no task.
pub fn no_tasks_message() -> (m: &'static str)
    ensures
        m@ == "タスクはありません。`/task add` でタスクを追加してください。"@,
{
    "タスクはありません。`/task add` でタスクを追加してください。"
}

/// The reply to an edit request that gives nothing to change.
pub fn nothing_to_change_message() -> (m: &'static str)
    ensures
        m@ == "変更する項目を少なくとも1つ指定してください。"@,
{
    "変更する項目を少なくとも1つ指定してください。"
}

/// A task's reminders are all sent exactly when there is one and none is unsent.
pub proof fn law_all_sent_means_none_unsent(es: Seq<ReminderEntry>)
    ensures
        all_sent(es) <==> (es.len() > 0 && !any_unsent(es)),
        any_unsent(es) ==> !all_sent(es),
{
}

// ---------------------------------------------------------------------------
// /help
// ---------------------------------------------------------------------------

/// The fields of the `/help` embed: each command and how to use it.
pub open spec fn help_fields_text() -> Seq<(Seq<char>, Seq<char>, bool)> {
    seq![
        ("/task add"@, "タスクを追加する\n\
             `title` タイトル（必須）\n\
             `description` 説明\n\
             `priority` 優先度（低/中/高、デフォルト: 中）\n\
             `due_date` 期限（例: `2025-12-31 15:00`）\n\
             `remind1〜3` リマインダー（30分前〜1週間前）\n\
             `create_event` Discord イベントも作成する（true/false）"@, false),
        ("/task list"@, "タスク一覧を表示する\n\
             `filter` ステータスで絞り込み（すべて/待機中/進行中/完了）"@, false),
        ("/task view"@, "タスクの詳細を表示する\n\
             `id` タスクID（必須）"@, false),
        ("/task status"@, "タスクのステータスを変更する\n\
             `id` タスクID（必須）\n\
             `new_status` 新しいステータス（待機中/進行中/完了）"@, false),
        ("/task edit"@, "タスクを編集する\n\
             `id` タスクID（必須）\n\
             `title` / `description` / `priority` / `due_date` 各項目\n\
             `remind1〜3` を1つでも指定するとリマインダーが全置き換えされる"@, false),
        ("/task delete"@, "タスクを削除する（紐づく Discord イベントも削除）\n\
             `id` タスクID（必須）"@, false),
        ("/now"@, "現在の日時を表示する"@, false),
        ("期限の書式"@, "`YYYY-MM-DD HH:MM` （例: `2025-12-31 09:00`）\n\
             時刻を省略すると `00:00` 扱い"@, false),
    ]
}

/// The fields of the `/help` embed.
pub fn help_fields() -> (v: Vec<EmbedField>)
    ensures
        fields_text(v@) == help_fields_text(),
{
    let mut v: Vec<EmbedField> = Vec::new();
    v.push(field("/task add", String::from_str("タスクを追加する\n\
             `title` タイトル（必須）\n\
             `description` 説明\n\
             `priority` 優先度（低/中/高、デフォルト: 中）\n\
             `due_date` 期限（例: `2025-12-31 15:00`）\n\
             `remind1〜3` リマインダー（30分前〜1週間前）\n\
             `create_event` Discord イベントも作成する（true/false）"), false));
    v.push(field("/task list", String::from_str("タスク一覧を表示する\n\
             `filter` ステータスで絞り込み（すべて/待機中/進行中/完了）"), false));
    v.push(field("/task view", String::from_str("タスクの詳細を表示する\n\
             `id` タスクID（必須）"), false));
    v.push(field("/task status", String::from_str("タスクのステータスを変更する\n\
             `id` タスクID（必須）\n\
             `new_status` 新しいステータス（待機中/進行中/完了）"), false));
    v.push(field("/task edit", String::from_str("タスクを編集する\n\
             `id` タスクID（必須）\n\
             `title` / `description` / `priority` / `due_date` 各項目\n\
             `remind1〜3` を1つでも指定するとリマインダーが全置き換えされる"), false));
    v.push(field("/task delete", String::from_str("タスクを削除する（紐づく Discord イベントも削除）\n\
             `id` タスクID（必須）"), false));
    v.push(field("/now", String::from_str("現在の日時を表示する"), false));
    v.push(field("期限の書式", String::from_str("`YYYY-MM-DD HH:MM` （例: `2025-12-31 09:00`）\n\
             時刻を省略すると `00:00` 扱い"), false));
    assert(fields_text(v@) =~= help_fields_text());
    v
}

} // verus!
