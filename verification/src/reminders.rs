use vstd::prelude::*;

use crate::choices::{remind_choice_name, remind_seconds, RemindChoice};
use crate::rows::{lemma_split_append, split_on};
use crate::text::{lemma_int_text_chars, nat_text};
use crate::text::{i64_to_text, int_text};

verus! {

// ---------------------------------------------------------------------------
// How long before the due date
// ---------------------------------------------------------------------------

/// Integer division rounding toward zero, as Rust's `/` does.
pub open spec fn trunc_div(a: int, b: int) -> int {
    if a >= 0 {
        a / b
    } else {
        -((-a) / b)
    }
}

/// How a reminder offset reads: in whole weeks, days or hours when it is
/// at least one of them, else in minutes.
pub open spec fn duration_text(secs: i64) -> Seq<char> {
    if secs >= 604800 {
        int_text(secs / 604800) + "週間前"@
    } else if secs >= 86400 {
        int_text(secs / 86400) + "日前"@
    } else if secs >= 3600 {
        int_text(secs / 3600) + "時間前"@
    } else {
        int_text(trunc_div(secs as int, 60)) + "分前"@
    }
}

/// Renders how long before the due date a reminder goes out.
pub fn format_duration(secs: i64) -> (r: String)
    ensures
        r@ == duration_text(secs),
{
    if secs >= 7 * 24 * 3600 {
        i64_to_text(secs / (7 * 24 * 3600)).concat("週間前")
    } else if secs >= 24 * 3600 {
        i64_to_text(secs / (24 * 3600)).concat("日前")
    } else if secs >= 3600 {
        i64_to_text(secs / 3600).concat("時間前")
    } else {
        i64_to_text(secs / 60).concat("分前")
    }
}

// ---------------------------------------------------------------------------
// Showing a task's reminders
// ---------------------------------------------------------------------------

/// The line shown for one reminder; a sent one is struck through and ticked.
pub open spec fn reminder_line(e: (i64, bool)) -> Seq<char> {
    if e.1 {
        "~~⏰ "@ + duration_text(e.0) + "~~ ✔"@
    } else {
        "⏰ "@ + duration_text(e.0)
    }
}

/// The lines of the given reminders, joined by newlines.
pub open spec fn reminder_lines(es: Seq<(i64, bool)>) -> Seq<char>
    decreases es.len(),
{
    if es.len() == 0 {
        Seq::empty()
    } else if es.len() == 1 {
        reminder_line(es[0])
    } else {
        reminder_lines(es.drop_last()) + "\n"@ + reminder_line(es.last())
    }
}

/// How a task's reminders read: one line each, or `なし` when there are none.
pub open spec fn reminders_text(es: Seq<(i64, bool)>) -> Seq<char> {
    if es.len() == 0 {
        "なし"@
    } else {
        reminder_lines(es)
    }
}

/// Renders a task's reminders, one per line.
pub fn format_reminders(reminders: &[(i64, bool)]) -> (r: String)
    ensures
        r@ == reminders_text(reminders@),
{
    let n = reminders.len();
    if n == 0 {
        return String::from_str("なし");
    }
    let mut acc = String::new();
    let mut i: usize = 0;
    while i < n
        invariant
            n == reminders@.len(),
            i <= n,
            acc@ == reminder_lines(reminders@.take(i as int)),
        decreases n - i,
    {
        let (secs, reminded) = reminders[i];
        let label = format_duration(secs);
        let line = if reminded {
            String::from_str("~~⏰ ").concat(label.as_str()).concat("~~ ✔")
        } else {
            String::from_str("⏰ ").concat(label.as_str())
        };
        assert(line@ == reminder_line(reminders@[i as int]));
        let ghost prev = acc@;
        if i == 0 {
            acc = line;
        } else {
            acc = acc.concat("\n").concat(line.as_str());
        }
        proof {
            let t = reminders@.take(i + 1);
            assert(t.drop_last() =~= reminders@.take(i as int));
            assert(t.last() == reminders@[i as int]);
            if i == 0 {
                assert(t.len() == 1);
                assert(t[0] == reminders@[0]);
            }
        }
        i = i + 1;
    }
    assert(reminders@.take(n as int) =~= reminders@);
    acc
}

/// The reminder offsets of a new task, none of them sent yet.
pub open spec fn unsent(secs: Seq<i64>) -> Seq<(i64, bool)> {
    secs.map_values(|s: i64| (s, false))
}

/// Renders the reminders that a new task is given.
pub fn reminder_summary(secs: &[i64]) -> (r: String)
    ensures
        r@ == reminders_text(unsent(secs@)),
{
    let mut entries: Vec<(i64, bool)> = Vec::new();
    let mut i: usize = 0;
    while i < secs.len()
        invariant
            i <= secs@.len(),
            entries@ == unsent(secs@.take(i as int)),
        decreases secs@.len() - i,
    {
        entries.push((secs[i], false));
        i = i + 1;
        assert(entries@ =~= unsent(secs@.take(i as int)));
    }
    assert(secs@.take(secs@.len() as int) =~= secs@);
    format_reminders(entries.as_slice())
}

// ---------------------------------------------------------------------------
// Collecting the reminders a user picked
// ---------------------------------------------------------------------------

/// Whether `s` is in strictly increasing order (so no value occurs twice).
pub open spec fn strictly_increasing(s: Seq<i64>) -> bool {
    forall|i: int, j: int| 0 <= i < j < s.len() ==> s[i] < s[j]
}

/// The offset of a reminder choice, when one was made.
pub open spec fn picked(c: Option<RemindChoice>) -> Set<i64> {
    match c {
        Some(c) => set![remind_seconds(c)],
        None => Set::empty(),
    }
}

/// The offsets of the reminders picked in three optional choices.
pub open spec fn picked_seconds(
    r1: Option<RemindChoice>,
    r2: Option<RemindChoice>,
    r3: Option<RemindChoice>,
) -> Set<i64> {
    picked(r1) + picked(r2) + picked(r3)
}

/// Whether `s` lists the offsets picked in `r1..r3`, ascending, each once.
pub open spec fn is_reminder_list(
    s: Seq<i64>,
    r1: Option<RemindChoice>,
    r2: Option<RemindChoice>,
    r3: Option<RemindChoice>,
) -> bool {
    strictly_increasing(s) && s.to_set() == picked_seconds(r1, r2, r3)
}

/// Adds `x` to a strictly increasing list, keeping it so.
fn insert_unique(v: &mut Vec<i64>, x: i64)
    requires
        strictly_increasing(old(v)@),
    ensures
        strictly_increasing(final(v)@),
        final(v)@.to_set() == old(v)@.to_set().insert(x),
{
    let ghost s = v@;
    let n = v.len();
    let mut p: usize = 0;
    while p < n && v[p] < x
        invariant
            v@ == s,
            n == s.len(),
            p <= n,
            forall|j: int| 0 <= j < p ==> s[j] < x,
        decreases n - p,
    {
        p = p + 1;
    }
    if p < n && v[p] == x {
        assert(s.to_set() =~= s.to_set().insert(x)) by {
            assert(s.to_set().contains(s[p as int]));
        }
        return;
    }
    v.insert(p, x);
    proof {
        let t = v@;
        assert(t == s.insert(p as int, x));
        assert forall|i: int, j: int| 0 <= i < j < t.len() implies t[i] < t[j] by {
            if j < p {
            } else if j == p {
            } else if i < p {
                assert(t[j] == s[j - 1]);
                if p < n {
                    assert(x < s[p as int]);
                    assert(s[p as int] <= s[j - 1]);
                }
            } else if i == p {
                assert(t[j] == s[j - 1]);
                assert(x < s[p as int]);
                assert(s[p as int] <= s[j - 1]);
            } else {
            }
        }
        assert forall|y: i64| t.to_set().contains(y) <==> s.to_set().insert(x).contains(y) by {
            if t.to_set().contains(y) {
                let k = choose|k: int| 0 <= k < t.len() && t[k] == y;
                if k < p {
                    assert(s[k] == y);
                } else if k > p {
                    assert(s[k - 1] == y);
                }
            }
            if s.to_set().contains(y) {
                let k = choose|k: int| 0 <= k < s.len() && s[k] == y;
                if k < p {
                    assert(t[k] == y);
                } else {
                    assert(t[k + 1] == y);
                }
            }
            if y == x {
                assert(t[p as int] == x);
            }
        }
        assert(t.to_set() =~= s.to_set().insert(x));
    }
}

/// Gathers the reminders picked in up to three choices, ascending, each once.
pub fn collect_reminders(
    r1: Option<RemindChoice>,
    r2: Option<RemindChoice>,
    r3: Option<RemindChoice>,
) -> (r: Vec<i64>)
    ensures
        is_reminder_list(r@, r1, r2, r3),
{
    let mut v: Vec<i64> = Vec::new();
    assert(v@.to_set() =~= Set::<i64>::empty());
    if let Some(c) = r1 {
        insert_unique(&mut v, c.to_seconds());
    }
    assert(v@.to_set() =~= picked(r1));
    if let Some(c) = r2 {
        insert_unique(&mut v, c.to_seconds());
    }
    assert(v@.to_set() =~= picked(r1) + picked(r2));
    if let Some(c) = r3 {
        insert_unique(&mut v, c.to_seconds());
    }
    assert(v@.to_set() =~= picked_seconds(r1, r2, r3));
    v
}

proof fn lemma_increasing_determined(a: Seq<i64>, b: Seq<i64>)
    requires
        strictly_increasing(a),
        strictly_increasing(b),
        a.to_set() == b.to_set(),
    ensures
        a == b,
    decreases a.len(),
{
    if a.len() == 0 {
        if b.len() > 0 {
            assert(b.to_set().contains(b[0]));
        }
        assert(a =~= b);
    } else {
        assert(a.to_set().contains(a[0]));
        assert(b.to_set().contains(a[0]));
        let k = choose|k: int| 0 <= k < b.len() && b[k] == a[0];
        assert(b.to_set().contains(b[0]));
        let m = choose|m: int| 0 <= m < a.len() && a[m] == b[0];
        assert(a[0] == b[0]) by {
            if k > 0 {
                assert(b[0] < b[k]);
            }
            if m > 0 {
                assert(a[0] < a[m]);
            }
        }
        let a1 = a.drop_first();
        let b1 = b.drop_first();
        assert forall|y: i64| a1.to_set().contains(y) <==> b1.to_set().contains(y) by {
            if a1.to_set().contains(y) {
                let i = choose|i: int| 0 <= i < a1.len() && a1[i] == y;
                assert(a[i + 1] == y);
                assert(a.to_set().contains(y));
                let j = choose|j: int| 0 <= j < b.len() && b[j] == y;
                assert(a[0] < a[i + 1]);
                assert(j != 0);
                assert(b1[j - 1] == y);
            }
            if b1.to_set().contains(y) {
                let i = choose|i: int| 0 <= i < b1.len() && b1[i] == y;
                assert(b[i + 1] == y);
                assert(b.to_set().contains(y));
                let j = choose|j: int| 0 <= j < a.len() && a[j] == y;
                assert(b[0] < b[i + 1]);
                assert(j != 0);
                assert(a1[j - 1] == y);
            }
        }
        assert(a1.to_set() =~= b1.to_set());
        lemma_increasing_determined(a1, b1);
        assert(a =~= b) by {
            assert forall|i: int| 0 <= i < a.len() implies a[i] == b[i] by {
                if i > 0 {
                    assert(a[i] == a1[i - 1]);
                    assert(b[i] == b1[i - 1]);
                }
            }
        }
    }
}

/// The picks alone decide the reminder list: two lists that both list the
/// same picks ascending and once each are the same list.
pub proof fn law_reminder_list_determined(
    s: Seq<i64>,
    t: Seq<i64>,
    r1: Option<RemindChoice>,
    r2: Option<RemindChoice>,
    r3: Option<RemindChoice>,
)
    requires
        is_reminder_list(s, r1, r2, r3),
        is_reminder_list(t, r1, r2, r3),
    ensures
        s == t,
{
    lemma_increasing_determined(s, t);
}

/// The order in which reminders are picked does not matter.
pub proof fn law_reminder_picks_order_free(
    s: Seq<i64>,
    t: Seq<i64>,
    r1: Option<RemindChoice>,
    r2: Option<RemindChoice>,
    r3: Option<RemindChoice>,
)
    requires
        is_reminder_list(s, r1, r2, r3),
        is_reminder_list(t, r2, r1, r3) || is_reminder_list(t, r1, r3, r2) || is_reminder_list(
            t,
            r3,
            r2,
            r1,
        ) || is_reminder_list(t, r2, r3, r1) || is_reminder_list(t, r3, r1, r2),
    ensures
        s == t,
{
    assert(picked_seconds(r1, r2, r3) =~= picked_seconds(r2, r1, r3));
    assert(picked_seconds(r1, r2, r3) =~= picked_seconds(r1, r3, r2));
    assert(picked_seconds(r1, r2, r3) =~= picked_seconds(r3, r2, r1));
    assert(picked_seconds(r1, r2, r3) =~= picked_seconds(r2, r3, r1));
    assert(picked_seconds(r1, r2, r3) =~= picked_seconds(r3, r1, r2));
    lemma_increasing_determined(s, t);
}

/// Picking the same reminder twice sets it once.
pub proof fn law_repeated_pick_counts_once(
    s: Seq<i64>,
    t: Seq<i64>,
    c: RemindChoice,
    r3: Option<RemindChoice>,
)
    requires
        is_reminder_list(s, Some(c), Some(c), r3),
        is_reminder_list(t, Some(c), None, r3),
    ensures
        s == t,
{
    assert(picked_seconds(Some(c), Some(c), r3) =~= picked_seconds(Some(c), None, r3));
    lemma_increasing_determined(s, t);
}

/// A reminder set from a choice reads back under the name of that choice.
pub proof fn law_reminder_reads_as_its_choice(c: RemindChoice)
    ensures
        duration_text(remind_seconds(c)) == remind_choice_name(c),
{
    reveal_strlit("30分前");
    reveal_strlit("1時間前");
    reveal_strlit("3時間前");
    reveal_strlit("1日前");
    reveal_strlit("3日前");
    reveal_strlit("1週間前");
    reveal_strlit("分前");
    reveal_strlit("時間前");
    reveal_strlit("日前");
    reveal_strlit("週間前");
    reveal_with_fuel(nat_text, 2);
    assert(duration_text(remind_seconds(c)) =~= remind_choice_name(c));
}

proof fn lemma_duration_text_chars(secs: i64)
    ensures
        forall|i: int|
            0 <= i < duration_text(secs).len() ==> #[trigger] duration_text(secs)[i] != '\n',
{
    reveal_strlit("週間前");
    reveal_strlit("日前");
    reveal_strlit("時間前");
    reveal_strlit("分前");
    let n: int = if secs >= 604800 {
        secs / 604800
    } else if secs >= 86400 {
        secs / 86400
    } else if secs >= 3600 {
        secs / 3600
    } else {
        trunc_div(secs as int, 60)
    };
    let unit: Seq<char> = if secs >= 604800 {
        "週間前"@
    } else if secs >= 86400 {
        "日前"@
    } else if secs >= 3600 {
        "時間前"@
    } else {
        "分前"@
    };
    assert(duration_text(secs) == int_text(n) + unit);
    lemma_int_text_chars(n);
    let s = duration_text(secs);
    assert forall|i: int| 0 <= i < s.len() implies #[trigger] s[i] != '\n' by {
        if i < int_text(n).len() {
            assert(s[i] == int_text(n)[i]);
        } else {
            assert(s[i] == unit[i - int_text(n).len()]);
        }
    }
}

/// How one reminder's line reads: a sent one is struck through (`~~…~~`)
/// and ticked, an unsent one starts with the alarm clock; neither breaks
/// the line.
pub proof fn law_reminder_line_marks_sent(e: (i64, bool))
    ensures
        e.1 ==> reminder_line(e).take(2) == "~~"@,
        e.1 ==> reminder_line(e).last() == '✔',
        !e.1 ==> reminder_line(e)[0] == '⏰',
        !e.1 ==> reminder_line(e).take(2) != "~~"@,
        forall|i: int| 0 <= i < reminder_line(e).len() ==> #[trigger] reminder_line(e)[i] != '\n',
{
    reveal_strlit("~~⏰ ");
    reveal_strlit("~~ ✔");
    reveal_strlit("⏰ ");
    reveal_strlit("~~");
    lemma_duration_text_chars(e.0);
    let d = duration_text(e.0);
    let l = reminder_line(e);
    if e.1 {
        assert(l == "~~⏰ "@ + d + "~~ ✔"@);
        assert(l.take(2) =~= "~~"@);
        assert forall|i: int| 0 <= i < l.len() implies #[trigger] l[i] != '\n' by {
            if i < 4 {
                assert(l[i] == "~~⏰ "@[i]);
            } else if i < 4 + d.len() {
                assert(l[i] == d[i - 4]);
            } else {
                assert(l[i] == "~~ ✔"@[i - 4 - d.len()]);
            }
        }
    } else {
        assert(l == "⏰ "@ + d);
        assert(l.take(2)[0] == '⏰');
        assert forall|i: int| 0 <= i < l.len() implies #[trigger] l[i] != '\n' by {
            if i < 2 {
                assert(l[i] == "⏰ "@[i]);
            } else {
                assert(l[i] == d[i - 2]);
            }
        }
    }
}

/// Shown reminders read one line per reminder, in order: the `i`-th line is
/// the line of the `i`-th reminder alone, wherever it stands in the list.
pub proof fn law_one_line_per_reminder(es: Seq<(i64, bool)>)
    requires
        es.len() > 0,
    ensures
        split_on(reminders_text(es), '\n') == es.map_values(|e: (i64, bool)| reminder_line(e)),
    decreases es.len(),
{
    let f = |e: (i64, bool)| reminder_line(e);
    let y = reminder_line(es.last());
    law_reminder_line_marks_sent(es.last());
    if es.len() == 1 {
        lemma_split_append(Seq::empty(), y, '\n');
        assert(Seq::<char>::empty() + y =~= y);
        assert(split_on(Seq::<char>::empty(), '\n') =~= seq![Seq::<char>::empty()]);
        assert(split_on(y, '\n') =~= seq![y]);
        assert(es.map_values(f) =~= seq![y]);
        assert(reminders_text(es) == y);
    } else {
        let d = es.drop_last();
        law_one_line_per_reminder(d);
        reveal_strlit("\n");
        let x = reminder_lines(d);
        assert(reminders_text(d) == x);
        let xs = x + "\n"@;
        assert(x.push('\n') =~= xs);
        assert(xs.drop_last() =~= x);
        assert(split_on(xs, '\n') == split_on(x, '\n').push(Seq::<char>::empty()));
        lemma_split_append(xs, y, '\n');
        assert(reminders_text(es) == xs + y);
        assert(split_on(xs, '\n').last() + y =~= y);
        assert(split_on(reminders_text(es), '\n') =~= d.map_values(f).push(y));
        assert(es.map_values(f) =~= d.map_values(f).push(y));
    }
}

} // verus!
