use vstd::prelude::*;

use crate::models::{
    priority_from_name, status_from_name, Priority, ReminderEntry, Task, TaskStatus,
};
use crate::text::{
    chars_of, int_text, law_i64_text_round_trip, opt_chars, parse_i64_chars, parse_i64_text,
};

verus! {

// ---------------------------------------------------------------------------
// The stored list of a task's reminders
// ---------------------------------------------------------------------------

/// The pieces of `s` between occurrences of `sep`, as `str::split` gives them.
pub open spec fn split_on(s: Seq<char>, sep: char) -> Seq<Seq<char>>
    decreases s.len(),
{
    if s.len() == 0 {
        seq![Seq::empty()]
    } else {
        let prev = split_on(s.drop_last(), sep);
        if s.last() == sep {
            prev.push(Seq::empty())
        } else {
            prev.update(prev.len() - 1, prev.last().push(s.last()))
        }
    }
}

/// The index of the first `c` in `s`, or the length of `s` when there is none.
pub open spec fn first_index(s: Seq<char>, c: char) -> int
    decreases s.len(),
{
    if s.len() == 0 {
        0
    } else if s[0] == c {
        0
    } else {
        1 + first_index(s.drop_first(), c)
    }
}

/// One stored reminder, `<seconds>:<sent flag>`: both halves must read as
/// `i64`; the reminder counts as sent when the flag is not zero.
pub open spec fn parse_entry(part: Seq<char>) -> Option<ReminderEntry> {
    let k = first_index(part, ':');
    if k >= part.len() {
        None
    } else {
        match (parse_i64_text(part.take(k)), parse_i64_text(part.skip(k + 1))) {
            (Some(secs), Some(flag)) => Some((secs, flag != 0)),
            _ => None,
        }
    }
}

/// `x` placed into `s` after every element whose offset is not larger.
pub open spec fn insert_by_secs(s: Seq<ReminderEntry>, x: ReminderEntry) -> Seq<ReminderEntry>
    decreases s.len(),
{
    if s.len() == 0 {
        seq![x]
    } else if x.0 < s[0].0 {
        seq![x] + s
    } else {
        seq![s[0]] + insert_by_secs(s.drop_first(), x)
    }
}

/// `s` sorted by offset; entries with equal offsets keep their order.
pub open spec fn sort_by_secs(s: Seq<ReminderEntry>) -> Seq<ReminderEntry>
    decreases s.len(),
{
    if s.len() == 0 {
        s
    } else {
        insert_by_secs(sort_by_secs(s.drop_last()), s.last())
    }
}

/// The reminders that a stored list `secs:flag,secs:flag,...` stands for:
/// pieces that do not read are skipped, the rest sorted by offset.
pub open spec fn reminders_from_column(col: Option<Seq<char>>) -> Seq<ReminderEntry> {
    match col {
        None => Seq::empty(),
        Some(t) => if t.len() == 0 {
            Seq::empty()
        } else {
            sort_by_secs(split_on(t, ',').filter_map(|p: Seq<char>| parse_entry(p)))
        },
    }
}

pub(crate) proof fn lemma_split_nonempty(s: Seq<char>, sep: char)
    ensures
        split_on(s, sep).len() >= 1,
    decreases s.len(),
{
    if s.len() > 0 {
        lemma_split_nonempty(s.drop_last(), sep);
    }
}

proof fn lemma_first_index(s: Seq<char>, c: char, k: int)
    requires
        0 <= k <= s.len(),
        forall|j: int| 0 <= j < k ==> s[j] != c,
        k == s.len() || s[k] == c,
    ensures
        first_index(s, c) == k,
    decreases s.len(),
{
    if s.len() > 0 && k > 0 {
        let t = s.drop_first();
        assert forall|j: int| 0 <= j < k - 1 implies t[j] != c by {
            assert(t[j] == s[j + 1]);
        }
        if k < s.len() {
            assert(t[k - 1] == s[k]);
        }
        lemma_first_index(t, c, k - 1);
    }
}

/// Reads one stored reminder out of `cs[lo..hi]`.
fn parse_entry_at(cs: &Vec<char>, lo: usize, hi: usize) -> (r: Option<ReminderEntry>)
    requires
        lo <= hi <= cs@.len(),
    ensures
        r == parse_entry(cs@.subrange(lo as int, hi as int)),
{
    let ghost part = cs@.subrange(lo as int, hi as int);
    let mut k: usize = lo;
    while k < hi && cs[k] != ':'
        invariant
            lo <= k <= hi <= cs@.len(),
            part == cs@.subrange(lo as int, hi as int),
            forall|j: int| 0 <= j < k - lo ==> part[j] != ':',
        decreases hi - k,
    {
        assert(part[k - lo] == cs@[k as int]);
        k = k + 1;
    }
    proof {
        if k < hi {
            assert(part[k - lo] == cs@[k as int]);
        }
        lemma_first_index(part, ':', k - lo);
    }
    if k == hi {
        return None;
    }
    assert(part.take(k - lo) =~= cs@.subrange(lo as int, k as int));
    assert(part.skip(k - lo + 1) =~= cs@.subrange(k + 1, hi as int));
    let secs = parse_i64_chars(cs, lo, k);
    let flag = parse_i64_chars(cs, k + 1, hi);
    match (secs, flag) {
        (Some(s), Some(f)) => Some((s, f != 0)),
        _ => None,
    }
}

/// Reads every piece of a stored list, skipping those that do not read.
fn entries_of_chars(cs: &Vec<char>) -> (r: Vec<ReminderEntry>)
    ensures
        r@ == split_on(cs@, ',').filter_map(|p: Seq<char>| parse_entry(p)),
{
    let ghost f = |p: Seq<char>| parse_entry(p);
    let n = cs.len();
    let mut out: Vec<ReminderEntry> = Vec::new();
    let mut start: usize = 0;
    let mut i: usize = 0;
    proof {
        assert(cs@.take(0) =~= Seq::<char>::empty());
        assert(split_on(cs@.take(0), ',').drop_last() =~= Seq::<Seq<char>>::empty());
        assert(cs@.subrange(0, 0) =~= Seq::<char>::empty());
    }
    while i < n
        invariant
            n == cs@.len(),
            start <= i <= n,
            f == (|p: Seq<char>| parse_entry(p)),
            out@ == split_on(cs@.take(i as int), ',').drop_last().filter_map(f),
            split_on(cs@.take(i as int), ',').last() == cs@.subrange(start as int, i as int),
        decreases n - i,
    {
        let ghost p = split_on(cs@.take(i as int), ',');
        proof {
            lemma_split_nonempty(cs@.take(i as int), ',');
            assert(cs@.take(i + 1).drop_last() =~= cs@.take(i as int));
            assert(cs@.take(i + 1).last() == cs@[i as int]);
            assert(p.drop_last().push(p.last()) =~= p);
        }
        if cs[i] == ',' {
            let e = parse_entry_at(cs, start, i);
            match e {
                Some(x) => {
                    out.push(x);
                },
                None => {},
            }
            proof {
                let q = split_on(cs@.take(i + 1), ',');
                assert(q == p.push(Seq::<char>::empty()));
                assert(q.drop_last() =~= p);
                assert(p.filter_map(f) == p.drop_last().filter_map(f) + (match f(p.last()) {
                    Some(s) => seq![s],
                    None => Seq::empty(),
                }));
                assert(out@ =~= q.drop_last().filter_map(f));
                assert(cs@.subrange(i + 1, i + 1) =~= Seq::<char>::empty());
            }
            start = i + 1;
        } else {
            proof {
                let q = split_on(cs@.take(i + 1), ',');
                assert(q == p.update(p.len() - 1, p.last().push(cs@[i as int])));
                assert(q.drop_last() =~= p.drop_last());
                assert(q.last() =~= cs@.subrange(start as int, i + 1));
            }
        }
        i = i + 1;
    }
    let e = parse_entry_at(cs, start, n);
    match e {
        Some(x) => {
            out.push(x);
        },
        None => {},
    }
    proof {
        let p = split_on(cs@, ',');
        assert(cs@.take(n as int) =~= cs@);
        lemma_split_nonempty(cs@, ',');
        assert(p.filter_map(f) == p.drop_last().filter_map(f) + (match f(p.last()) {
            Some(s) => seq![s],
            None => Seq::empty(),
        }));
        assert(out@ =~= p.filter_map(f));
    }
    out
}

proof fn lemma_insert_at_first_greater(s: Seq<ReminderEntry>, x: ReminderEntry, p: int)
    requires
        0 <= p <= s.len(),
        forall|j: int| 0 <= j < p ==> s[j].0 <= x.0,
        p == s.len() || s[p].0 > x.0,
    ensures
        insert_by_secs(s, x) == s.insert(p, x),
    decreases s.len(),
{
    if s.len() == 0 {
        assert(s.insert(p, x) =~= seq![x]);
    } else if p == 0 {
        assert(s.insert(p, x) =~= seq![x] + s);
    } else {
        let t = s.drop_first();
        assert forall|j: int| 0 <= j < p - 1 implies t[j].0 <= x.0 by {
            assert(t[j] == s[j + 1]);
        }
        if p < s.len() {
            assert(t[p - 1] == s[p]);
        }
        lemma_insert_at_first_greater(t, x, p - 1);
        assert(seq![s[0]] + t.insert(p - 1, x) =~= s.insert(p, x));
    }
}

/// Sorts stored reminders by offset, keeping the order of equal offsets.
fn sort_entries(v: Vec<ReminderEntry>) -> (r: Vec<ReminderEntry>)
    ensures
        r@ == sort_by_secs(v@),
{
    let n = v.len();
    let mut out: Vec<ReminderEntry> = Vec::new();
    let mut i: usize = 0;
    assert(v@.take(0) =~= Seq::<ReminderEntry>::empty());
    while i < n
        invariant
            n == v@.len(),
            i <= n,
            out@ == sort_by_secs(v@.take(i as int)),
        decreases n - i,
    {
        let x = v[i];
        let m = out.len();
        let mut p: usize = 0;
        while p < m && out[p].0 <= x.0
            invariant
                m == out@.len(),
                p <= m,
                forall|j: int| 0 <= j < p ==> out@[j].0 <= x.0,
            decreases m - p,
        {
            p = p + 1;
        }
        proof {
            lemma_insert_at_first_greater(out@, x, p as int);
            assert(v@.take(i + 1).drop_last() =~= v@.take(i as int));
            assert(v@.take(i + 1).last() == x);
        }
        out.insert(p, x);
        i = i + 1;
    }
    assert(v@.take(n as int) =~= v@);
    out
}

/// Reads the stored list of a task's reminders, `secs:flag` pieces joined by
/// commas; pieces that do not read are skipped, the rest sorted by offset.
pub fn parse_reminders(s: Option<String>) -> (r: Vec<ReminderEntry>)
    ensures
        r@ == reminders_from_column(opt_chars(s)),
{
    match s {
        None => Vec::new(),
        Some(t) => {
            let cs = chars_of(t.as_str());
            if cs.len() == 0 {
                return Vec::new();
            }
            let entries = entries_of_chars(&cs);
            sort_entries(entries)
        },
    }
}

// ---------------------------------------------------------------------------
// What sorting the stored reminders keeps
// ---------------------------------------------------------------------------

/// Whether the entries of `s` are in nondecreasing order of offset.
pub open spec fn secs_sorted(s: Seq<ReminderEntry>) -> bool {
    forall|i: int, j: int| 0 <= i < j < s.len() ==> s[i].0 <= s[j].0
}

/// The entries of `s` whose offset is `k`, in order.
pub open spec fn with_secs(s: Seq<ReminderEntry>, k: i64) -> Seq<ReminderEntry> {
    s.filter(has_secs(k))
}

/// Whether an entry's offset is `k`.
pub open spec fn has_secs(k: i64) -> spec_fn(ReminderEntry) -> bool {
    |e: ReminderEntry| e.0 == k
}

proof fn lemma_insert_facts(s: Seq<ReminderEntry>, x: ReminderEntry)
    requires
        secs_sorted(s),
    ensures
        secs_sorted(insert_by_secs(s, x)),
        insert_by_secs(s, x).to_multiset() =~= s.to_multiset().insert(x),
        forall|i: int|
            0 <= i < insert_by_secs(s, x).len() ==> #[trigger] insert_by_secs(s, x)[i] == x
                || s.contains(insert_by_secs(s, x)[i]),
        insert_by_secs(s, x).len() == s.len() + 1,
        forall|k: i64|
            #[trigger] with_secs(insert_by_secs(s, x), k) == (if x.0 == k {
                with_secs(s, k).push(x)
            } else {
                with_secs(s, k)
            }),
    decreases s.len(),
{
    broadcast use vstd::seq_lib::group_to_multiset_ensures;
    broadcast use vstd::seq_lib::lemma_multiset_commutative;
    broadcast use vstd::multiset::group_multiset_axioms;

    let r = insert_by_secs(s, x);
    if s.len() == 0 {
        assert(r =~= Seq::<ReminderEntry>::empty().push(x));
        assert forall|k: i64| #[trigger]
            with_secs(r, k) == (if x.0 == k {
                with_secs(s, k).push(x)
            } else {
                with_secs(s, k)
            }) by {
            Seq::<ReminderEntry>::empty().lemma_filter_push(x, has_secs(k));
            assert(s =~= Seq::<ReminderEntry>::empty());
        }
    } else if x.0 < s[0].0 {
        assert(r == seq![x] + s);
        assert forall|i: int, j: int| 0 <= i < j < r.len() implies r[i].0 <= r[j].0 by {
            if i == 0 {
                assert(r[j] == s[j - 1]);
                assert(s[0].0 <= s[j - 1].0);
            } else {
                assert(r[i] == s[i - 1]);
                assert(r[j] == s[j - 1]);
            }
        }
        assert forall|i: int| 0 <= i < r.len() implies #[trigger] r[i] == x || s.contains(r[i]) by {
            if i > 0 {
                assert(r[i] == s[i - 1]);
            }
        }
        assert forall|k: i64| #[trigger]
            with_secs(r, k) == (if x.0 == k {
                with_secs(s, k).push(x)
            } else {
                with_secs(s, k)
            }) by {
            let pk = has_secs(k);
            s.lemma_filter_prepend(x, pk);
            if x.0 == k {
                assert forall|i: int| 0 <= i < s.len() implies !pk(s[i]) by {
                    assert(s[0].0 <= s[i].0);
                }
                s.lemma_all_neg_filter_empty(pk);
                assert(with_secs(s, k) =~= Seq::<ReminderEntry>::empty());
                assert(seq![x] + Seq::<ReminderEntry>::empty() =~= Seq::<ReminderEntry>::empty().push(
                    x,
                ));
            } else {
                assert(Seq::<ReminderEntry>::empty() + s.filter(pk) =~= s.filter(pk));
            }
        }
    } else {
        let t = s.drop_first();
        assert(secs_sorted(t)) by {
            assert forall|i: int, j: int| 0 <= i < j < t.len() implies t[i].0 <= t[j].0 by {
                assert(t[i] == s[i + 1]);
                assert(t[j] == s[j + 1]);
            }
        }
        lemma_insert_facts(t, x);
        let rt = insert_by_secs(t, x);
        assert(r == seq![s[0]] + rt);
        assert(s =~= seq![s[0]] + t);
        assert forall|i: int| 0 <= i < r.len() implies #[trigger] r[i] == x || s.contains(r[i]) by {
            if i == 0 {
                assert(s[0] == r[0]);
            } else {
                assert(r[i] == rt[i - 1]);
                if rt[i - 1] != x {
                    let j = choose|j: int| 0 <= j < t.len() && t[j] == rt[i - 1];
                    assert(s[j + 1] == r[i]);
                }
            }
        }
        assert forall|i: int, j: int| 0 <= i < j < r.len() implies r[i].0 <= r[j].0 by {
            if i == 0 {
                assert(r[j] == rt[j - 1]);
                if rt[j - 1] != x {
                    let m = choose|m: int| 0 <= m < t.len() && t[m] == rt[j - 1];
                    assert(s[m + 1] == rt[j - 1]);
                }
            } else {
                assert(r[i] == rt[i - 1]);
                assert(r[j] == rt[j - 1]);
            }
        }
        assert(r.to_multiset() =~= s.to_multiset().insert(x)) by {
            assert((seq![s[0]] + rt).to_multiset() =~= seq![s[0]].to_multiset().add(
                rt.to_multiset(),
            ));
            assert((seq![s[0]] + t).to_multiset() =~= seq![s[0]].to_multiset().add(
                t.to_multiset(),
            ));
        }
        assert forall|k: i64| #[trigger]
            with_secs(r, k) == (if x.0 == k {
                with_secs(s, k).push(x)
            } else {
                with_secs(s, k)
            }) by {
            let pk = has_secs(k);
            rt.lemma_filter_prepend(s[0], pk);
            t.lemma_filter_prepend(s[0], pk);
            assert(with_secs(rt, k) == (if x.0 == k {
                with_secs(t, k).push(x)
            } else {
                with_secs(t, k)
            }));
            let head = if pk(s[0]) {
                seq![s[0]]
            } else {
                Seq::<ReminderEntry>::empty()
            };
            if x.0 == k {
                assert(head + t.filter(pk).push(x) =~= (head + t.filter(pk)).push(x));
            }
        }
    }
}

/// Sorting the stored reminders orders them by offset, loses and adds
/// nothing, and keeps the stored order of reminders with equal offsets.
pub proof fn law_sorted_reminders(s: Seq<ReminderEntry>, k: i64)
    ensures
        secs_sorted(sort_by_secs(s)),
        sort_by_secs(s).to_multiset() == s.to_multiset(),
        with_secs(sort_by_secs(s), k) == with_secs(s, k),
    decreases s.len(),
{
    broadcast use vstd::seq_lib::group_to_multiset_ensures;

    if s.len() == 0 {
    } else {
        let d = s.drop_last();
        law_sorted_reminders(d, k);
        lemma_insert_facts(sort_by_secs(d), s.last());
        assert(s =~= d.push(s.last()));
        let pk = has_secs(k);
        assert(with_secs(s, k) == s.filter(pk));
        assert(with_secs(d, k) == d.filter(pk));
        d.lemma_filter_push(s.last(), pk);
    }
}

// ---------------------------------------------------------------------------
// What the store writes for a task's reminders reads back
// ---------------------------------------------------------------------------

/// The text that the store writes for one reminder: its offset and its
/// sent flag as decimal integers, joined by `:`.
pub open spec fn entry_text(secs: i64, flag: i64) -> Seq<char> {
    int_text(secs as int) + seq![':'] + int_text(flag as int)
}

/// The text that the store writes for a task's reminders: the entries'
/// texts joined by `,`.
pub open spec fn column_text(es: Seq<(i64, i64)>) -> Seq<char>
    decreases es.len(),
{
    if es.len() == 0 {
        Seq::empty()
    } else if es.len() == 1 {
        entry_text(es[0].0, es[0].1)
    } else {
        column_text(es.drop_last()) + seq![','] + entry_text(es.last().0, es.last().1)
    }
}

/// Stored reminders with their flags read as sent or not.
pub open spec fn as_entries(es: Seq<(i64, i64)>) -> Seq<ReminderEntry> {
    es.map_values(|e: (i64, i64)| (e.0, e.1 != 0))
}

proof fn lemma_entry_text(secs: i64, flag: i64)
    ensures
        parse_entry(entry_text(secs, flag)) == Some((secs, flag != 0)),
        entry_text(secs, flag).len() > 0,
        forall|i: int|
            0 <= i < entry_text(secs, flag).len() ==> #[trigger] entry_text(secs, flag)[i] != ',',
{
    law_i64_text_round_trip(secs);
    law_i64_text_round_trip(flag);
    let a = int_text(secs as int);
    let b = int_text(flag as int);
    let s = entry_text(secs, flag);
    let k = a.len() as int;
    assert forall|j: int| 0 <= j < k implies s[j] != ':' by {
        assert(s[j] == a[j]);
    }
    assert(s[k] == ':');
    lemma_first_index(s, ':', k);
    assert(s.take(k) =~= a);
    assert(s.skip(k + 1) =~= b);
    assert forall|i: int| 0 <= i < s.len() implies #[trigger] s[i] != ',' by {
        if i < k {
            assert(s[i] == a[i]);
        } else if i > k {
            assert(s[i] == b[i - k - 1]);
        }
    }
}

pub(crate) proof fn lemma_split_append(s: Seq<char>, t: Seq<char>, sep: char)
    requires
        forall|i: int| 0 <= i < t.len() ==> t[i] != sep,
    ensures
        split_on(s + t, sep) == split_on(s, sep).update(
            split_on(s, sep).len() - 1,
            split_on(s, sep).last() + t,
        ),
    decreases t.len(),
{
    lemma_split_nonempty(s, sep);
    let p = split_on(s, sep);
    if t.len() == 0 {
        assert(s + t =~= s);
        assert(p.last() + t =~= p.last());
        assert(p.update(p.len() - 1, p.last()) =~= p);
    } else {
        let t0 = t.drop_last();
        assert forall|i: int| 0 <= i < t0.len() implies t0[i] != sep by {
            assert(t0[i] == t[i]);
        }
        lemma_split_append(s, t0, sep);
        assert((s + t).drop_last() =~= s + t0);
        assert((s + t).last() == t.last());
        assert(t.last() == t[t.len() - 1]);
        let q = split_on(s + t0, sep);
        assert(q == p.update(p.len() - 1, p.last() + t0));
        assert(q.last() == p.last() + t0);
        assert(split_on(s + t, sep) == q.update(q.len() - 1, q.last().push(t.last())));
        assert(q.last().push(t.last()) =~= p.last() + t);
        assert(q.update(q.len() - 1, q.last().push(t.last())) =~= p.update(
            p.len() - 1,
            p.last() + t,
        ));
    }
}

proof fn lemma_column_pieces(es: Seq<(i64, i64)>)
    requires
        es.len() > 0,
    ensures
        split_on(column_text(es), ',') == es.map_values(|e: (i64, i64)| entry_text(e.0, e.1)),
    decreases es.len(),
{
    let f = |e: (i64, i64)| entry_text(e.0, e.1);
    let last = es.last();
    lemma_entry_text(last.0, last.1);
    let y = entry_text(last.0, last.1);
    if es.len() == 1 {
        lemma_split_append(Seq::empty(), y, ',');
        assert(Seq::<char>::empty() + y =~= y);
        assert(column_text(es) == y);
        assert(split_on(Seq::<char>::empty(), ',') =~= seq![Seq::<char>::empty()]);
        assert(split_on(y, ',') =~= seq![y]);
        assert(es.map_values(f) =~= seq![y]);
    } else {
        let d = es.drop_last();
        lemma_column_pieces(d);
        let x = column_text(d);
        let xs = x + seq![','];
        assert(x.push(',') =~= xs);
        assert(xs.drop_last() =~= x);
        assert(split_on(xs, ',') == split_on(x, ',').push(Seq::<char>::empty()));
        lemma_split_append(xs, y, ',');
        assert(column_text(es) == xs + y);
        let p = split_on(xs, ',');
        assert(p.last() + y =~= y);
        assert(split_on(column_text(es), ',') =~= d.map_values(f).push(y));
        assert(es.map_values(f) =~= d.map_values(f).push(y));
    }
}

proof fn lemma_read_pieces(es: Seq<(i64, i64)>)
    ensures
        es.map_values(|e: (i64, i64)| entry_text(e.0, e.1)).filter_map(
            |p: Seq<char>| parse_entry(p),
        ) == as_entries(es),
    decreases es.len(),
{
    let f = |e: (i64, i64)| entry_text(e.0, e.1);
    let g = |p: Seq<char>| parse_entry(p);
    let pieces = es.map_values(f);
    if es.len() == 0 {
        assert(pieces.filter_map(g) =~= as_entries(es));
    } else {
        let d = es.drop_last();
        lemma_read_pieces(d);
        lemma_entry_text(es.last().0, es.last().1);
        assert(pieces.drop_last() =~= d.map_values(f));
        assert(pieces.last() == entry_text(es.last().0, es.last().1));
        assert(pieces.filter_map(g) == pieces.drop_last().filter_map(g) + seq![
            (es.last().0, es.last().1 != 0),
        ]);
        assert(as_entries(es) =~= as_entries(d) + seq![(es.last().0, es.last().1 != 0)]);
    }
}

/// What the store writes for a task's reminders reads back as those
/// reminders, sorted by offset (those with equal offsets in stored order).
pub proof fn law_stored_reminders_read_back(es: Seq<(i64, i64)>)
    requires
        es.len() > 0,
    ensures
        reminders_from_column(Some(column_text(es))) == sort_by_secs(as_entries(es)),
{
    lemma_column_pieces(es);
    lemma_read_pieces(es);
    lemma_entry_text(es[0].0, es[0].1);
    assert(column_text(es).len() > 0) by {
        lemma_column_len(es);
    }
}

proof fn lemma_column_len(es: Seq<(i64, i64)>)
    requires
        es.len() > 0,
    ensures
        column_text(es).len() > 0,
    decreases es.len(),
{
    lemma_entry_text(es.last().0, es.last().1);
    if es.len() == 1 {
        lemma_entry_text(es[0].0, es[0].1);
    }
}

/// A row of the task table, column by column, as the database hands it back.
pub struct TaskRow {
    pub id: i64,
    pub user_id: String,
    pub guild_id: String,
    pub title: String,
    pub description: Option<String>,
    pub status: String,
    pub priority: String,
    pub due_date: Option<String>,
    pub created_at: String,
    pub channel_id: Option<String>,
    /// The task's reminders, `secs:flag` pieces joined by commas.
    pub reminders_data: Option<String>,
    pub discord_event_id: Option<String>,
}

/// Makes a task out of a row of the task table.
pub fn row_to_task(row: TaskRow) -> (t: Task)
    ensures
        t.id == row.id,
        t.user_id == row.user_id,
        t.guild_id == row.guild_id,
        t.title == row.title,
        t.description == row.description,
        t.status == status_from_name(row.status@),
        t.priority == priority_from_name(row.priority@),
        t.due_date == row.due_date,
        t.created_at == row.created_at,
        t.channel_id == row.channel_id,
        t.reminders@ == reminders_from_column(opt_chars(row.reminders_data)),
        t.discord_event_id == row.discord_event_id,
{
    let status = TaskStatus::from_str(row.status.as_str());
    let priority = Priority::from_str(row.priority.as_str());
    let reminders = parse_reminders(row.reminders_data);
    Task {
        id: row.id,
        user_id: row.user_id,
        guild_id: row.guild_id,
        title: row.title,
        description: row.description,
        status,
        priority,
        due_date: row.due_date,
        created_at: row.created_at,
        channel_id: row.channel_id,
        reminders,
        discord_event_id: row.discord_event_id,
    }
}

} // verus!
