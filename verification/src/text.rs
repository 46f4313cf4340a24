use vstd::prelude::*;

verus! {

// ---------------------------------------------------------------------------
// Decimal digits
// ---------------------------------------------------------------------------

/// The character of a decimal digit `0..=9`.
pub open spec fn digit_char(d: int) -> char {
    if d == 0 {
        '0'
    } else if d == 1 {
        '1'
    } else if d == 2 {
        '2'
    } else if d == 3 {
        '3'
    } else if d == 4 {
        '4'
    } else if d == 5 {
        '5'
    } else if d == 6 {
        '6'
    } else if d == 7 {
        '7'
    } else if d == 8 {
        '8'
    } else {
        '9'
    }
}

/// Whether `c` is an ASCII decimal digit.
pub open spec fn is_digit(c: char) -> bool {
    '0' <= c && c <= '9'
}

/// The value of a decimal digit character.
pub open spec fn digit_value(c: char) -> int {
    c as int - '0' as int
}

/// The decimal rendering of a natural number, without leading zeros.
pub open spec fn nat_text(n: nat) -> Seq<char>
    decreases n,
{
    if n < 10 {
        seq![digit_char(n as int)]
    } else {
        nat_text(n / 10).push(digit_char((n % 10) as int))
    }
}

/// The decimal rendering of an integer, with a leading `-` when negative.
pub open spec fn int_text(n: int) -> Seq<char> {
    if n < 0 {
        seq!['-'] + nat_text((-n) as nat)
    } else {
        nat_text(n as nat)
    }
}

/// Whether every character of `s` is a decimal digit.
pub open spec fn all_digits(s: Seq<char>) -> bool {
    forall|i: int| 0 <= i < s.len() ==> is_digit(#[trigger] s[i])
}

/// The number that a run of decimal digits spells.
pub open spec fn digits_value(s: Seq<char>) -> nat
    decreases s.len(),
{
    if s.len() == 0 {
        0
    } else {
        (digits_value(s.drop_last()) * 10 + digit_value(s.last())) as nat
    }
}

/// What `str::parse::<u64>` gives for `s`: an optional `+`, then at least
/// one digit, the value fitting in `u64`.
pub open spec fn parse_u64_text(s: Seq<char>) -> Option<u64> {
    let body = if s.len() > 0 && s[0] == '+' { s.drop_first() } else { s };
    if body.len() > 0 && all_digits(body) && digits_value(body) <= u64::MAX {
        Some(digits_value(body) as u64)
    } else {
        None
    }
}

/// What `str::parse::<i64>` gives for `s`: an optional `+` or `-`, then at
/// least one digit, the value fitting in `i64`.
pub open spec fn parse_i64_text(s: Seq<char>) -> Option<i64> {
    if s.len() > 0 && s[0] == '-' {
        let body = s.drop_first();
        if body.len() > 0 && all_digits(body) && digits_value(body) <= 0x8000_0000_0000_0000 {
            Some((-digits_value(body)) as i64)
        } else {
            None
        }
    } else {
        let body = if s.len() > 0 && s[0] == '+' { s.drop_first() } else { s };
        if body.len() > 0 && all_digits(body) && digits_value(body) <= i64::MAX {
            Some(digits_value(body) as i64)
        } else {
            None
        }
    }
}

/// The one-character string of a decimal digit.
fn digit_str(d: u64) -> (r: &'static str)
    requires
        d < 10,
    ensures
        r@ == seq![digit_char(d as int)],
{
    proof {
        reveal_strlit("0");
        reveal_strlit("1");
        reveal_strlit("2");
        reveal_strlit("3");
        reveal_strlit("4");
        reveal_strlit("5");
        reveal_strlit("6");
        reveal_strlit("7");
        reveal_strlit("8");
        reveal_strlit("9");
    }
    let r = if d == 0 {
        "0"
    } else if d == 1 {
        "1"
    } else if d == 2 {
        "2"
    } else if d == 3 {
        "3"
    } else if d == 4 {
        "4"
    } else if d == 5 {
        "5"
    } else if d == 6 {
        "6"
    } else if d == 7 {
        "7"
    } else if d == 8 {
        "8"
    } else {
        "9"
    };
    assert(r@ =~= seq![digit_char(d as int)]);
    r
}

/// Renders a `u64` in decimal.
pub fn u64_to_text(n: u64) -> (r: String)
    ensures
        r@ == nat_text(n as nat),
{
    let mut m: u64 = n;
    let mut acc = String::new();
    loop
        invariant_except_break
            nat_text(n as nat) == nat_text(m as nat) + acc@,
        ensures
            nat_text(n as nat) == acc@,
        decreases m,
    {
        let d = m % 10;
        let head = String::from_str(digit_str(d));
        let ghost old_acc = acc@;
        acc = head.concat(acc.as_str());
        if m < 10 {
            assert(nat_text(m as nat) =~= seq![digit_char(d as int)]);
            assert(acc@ =~= nat_text(m as nat) + old_acc);
            break;
        }
        assert(nat_text(m as nat) == nat_text((m / 10) as nat).push(digit_char(d as int)));
        assert(nat_text(m as nat) + old_acc =~= nat_text((m / 10) as nat) + acc@);
        m = m / 10;
    }
    acc
}

/// Renders an `i64` in decimal.
pub fn i64_to_text(n: i64) -> (r: String)
    ensures
        r@ == int_text(n as int),
{
    if n < 0 {
        let mag: u64 = if n == i64::MIN {
            0x8000_0000_0000_0000u64
        } else {
            (-n) as u64
        };
        let digits = u64_to_text(mag);
        let r = String::from_str("-").concat(digits.as_str());
        proof {
            reveal_strlit("-");
        }
        assert(r@ =~= int_text(n as int));
        r
    } else {
        u64_to_text(n as u64)
    }
}

/// Renders a `usize` in decimal.
pub fn usize_to_text(n: usize) -> (r: String)
    ensures
        r@ == nat_text(n as nat),
{
    u64_to_text(n as u64)
}

proof fn lemma_digit_char(k: int)
    requires
        0 <= k < 10,
    ensures
        is_digit(digit_char(k)),
        digit_value(digit_char(k)) == k,
{
}

proof fn lemma_nat_text(m: nat)
    ensures
        nat_text(m).len() > 0,
        all_digits(nat_text(m)),
        digits_value(nat_text(m)) == m,
    decreases m,
{
    if m < 10 {
        lemma_digit_char(m as int);
        let s = nat_text(m);
        assert(s.drop_last() =~= Seq::<char>::empty());
        assert(digits_value(s.drop_last()) == 0);
    } else {
        lemma_nat_text(m / 10);
        lemma_digit_char((m % 10) as int);
        let s = nat_text(m);
        assert(s.drop_last() =~= nat_text(m / 10));
        assert(s.last() == digit_char((m % 10) as int));
        assert forall|i: int| 0 <= i < s.len() implies is_digit(#[trigger] s[i]) by {
            if i < s.len() - 1 {
                assert(s[i] == nat_text(m / 10)[i]);
            }
        }
    }
}

/// Reading an `i64` back from its decimal rendering gives the number; the
/// rendering holds no `:` or `,`.
pub proof fn law_i64_text_round_trip(n: i64)
    ensures
        parse_i64_text(int_text(n as int)) == Some(n),
        int_text(n as int).len() > 0,
        forall|i: int|
            0 <= i < int_text(n as int).len() ==> #[trigger] int_text(n as int)[i] != ':'
                && int_text(n as int)[i] != ',',
{
    let s = int_text(n as int);
    if n < 0 {
        let m = (-n) as nat;
        lemma_nat_text(m);
        assert(s.drop_first() =~= nat_text(m));
        assert forall|i: int| 0 <= i < s.len() implies #[trigger] s[i] != ':' && s[i] != ',' by {
            if i > 0 {
                assert(s[i] == nat_text(m)[i - 1]);
                assert(is_digit(nat_text(m)[i - 1]));
            }
        }
    } else {
        lemma_nat_text(n as nat);
        assert(is_digit(s[0]));
        assert forall|i: int| 0 <= i < s.len() implies #[trigger] s[i] != ':' && s[i] != ',' by {
            assert(is_digit(s[i]));
        }
    }
}

/// Every character of an integer's rendering is a digit or `-`.
pub(crate) proof fn lemma_int_text_chars(n: int)
    ensures
        forall|i: int|
            0 <= i < int_text(n).len() ==> is_digit(#[trigger] int_text(n)[i]) || int_text(n)[i]
                == '-',
{
    let s = int_text(n);
    if n < 0 {
        let m = (-n) as nat;
        lemma_nat_text(m);
        assert forall|i: int| 0 <= i < s.len() implies is_digit(#[trigger] s[i]) || s[i] == '-' by {
            if i > 0 {
                assert(s[i] == nat_text(m)[i - 1]);
            }
        }
    } else {
        lemma_nat_text(n as nat);
    }
}

/// Reading a `u64` back from its decimal rendering gives the number.
pub proof fn law_u64_text_round_trip(n: u64)
    ensures
        parse_u64_text(nat_text(n as nat)) == Some(n),
{
    lemma_nat_text(n as nat);
    let s = nat_text(n as nat);
    assert(is_digit(s[0]));
}

// ---------------------------------------------------------------------------
// Strings as character sequences
// ---------------------------------------------------------------------------

/// The characters of an optional string.
pub open spec fn opt_chars(s: Option<String>) -> Option<Seq<char>> {
    match s {
        Some(t) => Some(t@),
        None => None,
    }
}

/// Compares two strings character by character.
pub fn str_equals(a: &str, b: &str) -> (r: bool)
    ensures
        r == (a@ == b@),
{
    let n = a.unicode_len();
    let m = b.unicode_len();
    if n != m {
        return false;
    }
    let mut i: usize = 0;
    while i < n
        invariant
            n == a@.len(),
            m == b@.len(),
            n == m,
            i <= n,
            forall|j: int| 0 <= j < i ==> a@[j] == b@[j],
        decreases n - i,
    {
        if a.get_char(i) != b.get_char(i) {
            return false;
        }
        i = i + 1;
    }
    assert(a@ =~= b@);
    true
}

/// The characters of a string.
pub fn chars_of(s: &str) -> (r: Vec<char>)
    ensures
        r@ == s@,
{
    let n = s.unicode_len();
    let mut r: Vec<char> = Vec::new();
    let mut i: usize = 0;
    while i < n
        invariant
            n == s@.len(),
            i <= n,
            r@ == s@.take(i as int),
        decreases n - i,
    {
        let c = s.get_char(i);
        r.push(c);
        i = i + 1;
        assert(r@ =~= s@.take(i as int));
    }
    assert(s@.take(n as int) =~= s@);
    r
}

// ---------------------------------------------------------------------------
// Number parsing
// ---------------------------------------------------------------------------

proof fn lemma_digits_value_step(s: Seq<char>, i: int)
    requires
        0 <= i < s.len(),
        is_digit(s[i]),
    ensures
        digits_value(s.take(i + 1)) == digits_value(s.take(i)) * 10 + digit_value(s[i]),
{
    assert(s.take(i + 1).drop_last() =~= s.take(i));
    assert(s.take(i + 1).last() == s[i]);
}

/// The value of the digits `cs[lo..hi]`, capped at `cap + 1`, and whether
/// they are all digits.
fn scan_digits(cs: &Vec<char>, lo: usize, hi: usize, cap: u64) -> (r: (bool, u128))
    requires
        lo <= hi <= cs@.len(),
    ensures
        r.0 == all_digits(cs@.subrange(lo as int, hi as int)),
        r.0 ==> r.1 == (if digits_value(cs@.subrange(lo as int, hi as int)) <= cap {
            digits_value(cs@.subrange(lo as int, hi as int)) as int
        } else {
            cap + 1
        }),
{
    let ghost body = cs@.subrange(lo as int, hi as int);
    let mut acc: u128 = 0;
    let mut i: usize = lo;
    while i < hi
        invariant
            lo <= i <= hi <= cs@.len(),
            body == cs@.subrange(lo as int, hi as int),
            all_digits(body.take(i - lo)),
            acc == (if digits_value(body.take(i - lo)) <= cap {
                digits_value(body.take(i - lo)) as int
            } else {
                cap + 1
            }),
        decreases hi - i,
    {
        let c = cs[i];
        if !('0' <= c && c <= '9') {
            assert(!all_digits(body)) by {
                assert(body[i - lo] == c);
            }
            return (false, 0);
        }
        let d = (c as u32 - '0' as u32) as u128;
        proof {
            assert(body[i - lo] == c);
            lemma_digits_value_step(body, i - lo);
            assert(all_digits(body.take(i - lo + 1))) by {
                assert forall|j: int| 0 <= j < i - lo + 1 implies is_digit(
                    #[trigger] body.take(i - lo + 1)[j],
                ) by {
                    if j < i - lo {
                        assert(body.take(i - lo + 1)[j] == body.take(i - lo)[j]);
                    }
                }
            }
        }
        let next = acc * 10 + d;
        if next > cap as u128 {
            acc = cap as u128 + 1;
        } else {
            acc = next;
        }
        i = i + 1;
    }
    assert(body.take(hi - lo) =~= body);
    (true, acc)
}

/// Parses `cs[lo..hi]` as `str::parse::<u64>` does.
pub fn parse_u64_chars(cs: &Vec<char>, lo: usize, hi: usize) -> (r: Option<u64>)
    requires
        lo <= hi <= cs@.len(),
    ensures
        r == parse_u64_text(cs@.subrange(lo as int, hi as int)),
{
    let ghost s = cs@.subrange(lo as int, hi as int);
    let mut start = lo;
    if lo < hi && cs[lo] == '+' {
        start = lo + 1;
    }
    assert(cs@.subrange(start as int, hi as int) =~= (if s.len() > 0 && s[0] == '+' {
        s.drop_first()
    } else {
        s
    }));
    if start == hi {
        return None;
    }
    let (ok, v) = scan_digits(cs, start, hi, u64::MAX);
    if !ok || v > u64::MAX as u128 {
        None
    } else {
        Some(v as u64)
    }
}

/// Parses `cs[lo..hi]` as `str::parse::<i64>` does.
pub fn parse_i64_chars(cs: &Vec<char>, lo: usize, hi: usize) -> (r: Option<i64>)
    requires
        lo <= hi <= cs@.len(),
    ensures
        r == parse_i64_text(cs@.subrange(lo as int, hi as int)),
{
    let ghost s = cs@.subrange(lo as int, hi as int);
    if lo < hi && cs[lo] == '-' {
        assert(cs@.subrange(lo + 1, hi as int) =~= s.drop_first());
        if lo + 1 == hi {
            return None;
        }
        let (ok, v) = scan_digits(cs, lo + 1, hi, 0x8000_0000_0000_0000u64);
        if !ok || v > 0x8000_0000_0000_0000u128 {
            None
        } else {
            let r: i128 = 0i128 - (v as i128);
            Some(r as i64)
        }
    } else {
        let mut start = lo;
        if lo < hi && cs[lo] == '+' {
            start = lo + 1;
        }
        assert(cs@.subrange(start as int, hi as int) =~= (if s.len() > 0 && s[0] == '+' {
            s.drop_first()
        } else {
            s
        }));
        if start == hi {
            return None;
        }
        let (ok, v) = scan_digits(cs, start, hi, i64::MAX as u64);
        if !ok || v > i64::MAX as u128 {
            None
        } else {
            Some(v as i64)
        }
    }
}

/// Parses a string as `str::parse::<u64>` does.
pub fn parse_u64(s: &str) -> (r: Option<u64>)
    ensures
        r == parse_u64_text(s@),
{
    let cs = chars_of(s);
    assert(cs@.subrange(0, cs@.len() as int) =~= s@);
    parse_u64_chars(&cs, 0, cs.len())
}

/// Parses a string as `str::parse::<i64>` does.
pub fn parse_i64(s: &str) -> (r: Option<i64>)
    ensures
        r == parse_i64_text(s@),
{
    let cs = chars_of(s);
    assert(cs@.subrange(0, cs@.len() as int) =~= s@);
    parse_i64_chars(&cs, 0, cs.len())
}

} // verus!
