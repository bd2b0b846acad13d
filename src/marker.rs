//! The marker file's text: a process identifier in decimal, with optional
//! surrounding white space on read and none on write.

use vstd::prelude::*;

verus! {

/// The largest process identifier: the largest value of the platform's `pid_t`.
pub const PID_MAX: i32 = 0x7fff_ffff;

/// White space in the sense of Unicode's `White_Space` property, which is what
/// trimming the marker text removes.
pub open spec fn is_space(c: char) -> bool {
    let v = c as u32;
    ||| 0x09 <= v <= 0x0d
    ||| v == 0x20
    ||| v == 0x85
    ||| v == 0xa0
    ||| v == 0x1680
    ||| 0x2000 <= v <= 0x200a
    ||| v == 0x2028
    ||| v == 0x2029
    ||| v == 0x202f
    ||| v == 0x205f
    ||| v == 0x3000
}

pub open spec fn is_digit(c: char) -> bool {
    '0' <= c <= '9'
}

pub open spec fn digit_value(c: char) -> int {
    c as int - '0' as int
}

/// The text with its leading white space removed.
pub open spec fn trim_start(s: Seq<char>) -> Seq<char>
    decreases s.len(),
{
    if s.len() > 0 && is_space(s[0]) {
        trim_start(s.drop_first())
    } else {
        s
    }
}

/// The text with its trailing white space removed.
pub open spec fn trim_end(s: Seq<char>) -> Seq<char>
    decreases s.len(),
{
    if s.len() > 0 && is_space(s.last()) {
        trim_end(s.drop_last())
    } else {
        s
    }
}

pub open spec fn trim(s: Seq<char>) -> Seq<char> {
    trim_end(trim_start(s))
}

/// The digits of a number, with an optional leading `+` taken off.
pub open spec fn unsigned_part(s: Seq<char>) -> Seq<char> {
    if s.len() > 0 && s[0] == '+' {
        s.drop_first()
    } else {
        s
    }
}

pub open spec fn all_digits(d: Seq<char>) -> bool {
    forall|i: int| 0 <= i < d.len() ==> is_digit(#[trigger] d[i])
}

/// The value of a string of decimal digits, most significant first.
pub open spec fn digits_value(d: Seq<char>) -> int
    decreases d.len(),
{
    if d.len() == 0 {
        0
    } else {
        digits_value(d.drop_last()) * 10 + digit_value(d.last())
    }
}

/// The process identifier that a marker's text names: after trimming, an
/// optional `+` and at least one decimal digit, whose value is a positive
/// `pid_t`. Any other text names none.
pub open spec fn pid_of(s: Seq<char>) -> Option<int> {
    let d = unsigned_part(trim(s));
    if d.len() > 0 && all_digits(d) && 0 < digits_value(d) <= PID_MAX {
        Some(digits_value(d))
    } else {
        None
    }
}

pub open spec fn digit_char(d: int) -> char
    recommends
        0 <= d < 10,
{
    (d + '0' as int) as char
}

/// The decimal form of a number, without sign, padding or white space.
pub open spec fn decimal(n: nat) -> Seq<char>
    decreases n,
{
    if n < 10 {
        seq![digit_char(n as int)]
    } else {
        decimal(n / 10).push(digit_char((n % 10) as int))
    }
}

/// Tells whether a character is white space, as trimming the marker sees it.
pub fn is_space_char(c: char) -> (r: bool)
    ensures
        r == is_space(c),
{
    let v = c as u32;
    (0x09 <= v && v <= 0x0d) || v == 0x20 || v == 0x85 || v == 0xa0 || v == 0x1680 || (0x2000
        <= v && v <= 0x200a) || v == 0x2028 || v == 0x2029 || v == 0x202f || v == 0x205f || v
        == 0x3000
}

proof fn lemma_digits_value_nonneg(d: Seq<char>)
    requires
        all_digits(d),
    ensures
        digits_value(d) >= 0,
    decreases d.len(),
{
    if d.len() > 0 {
        lemma_digits_value_nonneg(d.drop_last());
    }
}

/// A prefix of a string of digits is worth no more than the whole string.
proof fn lemma_prefix_value_le(d: Seq<char>, k: int)
    requires
        all_digits(d),
        0 <= k <= d.len(),
    ensures
        digits_value(d.subrange(0, k)) <= digits_value(d),
    decreases d.len(),
{
    if k < d.len() {
        let p = d.drop_last();
        assert(d.subrange(0, k) =~= p.subrange(0, k));
        lemma_prefix_value_le(p, k);
        lemma_digits_value_nonneg(p);
    } else {
        assert(d.subrange(0, k) =~= d);
    }
}

/// Reads the process identifier out of a marker's text, as `pid_of` states it.
pub fn parse_pid(text: &[char]) -> (r: Option<i32>)
    ensures
        match r {
            Some(p) => pid_of(text@) == Some(p as int),
            None => pid_of(text@) is None,
        },
{
    let ghost s = text@;
    let n = text.len();
    let mut i: usize = 0;
    assert(s.subrange(0, n as int) =~= s);
    while i < n && is_space_char(text[i])
        invariant
            i <= n,
            n == s.len(),
            s == text@,
            trim_start(s) == trim_start(s.subrange(i as int, n as int)),
        decreases n - i,
    {
        assert(s.subrange(i as int, n as int).drop_first() =~= s.subrange(i + 1, n as int));
        i = i + 1;
    }
    assert(trim_start(s) == s.subrange(i as int, n as int));
    let mut j: usize = n;
    while j > i && is_space_char(text[j - 1])
        invariant
            i <= j <= n,
            n == s.len(),
            s == text@,
            trim(s) == trim_end(s.subrange(i as int, j as int)),
        decreases j,
    {
        assert(s.subrange(i as int, j as int).drop_last() =~= s.subrange(i as int, j - 1));
        j = j - 1;
    }
    assert(trim(s) == s.subrange(i as int, j as int));
    let k: usize = if i < j && text[i] == '+' {
        i + 1
    } else {
        i
    };
    let ghost d = s.subrange(k as int, j as int);
    assert(unsigned_part(trim(s)) =~= d);
    if k == j {
        return None;
    }
    let mut t: usize = k;
    while t < j
        invariant
            k <= t <= j <= n,
            n == s.len(),
            s == text@,
            d == s.subrange(k as int, j as int),
            unsigned_part(trim(s)) == d,
            forall|q: int| k <= q < t ==> is_digit(#[trigger] s[q]),
        decreases j - t,
    {
        let c = text[t];
        if !('0' <= c && c <= '9') {
            assert(!is_digit(d[t - k]));
            return None;
        }
        t = t + 1;
    }
    assert(all_digits(d));
    let mut value: i64 = 0;
    let mut t: usize = k;
    while t < j
        invariant
            k <= t <= j <= n,
            n == s.len(),
            s == text@,
            d == s.subrange(k as int, j as int),
            unsigned_part(trim(s)) == d,
            all_digits(d),
            0 <= value <= PID_MAX,
            value == digits_value(s.subrange(k as int, t as int)),
        decreases j - t,
    {
        let c = text[t];
        assert(is_digit(d[t - k]));
        let v = (c as u32 - '0' as u32) as i64;
        assert(s.subrange(k as int, t + 1).drop_last() =~= s.subrange(k as int, t as int));
        value = value * 10 + v;
        t = t + 1;
        assert(value == digits_value(s.subrange(k as int, t as int)));
        if value > PID_MAX as i64 {
            proof {
                assert(s.subrange(k as int, t as int) =~= d.subrange(0, t - k));
                lemma_prefix_value_le(d, t - k);
                assert(digits_value(d) > PID_MAX);
            }
            return None;
        }
    }
    assert(s.subrange(k as int, t as int) =~= d);
    if value == 0 {
        return None;
    }
    Some(value as i32)
}

/// The marker text that names a process: its identifier in decimal.
pub fn marker_text(pid: i32) -> (r: Vec<char>)
    requires
        pid > 0,
    ensures
        r@ == decimal(pid as nat),
{
    let mut v: Vec<char> = Vec::new();
    let mut m: i32 = pid;
    loop
        invariant
            0 < m <= pid,
            decimal(pid as nat) == decimal(m as nat) + v@,
        decreases m,
    {
        let d = (m % 10) as u8;
        let c = (48u8 + d) as char;
        assert(c == digit_char((m % 10) as int));
        let ghost before = v@;
        v.insert(0, c);
        let next = m / 10;
        if next == 0 {
            assert(decimal(m as nat) =~= seq![c]);
            assert(v@ =~= seq![c] + before);
            return v;
        }
        assert(decimal(m as nat) == decimal(next as nat).push(c));
        assert(decimal(next as nat) + v@ =~= decimal(m as nat) + before);
        m = next;
    }
}

proof fn lemma_decimal_digits(n: nat)
    ensures
        decimal(n).len() > 0,
        all_digits(decimal(n)),
        digits_value(decimal(n)) == n,
    decreases n,
{
    let c = digit_char((n % 10) as int);
    assert(c as int == n % 10 + 48);
    if n >= 10 {
        lemma_decimal_digits(n / 10);
        let d = decimal(n);
        assert(d.drop_last() =~= decimal(n / 10));
        assert forall|i: int| 0 <= i < d.len() implies is_digit(#[trigger] d[i]) by {
            if i < d.len() - 1 {
                assert(d[i] == decimal(n / 10)[i]);
            }
        }
        assert(d.last() == c);
        assert(digit_value(c) == n % 10);
        assert(digits_value(d) == digits_value(d.drop_last()) * 10 + digit_value(d.last()));
        assert(digits_value(d.drop_last()) == n / 10);
        assert((n / 10) * 10 + n % 10 == n) by (nonlinear_arith);
    } else {
        assert(decimal(n).drop_last() =~= Seq::<char>::empty());
        assert(digit_value(c) == n);
        assert(decimal(n).last() == c);
        assert(digits_value(decimal(n).drop_last()) == 0);
        assert(digits_value(decimal(n)) == digits_value(decimal(n).drop_last()) * 10 + digit_value(
            c,
        ));
    }
}

/// Reading back the text written for a process gives that process.
pub proof fn lemma_marker_round_trip(pid: int)
    requires
        0 < pid <= PID_MAX,
    ensures
        pid_of(decimal(pid as nat)) == Some(pid),
{
    let s = decimal(pid as nat);
    lemma_decimal_digits(pid as nat);
    assert(is_digit(s[0]));
    assert(is_digit(s.last()));
    assert(trim_start(s) == s);
    assert(trim(s) == s);
    assert(unsigned_part(s) == s);
}

} // verus!
