//! The daemon's lock file: the process id written into it, and how a
//! process id is read back out of it.

use vstd::prelude::*;
use crate::text::{chars_of, decimal, digit_char, push_decimal};

verus! {

/// Whether `c` has the Unicode `White_Space` property, which is what
/// `char::is_whitespace` and so `str::trim` go by.
pub open spec fn is_whitespace(c: char) -> bool {
    let v = c as u32;
    ||| 0x09 <= v <= 0x0d
    ||| v == 0x20
    ||| v == 0x85
    ||| v == 0xa0
    ||| v == 0x1680
    ||| 0x2000 <= v <= 0x200a
    ||| v == 0x2028
    ||| v == 0x2029
    ||| v == 0x202f
    ||| v == 0x205f
    ||| v == 0x3000
}

/// `s` without its leading whitespace.
pub open spec fn trim_start(s: Seq<char>) -> Seq<char>
    decreases s.len(),
{
    if s.len() > 0 && is_whitespace(s[0]) {
        trim_start(s.drop_first())
    } else {
        s
    }
}

/// `s` without its trailing whitespace.
pub open spec fn trim_end(s: Seq<char>) -> Seq<char>
    decreases s.len(),
{
    if s.len() > 0 && is_whitespace(s.last()) {
        trim_end(s.drop_last())
    } else {
        s
    }
}

/// `s` without leading and trailing whitespace.
pub open spec fn trim(s: Seq<char>) -> Seq<char> {
    trim_end(trim_start(s))
}

/// Whether `c` is one of the ASCII digits `0` to `9`.
pub open spec fn is_digit(c: char) -> bool {
    0x30 <= c as u32 <= 0x39
}

/// Whether every character of `d` is an ASCII digit.
pub open spec fn all_digits(d: Seq<char>) -> bool {
    forall|i: int| 0 <= i < d.len() ==> is_digit(#[trigger] d[i])
}

/// The number that the ASCII digits `d` denote in base ten.
pub open spec fn digits_value(d: Seq<char>) -> nat
    decreases d.len(),
{
    if d.len() == 0 {
        0
    } else {
        digits_value(d.drop_last()) * 10 + (d.last() as u32 - 0x30) as nat
    }
}

/// The `u32` that `t` denotes as `u32`'s `from_str` reads it: an optional `+`,
/// then one or more ASCII digits, of a value that fits in a `u32`.
pub open spec fn parse_u32_text(t: Seq<char>) -> Option<u32> {
    let d = if t.len() > 0 && t[0] == '+' { t.drop_first() } else { t };
    if d.len() > 0 && all_digits(d) && digits_value(d) <= u32::MAX {
        Some(digits_value(d) as u32)
    } else {
        None
    }
}

/// The process id that a lock file holding `s` names: `s` trimmed of
/// whitespace, read as a `u32`.
pub open spec fn lock_pid(s: Seq<char>) -> Option<u32> {
    parse_u32_text(trim(s))
}

proof fn lemma_trim_start(s: Seq<char>, a: int)
    requires
        0 <= a <= s.len(),
        forall|i: int| 0 <= i < a ==> is_whitespace(#[trigger] s[i]),
        a == s.len() || !is_whitespace(s[a]),
    ensures
        trim_start(s) == s.subrange(a, s.len() as int),
    decreases a,
{
    if a == 0 {
        assert(s.subrange(0, s.len() as int) == s);
    } else {
        let t = s.drop_first();
        assert forall|i: int| 0 <= i < a - 1 implies is_whitespace(#[trigger] t[i]) by {
            assert(t[i] == s[i + 1]);
        }
        lemma_trim_start(t, a - 1);
        assert(t.subrange(a - 1, t.len() as int) == s.subrange(a, s.len() as int));
    }
}

proof fn lemma_trim_end(s: Seq<char>, b: int)
    requires
        0 <= b <= s.len(),
        forall|i: int| b <= i < s.len() ==> is_whitespace(#[trigger] s[i]),
        b == 0 || !is_whitespace(s[b - 1]),
    ensures
        trim_end(s) == s.subrange(0, b),
    decreases s.len() - b,
{
    if b == s.len() {
        assert(s.subrange(0, b) == s);
    } else {
        let t = s.drop_last();
        assert forall|i: int| b <= i < t.len() implies is_whitespace(#[trigger] t[i]) by {
            assert(t[i] == s[i]);
        }
        lemma_trim_end(t, b);
        assert(t.subrange(0, b) == s.subrange(0, b));
    }
}

proof fn lemma_digits_value_prefix(d: Seq<char>, k: int)
    requires
        0 <= k <= d.len(),
    ensures
        digits_value(d.take(k)) <= digits_value(d),
    decreases d.len(),
{
    if k < d.len() {
        lemma_digits_value_prefix(d.drop_last(), k);
        assert(d.drop_last().take(k) == d.take(k));
    } else {
        assert(d.take(k) == d);
    }
}

fn whitespace(c: char) -> (b: bool)
    ensures
        b == is_whitespace(c),
{
    let v = c as u32;
    (0x09 <= v && v <= 0x0d) || v == 0x20 || v == 0x85 || v == 0xa0 || v == 0x1680
        || (0x2000 <= v && v <= 0x200a) || v == 0x2028 || v == 0x2029 || v == 0x202f
        || v == 0x205f || v == 0x3000
}

/// Reads the process id out of the text of a lock file, as
/// `s.trim().parse::<u32>()` does: `None` where the text is no such number.
pub fn parse_pid(s: &str) -> (r: Option<u32>)
    ensures
        r == lock_pid(s@),
{
    let v = chars_of(s);
    let n = v.len();
    let mut a: usize = 0;
    while a < n && whitespace(v[a])
        invariant
            n == v@.len(),
            a <= n,
            forall|i: int| 0 <= i < a ==> is_whitespace(#[trigger] v@[i]),
        decreases n - a,
    {
        a = a + 1;
    }
    proof {
        lemma_trim_start(v@, a as int);
    }
    let ghost front = v@.subrange(a as int, n as int);
    let mut b: usize = n;
    while b > a && whitespace(v[b - 1])
        invariant
            n == v@.len(),
            a <= b <= n,
            forall|i: int| b <= i < n ==> is_whitespace(#[trigger] v@[i]),
        decreases b,
    {
        b = b - 1;
    }
    proof {
        assert forall|i: int| b - a <= i < front.len() implies is_whitespace(#[trigger] front[i]) by {
            assert(front[i] == v@[i + a]);
        }
        if b > a {
            assert(front[b - a - 1] == v@[b - 1]);
        }
        lemma_trim_end(front, b - a);
        assert(front.subrange(0, b - a) == v@.subrange(a as int, b as int));
    }
    let ghost t = v@.subrange(a as int, b as int);
    assert(trim(s@) == t);
    let mut i = a;
    if i < b && v[i] == '+' {
        i = i + 1;
    }
    let ghost d = if t.len() > 0 && t[0] == '+' { t.drop_first() } else { t };
    assert(d == v@.subrange(i as int, b as int));
    if i == b {
        return None;
    }
    let start = i;
    let mut acc: u64 = 0;
    while i < b
        invariant
            n == v@.len(),
            start <= i <= b <= n,
            d == v@.subrange(start as int, b as int),
            all_digits(v@.subrange(start as int, i as int)),
            acc == digits_value(v@.subrange(start as int, i as int)),
            acc <= u32::MAX,
            lock_pid(s@) == (if d.len() > 0 && all_digits(d) && digits_value(d) <= u32::MAX {
                Some(digits_value(d) as u32)
            } else {
                None
            }),
        decreases b - i,
    {
        let c = v[i];
        let cv = c as u32;
        let ghost before = v@.subrange(start as int, i as int);
        let ghost after = v@.subrange(start as int, i + 1);
        assert(after.drop_last() == before);
        if !(0x30 <= cv && cv <= 0x39) {
            assert(d[i - start] == c);
            assert(!is_digit(d[i - start]));
            assert(!all_digits(d));
            return None;
        }
        acc = acc * 10 + (cv - 0x30) as u64;
        if acc > 0xffff_ffff {
            proof {
                if all_digits(d) {
                    assert(d.take(i + 1 - start) == after);
                    lemma_digits_value_prefix(d, i + 1 - start);
                }
            }
            return None;
        }
        i = i + 1;
    }
    assert(v@.subrange(start as int, b as int) == d);
    Some(acc as u32)
}

/// The text written into the lock file for process `pid`: its decimal
/// notation.
pub fn lock_file_contents(pid: u32) -> (s: String)
    ensures
        s@ == decimal(pid as nat),
{
    let mut s = String::new();
    push_decimal(&mut s, pid as u64);
    assert(s@ == decimal(pid as nat));
    s
}

} // verus!

verus! {

proof fn lemma_digit_char(d: nat)
    requires
        d < 10,
    ensures
        digit_char(d) as u32 == 0x30 + d,
{
}

pub(crate) proof fn lemma_decimal_digits(n: nat)
    ensures
        decimal(n).len() > 0,
        all_digits(decimal(n)),
        digits_value(decimal(n)) == n,
    decreases n,
{
    if n < 10 {
        lemma_digit_char(n);
        assert(decimal(n).drop_last() == Seq::<char>::empty());
        assert(digits_value(decimal(n).drop_last()) == 0);
    } else {
        lemma_decimal_digits(n / 10);
        lemma_digit_char(n % 10);
        let d = decimal(n);
        assert(d.drop_last() == decimal(n / 10));
        assert(d.last() == digit_char(n % 10));
        assert(n == (n / 10) * 10 + n % 10);
        assert(digits_value(d) == digits_value(decimal(n / 10)) * 10 + (n % 10));
        assert forall|i: int| 0 <= i < d.len() implies is_digit(#[trigger] d[i]) by {
            if i < d.len() - 1 {
                assert(d[i] == decimal(n / 10)[i]);
            }
        }
    }
}

/// Reading back the lock file that `lock_file_contents` wrote for `pid`
/// gives `pid`.
pub proof fn lock_file_round_trip(pid: u32)
    ensures
        lock_pid(decimal(pid as nat)) == Some(pid),
{
    let d = decimal(pid as nat);
    lemma_decimal_digits(pid as nat);
    assert(is_digit(d[0]));
    assert(is_digit(d.last()));
    assert(trim_start(d) == d);
    assert(trim_end(d) == d);
}

} // verus!
