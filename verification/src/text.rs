//! Text handling for the command-line grammar: trimming, suffixes,
//! separators and decimal integers, each over the characters of a string.

use vstd::prelude::*;
use vstd::string::*;

verus! {

/// Whether `c` is white space: the control characters from tab to carriage
/// return, the space, and the separators beyond ASCII.
pub open spec fn is_whitespace(c: char) -> bool {
    let n = c as u32;
    ||| 0x09 <= n <= 0x0d
    ||| n == 0x20
    ||| n == 0x85
    ||| n == 0xa0
    ||| n == 0x1680
    ||| 0x2000 <= n <= 0x200a
    ||| n == 0x2028
    ||| n == 0x2029
    ||| n == 0x202f
    ||| n == 0x205f
    ||| n == 0x3000
}

/// `s` without its leading white space.
pub open spec fn trim_start(s: Seq<char>) -> Seq<char>
    decreases s.len(),
{
    if s.len() > 0 && is_whitespace(s.first()) {
        trim_start(s.drop_first())
    } else {
        s
    }
}

/// `s` without its trailing white space.
pub open spec fn trim_end(s: Seq<char>) -> Seq<char>
    decreases s.len(),
{
    if s.len() > 0 && is_whitespace(s.last()) {
        trim_end(s.drop_last())
    } else {
        s
    }
}

/// `s` without leading and trailing white space.
pub open spec fn trimmed(s: Seq<char>) -> Seq<char> {
    trim_end(trim_start(s))
}

/// Whether `s` ends with `suffix`.
pub open spec fn ends_with(s: Seq<char>, suffix: Seq<char>) -> bool {
    suffix.len() <= s.len() && s.skip(s.len() - suffix.len()) == suffix
}

/// `s` without `suffix` at its end, where it ends so.
pub open spec fn without_suffix(s: Seq<char>, suffix: Seq<char>) -> Option<Seq<char>> {
    if ends_with(s, suffix) {
        Some(s.take(s.len() - suffix.len()))
    } else {
        None
    }
}

/// The pieces of `s` between occurrences of `sep`, in order. A string
/// without `sep` is one piece; two adjacent separators enclose an empty one.
pub open spec fn split_on(s: Seq<char>, sep: char) -> Seq<Seq<char>>
    decreases s.len(),
{
    if s.len() == 0 {
        seq![Seq::<char>::empty()]
    } else {
        let before = split_on(s.drop_last(), sep);
        if s.last() == sep {
            before.push(Seq::<char>::empty())
        } else {
            before.drop_last().push(before.last().push(s.last()))
        }
    }
}

/// Whether `c` is one of the ten decimal digits.
pub open spec fn is_digit(c: char) -> bool {
    0x30 <= c as u32 <= 0x39
}

/// The number a decimal digit stands for.
pub open spec fn digit_value(c: char) -> nat {
    if is_digit(c) {
        (c as u32 - 0x30) as nat
    } else {
        0
    }
}

/// Whether every character of `s` is a decimal digit.
pub open spec fn all_digits(s: Seq<char>) -> bool {
    forall|i: int| 0 <= i < s.len() ==> is_digit(#[trigger] s[i])
}

/// The number that the digits of `s` write in base ten.
pub open spec fn decimal_value(s: Seq<char>) -> nat
    decreases s.len(),
{
    if s.len() == 0 {
        0
    } else {
        decimal_value(s.drop_last()) * 10 + digit_value(s.last())
    }
}

/// The number written by `s`, where `s` is one or more digits and the
/// number is at most `max`.
pub open spec fn magnitude(s: Seq<char>, max: nat) -> Option<nat> {
    if s.len() > 0 && all_digits(s) && decimal_value(s) <= max {
        Some(decimal_value(s))
    } else {
        None
    }
}

/// The unsigned 64-bit number written by `s`: an optional `+`, then one or
/// more digits and nothing else, the number within range.
pub open spec fn unsigned_of(s: Seq<char>) -> Option<u64> {
    let digits = if s.len() > 0 && s.first() == '+' {
        s.drop_first()
    } else {
        s
    };
    match magnitude(digits, u64::MAX as nat) {
        Some(n) => Some(n as u64),
        None => None,
    }
}

/// The signed 32-bit number written by `s`: an optional `+` or `-`, then
/// one or more digits and nothing else, the number within range.
pub open spec fn signed_of(s: Seq<char>) -> Option<i32> {
    if s.len() > 0 && s.first() == '-' {
        match magnitude(s.drop_first(), 0x8000_0000) {
            Some(n) => Some((-(n as int)) as i32),
            None => None,
        }
    } else {
        let digits = if s.len() > 0 && s.first() == '+' {
            s.drop_first()
        } else {
            s
        };
        match magnitude(digits, 0x7fff_ffff) {
            Some(n) => Some(n as i32),
            None => None,
        }
    }
}

/// The views of a sequence of strings.
pub open spec fn views(v: Seq<String>) -> Seq<Seq<char>> {
    v.map_values(|s: String| s@)
}

/// A prefix of a digit string writes no larger a number than the whole.
pub proof fn lemma_decimal_value_prefix(s: Seq<char>, k: int)
    requires
        0 <= k <= s.len(),
    ensures
        decimal_value(s.take(k)) <= decimal_value(s),
    decreases s.len(),
{
    if k == s.len() {
        assert(s.take(k) =~= s);
    } else {
        lemma_decimal_value_prefix(s.drop_last(), k);
        assert(s.drop_last().take(k) =~= s.take(k));
    }
}

/// The characters of `s`, in order.
pub fn chars_of(s: &str) -> (v: Vec<char>)
    ensures
        v@ == s@,
{
    broadcast use vstd::string::group_string_axioms;

    let mut v: Vec<char> = Vec::new();
    for c in it: s.chars()
        invariant
            it.seq() == s@,
            v@.len() == it.index(),
            forall|j: int| 0 <= j < v@.len() ==> v@[j] == it.seq()[j],
    {
        v.push(c);
    }
    v
}

/// Whether `c` is white space.
pub fn is_space(c: char) -> (r: bool)
    ensures
        r == is_whitespace(c),
{
    let n: u32 = c as u32;
    (0x09 <= n && n <= 0x0d) || n == 0x20 || n == 0x85 || n == 0xa0 || n == 0x1680 || (0x2000 <= n
        && n <= 0x200a) || n == 0x2028 || n == 0x2029 || n == 0x202f || n == 0x205f || n == 0x3000
}

/// `s` without leading and trailing white space.
pub fn trim(s: &str) -> (t: &str)
    ensures
        t@ == trimmed(s@),
{
    let chars = chars_of(s);
    let n: usize = chars.len();
    let mut start: usize = 0;
    assert(s@.skip(0) =~= s@);
    while start < n && is_space(chars[start])
        invariant
            start <= n,
            n == s@.len(),
            chars@ == s@,
            trim_start(s@) == trim_start(s@.skip(start as int)),
        decreases n - start,
    {
        assert(s@.skip(start as int).drop_first() =~= s@.skip(start as int + 1));
        start += 1;
    }
    let ghost body = s@.skip(start as int);
    let mut end: usize = n;
    while end > start && is_space(chars[end - 1])
        invariant
            start <= end <= n,
            n == s@.len(),
            chars@ == s@,
            trim_end(body) == trim_end(s@.subrange(start as int, end as int)),
        decreases end,
    {
        assert(s@.subrange(start as int, end as int).drop_last() =~= s@.subrange(
            start as int,
            end as int - 1,
        ));
        end -= 1;
    }
    s.substring_char(start, end)
}

/// `s` without `suffix` at its end, where it ends so.
pub fn strip_suffix<'a>(s: &'a str, suffix: &str) -> (r: Option<&'a str>)
    ensures
        match r {
            Some(t) => without_suffix(s@, suffix@) == Some(t@),
            None => without_suffix(s@, suffix@) is None,
        },
{
    let chars = chars_of(s);
    let tail = chars_of(suffix);
    let n: usize = chars.len();
    let m: usize = tail.len();
    if m > n {
        return None;
    }
    let cut: usize = n - m;
    let mut i: usize = 0;
    while i < m
        invariant
            i <= m <= n,
            cut == n - m,
            n == s@.len(),
            m == suffix@.len(),
            chars@ == s@,
            tail@ == suffix@,
            forall|j: int| 0 <= j < i ==> s@[cut + j] == suffix@[j],
        decreases m - i,
    {
        if chars[cut + i] != tail[i] {
            return None;
        }
        i += 1;
    }
    assert(s@.skip(cut as int) =~= suffix@);
    Some(s.substring_char(0, cut))
}

/// The pieces of `s` between occurrences of `sep`, in order.
pub fn split(s: &str, sep: char) -> (pieces: Vec<String>)
    ensures
        views(pieces@) == split_on(s@, sep),
{
    let chars = chars_of(s);
    let n: usize = chars.len();
    let mut pieces: Vec<String> = Vec::new();
    let mut start: usize = 0;
    let mut i: usize = 0;
    assert(s@.subrange(0, 0) =~= Seq::<char>::empty());
    while i < n
        invariant
            start <= i <= n,
            n == s@.len(),
            chars@ == s@,
            split_on(s@.take(i as int), sep) == views(pieces@).push(
                s@.subrange(start as int, i as int),
            ),
        decreases n - i,
    {
        assert(s@.take(i as int + 1).drop_last() =~= s@.take(i as int));
        if chars[i] == sep {
            pieces.push(String::from_str(s.substring_char(start, i)));
            start = i + 1;
            assert(s@.subrange(start as int, i as int + 1) =~= Seq::<char>::empty());
        } else {
            assert(s@.subrange(start as int, i as int).push(s@[i as int]) =~= s@.subrange(
                start as int,
                i as int + 1,
            ));
        }
        i += 1;
    }
    assert(s@.take(n as int) =~= s@);
    pieces.push(String::from_str(s.substring_char(start, n)));
    pieces
}

/// The number written by the characters of `chars` from `from` up to `to`,
/// where they are one or more digits and the number is at most `max`.
fn parse_magnitude(chars: &Vec<char>, from: usize, to: usize, max: u64) -> (r: Option<u64>)
    requires
        from <= to <= chars@.len(),
    ensures
        match r {
            Some(n) => magnitude(chars@.subrange(from as int, to as int), max as nat) == Some(
                n as nat,
            ),
            None => magnitude(chars@.subrange(from as int, to as int), max as nat) is None,
        },
{
    let ghost digits = chars@.subrange(from as int, to as int);
    if from == to {
        return None;
    }
    let mut acc: u64 = 0;
    let mut i: usize = from;
    while i < to
        invariant
            from <= i <= to <= chars@.len(),
            digits == chars@.subrange(from as int, to as int),
            all_digits(digits.take(i - from)),
            acc == decimal_value(digits.take(i - from)),
            acc <= max,
        decreases to - i,
    {
        let c: char = chars[i];
        let code: u32 = c as u32;
        let ghost k = i - from;
        assert(digits[k] == c);
        if code < 0x30 || code > 0x39 {
            return None;
        }
        let d: u64 = (code - 0x30) as u64;
        proof {
            assert(digits.take(k + 1).drop_last() =~= digits.take(k));
            lemma_decimal_value_prefix(digits, k + 1);
            assert forall|j: int| 0 <= j < k + 1 implies is_digit(
                #[trigger] digits.take(k + 1)[j],
            ) by {
                if j < k {
                    assert(digits.take(k + 1)[j] == digits.take(k)[j]);
                }
            }
        }
        let next = match acc.checked_mul(10) {
            Some(tens) => tens.checked_add(d),
            None => None,
        };
        match next {
            Some(v) => {
                if v > max {
                    return None;
                }
                acc = v;
            },
            None => {
                return None;
            },
        }
        i += 1;
    }
    assert(digits.take(to - from) =~= digits);
    Some(acc)
}

/// The unsigned 64-bit number written by `s`, where it writes one.
pub fn parse_u64(s: &str) -> (r: Option<u64>)
    ensures
        r == unsigned_of(s@),
{
    let chars = chars_of(s);
    let n: usize = chars.len();
    let from: usize = if n > 0 && chars[0] == '+' {
        1
    } else {
        0
    };
    assert(s@.subrange(from as int, n as int) =~= if from == 1 {
        s@.drop_first()
    } else {
        s@
    });
    parse_magnitude(&chars, from, n, u64::MAX)
}

/// The signed 32-bit number written by `s`, where it writes one.
pub fn parse_i32(s: &str) -> (r: Option<i32>)
    ensures
        r == signed_of(s@),
{
    let chars = chars_of(s);
    let n: usize = chars.len();
    if n > 0 && chars[0] == '-' {
        match parse_magnitude(&chars, 1, n, 0x8000_0000) {
            Some(m) => {
                let wide: i64 = -(m as i64);
                Some(wide as i32)
            },
            None => None,
        }
    } else {
        let from: usize = if n > 0 && chars[0] == '+' {
            1
        } else {
            0
        };
        assert(s@.subrange(from as int, n as int) =~= if from == 1 {
            s@.drop_first()
        } else {
            s@
        });
        match parse_magnitude(&chars, from, n, 0x7fff_ffff) {
            Some(m) => Some(m as i32),
            None => None,
        }
    }
}

} // verus!
