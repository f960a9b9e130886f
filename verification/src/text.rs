//! Character-level text handling: whitespace trimming, line splitting,
//! searching, and decimal numbers, each stated over `Seq<char>`.
use vstd::prelude::*;

verus! {

// ── Character classes ────────────────────────────────────────────────────────

/// Whether `c` is a decimal digit `0`–`9`.
pub open spec fn is_digit(c: char) -> bool {
    '0' <= c && c <= '9'
}

/// Whether `c` has the Unicode `White_Space` property, the set that
/// `char::is_whitespace` and `str::trim` use.
pub open spec fn is_whitespace(c: char) -> bool {
    let u = c as u32;
    (0x9 <= u && u <= 0xd) || u == 0x20 || u == 0x85 || u == 0xa0 || u == 0x1680 || (0x2000 <= u
        && u <= 0x200a) || u == 0x2028 || u == 0x2029 || u == 0x202f || u == 0x205f || u == 0x3000
}

/// Whether every character of `s` is a decimal digit.
pub open spec fn all_digits(s: Seq<char>) -> bool {
    forall|i: int| 0 <= i < s.len() ==> is_digit(#[trigger] s[i])
}

/// Whether `s` holds no occurrence of `c`.
pub open spec fn lacks(s: Seq<char>, c: char) -> bool {
    forall|i: int| 0 <= i < s.len() ==> #[trigger] s[i] != c
}

pub fn is_whitespace_char(c: char) -> (r: bool)
    ensures
        r == is_whitespace(c),
{
    let u = c as u32;
    (0x9 <= u && u <= 0xd) || u == 0x20 || u == 0x85 || u == 0xa0 || u == 0x1680 || (0x2000 <= u
        && u <= 0x200a) || u == 0x2028 || u == 0x2029 || u == 0x202f || u == 0x205f || u == 0x3000
}

// ── Conversions between `str`, `String` and `Vec<char>` ──────────────────────

/// The characters of a string slice, in order.
pub fn chars_of(s: &str) -> (out: Vec<char>)
    ensures
        out@ == s@,
{
    let mut out: Vec<char> = Vec::new();
    for c in it: s.chars()
        invariant
            out@ == it.seq().take(it.index() as int),
    {
        out.push(c);
    }
    out
}

/// Appends one character to a string (`String::push`).
#[verifier::external_body]
pub(crate) fn push_char(s: &mut String, c: char)
    ensures
        final(s)@ == old(s)@.push(c),
{
    s.push(c);
}

/// Appends the characters `cs` to `s`.
pub fn push_chars(s: &mut String, cs: &[char])
    ensures
        final(s)@ == old(s)@ + cs@,
{
    let ghost start = s@;
    let mut i: usize = 0;
    while i < cs.len()
        invariant
            i <= cs@.len(),
            s@ == start + cs@.take(i as int),
        decreases cs@.len() - i,
    {
        push_char(s, cs[i]);
        i = i + 1;
        assert(cs@.take(i as int) =~= cs@.take(i - 1).push(cs@[i - 1]));
    }
    assert(cs@.take(cs@.len() as int) =~= cs@);
}

/// A string holding exactly the characters `cs`.
pub fn string_of(cs: &[char]) -> (out: String)
    ensures
        out@ == cs@,
{
    let mut out = String::new();
    push_chars(&mut out, cs);
    out
}

/// Appends the text of `t` to `s`.
pub fn push_str(s: &mut String, t: &str)
    ensures
        final(s)@ == old(s)@ + t@,
{
    s.append(t);
}

/// The characters `s[lo..hi]`.
pub fn sub_chars(s: &[char], lo: usize, hi: usize) -> (out: Vec<char>)
    requires
        lo <= hi <= s@.len(),
    ensures
        out@ == s@.subrange(lo as int, hi as int),
{
    let mut out: Vec<char> = Vec::new();
    let mut i = lo;
    while i < hi
        invariant
            lo <= i <= hi <= s@.len(),
            out@ == s@.subrange(lo as int, i as int),
        decreases hi - i,
    {
        out.push(s[i]);
        i = i + 1;
        assert(out@ =~= s@.subrange(lo as int, i as int));
    }
    out
}

/// Whether the characters of `a` and `b` are the same.
pub fn chars_eq(a: &[char], b: &[char]) -> (r: bool)
    ensures
        r == (a@ == b@),
{
    if a.len() != b.len() {
        return false;
    }
    let mut i: usize = 0;
    while i < a.len()
        invariant
            a@.len() == b@.len(),
            i <= a@.len(),
            forall|j: int| 0 <= j < i ==> a@[j] == b@[j],
        decreases a@.len() - i,
    {
        if a[i] != b[i] {
            return false;
        }
        i = i + 1;
    }
    assert(a@ =~= b@);
    true
}

/// Whether the characters of `a` spell the string `b`.
pub fn chars_eq_str(a: &[char], b: &str) -> (r: bool)
    ensures
        r == (a@ == b@),
{
    let bv = chars_of(b);
    chars_eq(a, bv.as_slice())
}

// ── Trimming ─────────────────────────────────────────────────────────────────

/// `s` without its leading whitespace.
pub open spec fn trim_start(s: Seq<char>) -> Seq<char>
    decreases s.len(),
{
    if s.len() > 0 && is_whitespace(s[0]) {
        trim_start(s.drop_first())
    } else {
        s
    }
}

/// `s` without its trailing whitespace.
pub open spec fn trim_end(s: Seq<char>) -> Seq<char>
    decreases s.len(),
{
    if s.len() > 0 && is_whitespace(s.last()) {
        trim_end(s.drop_last())
    } else {
        s
    }
}

/// `s` without leading and trailing whitespace (`str::trim`).
pub open spec fn trim(s: Seq<char>) -> Seq<char> {
    trim_end(trim_start(s))
}

/// Whether `c` is one of the brackets that enclose a section name.
pub open spec fn is_bracket(c: char) -> bool {
    c == '[' || c == ']'
}

pub open spec fn strip_brackets_start(s: Seq<char>) -> Seq<char>
    decreases s.len(),
{
    if s.len() > 0 && is_bracket(s[0]) {
        strip_brackets_start(s.drop_first())
    } else {
        s
    }
}

pub open spec fn strip_brackets_end(s: Seq<char>) -> Seq<char>
    decreases s.len(),
{
    if s.len() > 0 && is_bracket(s.last()) {
        strip_brackets_end(s.drop_last())
    } else {
        s
    }
}

/// `s` with every leading and trailing bracket removed (`str::trim_matches`
/// with `[` and `]`).
pub open spec fn strip_brackets(s: Seq<char>) -> Seq<char> {
    strip_brackets_end(strip_brackets_start(s))
}

proof fn lemma_trim_start_skip(s: Seq<char>, i: int)
    requires
        0 <= i <= s.len(),
        forall|j: int| 0 <= j < i ==> is_whitespace(#[trigger] s[j]),
    ensures
        trim_start(s) == trim_start(s.skip(i)),
    decreases i,
{
    if i > 0 {
        assert(s.drop_first().skip(i - 1) =~= s.skip(i));
        lemma_trim_start_skip(s.drop_first(), i - 1);
    } else {
        assert(s.skip(0) =~= s);
    }
}

proof fn lemma_trim_end_take(s: Seq<char>, k: int)
    requires
        0 <= k <= s.len(),
        forall|j: int| k <= j < s.len() ==> is_whitespace(#[trigger] s[j]),
    ensures
        trim_end(s) == trim_end(s.take(k)),
    decreases s.len() - k,
{
    if k < s.len() {
        assert(s.drop_last().take(k) =~= s.take(k));
        lemma_trim_end_take(s.drop_last(), k);
    } else {
        assert(s.take(k) =~= s);
    }
}

proof fn lemma_strip_start_skip(s: Seq<char>, i: int)
    requires
        0 <= i <= s.len(),
        forall|j: int| 0 <= j < i ==> is_bracket(#[trigger] s[j]),
    ensures
        strip_brackets_start(s) == strip_brackets_start(s.skip(i)),
    decreases i,
{
    if i > 0 {
        assert(s.drop_first().skip(i - 1) =~= s.skip(i));
        lemma_strip_start_skip(s.drop_first(), i - 1);
    } else {
        assert(s.skip(0) =~= s);
    }
}

proof fn lemma_strip_end_take(s: Seq<char>, k: int)
    requires
        0 <= k <= s.len(),
        forall|j: int| k <= j < s.len() ==> is_bracket(#[trigger] s[j]),
    ensures
        strip_brackets_end(s) == strip_brackets_end(s.take(k)),
    decreases s.len() - k,
{
    if k < s.len() {
        assert(s.drop_last().take(k) =~= s.take(k));
        lemma_strip_end_take(s.drop_last(), k);
    } else {
        assert(s.take(k) =~= s);
    }
}

/// `s` without leading and trailing whitespace.
pub fn trim_chars(s: &[char]) -> (out: Vec<char>)
    ensures
        out@ == trim(s@),
{
    let mut lo: usize = 0;
    while lo < s.len() && is_whitespace_char(s[lo])
        invariant
            lo <= s@.len(),
            forall|j: int| 0 <= j < lo ==> is_whitespace(#[trigger] s@[j]),
        decreases s@.len() - lo,
    {
        lo = lo + 1;
    }
    proof {
        lemma_trim_start_skip(s@, lo as int);
    }
    let ghost rest = s@.skip(lo as int);
    assert(trim_start(rest) == rest);
    let mut hi: usize = s.len();
    while hi > lo && is_whitespace_char(s[hi - 1])
        invariant
            lo <= hi <= s@.len(),
            rest == s@.skip(lo as int),
            forall|j: int| hi - lo <= j < rest.len() ==> is_whitespace(#[trigger] rest[j]),
        decreases hi,
    {
        hi = hi - 1;
    }
    proof {
        lemma_trim_end_take(rest, hi - lo);
        assert(rest.take(hi - lo) =~= s@.subrange(lo as int, hi as int));
    }
    sub_chars(s, lo, hi)
}

/// `s` without leading and trailing `[` and `]`.
pub fn strip_brackets_chars(s: &[char]) -> (out: Vec<char>)
    ensures
        out@ == strip_brackets(s@),
{
    let mut lo: usize = 0;
    while lo < s.len() && (s[lo] == '[' || s[lo] == ']')
        invariant
            lo <= s@.len(),
            forall|j: int| 0 <= j < lo ==> is_bracket(#[trigger] s@[j]),
        decreases s@.len() - lo,
    {
        lo = lo + 1;
    }
    proof {
        lemma_strip_start_skip(s@, lo as int);
    }
    let ghost rest = s@.skip(lo as int);
    assert(strip_brackets_start(rest) == rest);
    let mut hi: usize = s.len();
    while hi > lo && (s[hi - 1] == '[' || s[hi - 1] == ']')
        invariant
            lo <= hi <= s@.len(),
            rest == s@.skip(lo as int),
            forall|j: int| hi - lo <= j < rest.len() ==> is_bracket(#[trigger] rest[j]),
        decreases hi,
    {
        hi = hi - 1;
    }
    proof {
        lemma_strip_end_take(rest, hi - lo);
        assert(rest.take(hi - lo) =~= s@.subrange(lo as int, hi as int));
    }
    sub_chars(s, lo, hi)
}

// ── Searching ────────────────────────────────────────────────────────────────

/// The index of the first `c` in `s`, if any.
pub open spec fn find(s: Seq<char>, c: char) -> Option<int>
    decreases s.len(),
{
    if s.len() == 0 {
        None
    } else if s[0] == c {
        Some(0)
    } else {
        match find(s.drop_first(), c) {
            Some(i) => Some(i + 1),
            None => None,
        }
    }
}

/// `s` split around its first `c` (`str::split_once`).
pub open spec fn split_once(s: Seq<char>, c: char) -> Option<(Seq<char>, Seq<char>)> {
    match find(s, c) {
        Some(i) => Some((s.take(i), s.skip(i + 1))),
        None => None,
    }
}

/// What `find` gives, stated by the positions of `c`.
pub proof fn lemma_find(s: Seq<char>, c: char)
    ensures
        match find(s, c) {
            Some(i) => 0 <= i < s.len() && s[i] == c && forall|j: int| 0 <= j < i ==> s[j] != c,
            None => lacks(s, c),
        },
    decreases s.len(),
{
    if s.len() > 0 {
        lemma_find(s.drop_first(), c);
        if s[0] != c {
            match find(s.drop_first(), c) {
                Some(i) => {
                    assert forall|j: int| 0 <= j < i + 1 implies s[j] != c by {
                        if j > 0 {
                            assert(s[j] == s.drop_first()[j - 1]);
                        }
                    }
                },
                None => {
                    assert forall|j: int| 0 <= j < s.len() implies #[trigger] s[j] != c by {
                        if j > 0 {
                            assert(s[j] == s.drop_first()[j - 1]);
                        }
                    }
                },
            }
        }
    }
}

/// The first occurrence of `c` in `a + b`, where `a` holds none, is found in `b`.
pub proof fn lemma_find_after(a: Seq<char>, b: Seq<char>, c: char)
    requires
        lacks(a, c),
    ensures
        find(a + b, c) == match find(b, c) {
            Some(i) => Some(i + a.len()),
            None => None::<int>,
        },
    decreases a.len(),
{
    if a.len() == 0 {
        assert(a + b =~= b);
    } else {
        assert((a + b).drop_first() =~= a.drop_first() + b);
        assert(lacks(a.drop_first(), c)) by {
            assert forall|i: int| 0 <= i < a.drop_first().len() implies #[trigger] a.drop_first()[i]
                != c by {
                assert(a.drop_first()[i] == a[i + 1]);
            }
        }
        assert((a + b)[0] == a[0]);
        lemma_find_after(a.drop_first(), b, c);
    }
}

/// The index of the first `c` in `s`.
pub fn find_char(s: &[char], c: char) -> (r: Option<usize>)
    ensures
        match r {
            Some(i) => find(s@, c) == Some(i as int) && i < s@.len() && s@[i as int] == c,
            None => find(s@, c) is None,
        },
{
    let mut i: usize = 0;
    while i < s.len()
        invariant
            i <= s@.len(),
            forall|j: int| 0 <= j < i ==> s@[j] != c,
        decreases s@.len() - i,
    {
        if s[i] == c {
            proof {
                lemma_find(s@, c);
                match find(s@, c) {
                    Some(k) => {
                        if k < i {
                            assert(s@[k] != c);
                        }
                        if k > i {
                            assert(s@[i as int] != c);
                        }
                    },
                    None => {
                        assert(s@[i as int] != c);
                    },
                }
            }
            return Some(i);
        }
        i = i + 1;
    }
    proof {
        lemma_find(s@, c);
        match find(s@, c) {
            Some(k) => {
                assert(s@[k] != c);
            },
            None => {},
        }
    }
    None
}

// ── Lines ────────────────────────────────────────────────────────────────────

/// The lines of `s` after the partial line `cur`: `s` is split at each `\n`,
/// and a final empty piece is not a line (`str::lines`, before the `\r` that
/// ends a `\r\n` line is dropped).
pub open spec fn lines_from(s: Seq<char>, cur: Seq<char>) -> Seq<Seq<char>>
    decreases s.len(),
{
    if s.len() == 0 {
        if cur.len() == 0 {
            seq![]
        } else {
            seq![cur]
        }
    } else if s[0] == '\n' {
        seq![cur] + lines_from(s.drop_first(), seq![])
    } else {
        lines_from(s.drop_first(), cur.push(s[0]))
    }
}

/// The lines of `s`.
pub open spec fn lines(s: Seq<char>) -> Seq<Seq<char>> {
    lines_from(s, seq![])
}

/// A line without `\n`, followed by `\n`, is read back as one line.
pub proof fn lemma_lines_from_line(cur: Seq<char>, l: Seq<char>, rest: Seq<char>)
    requires
        lacks(l, '\n'),
    ensures
        lines_from(l + seq!['\n'] + rest, cur) == seq![cur + l] + lines_from(rest, seq![]),
    decreases l.len(),
{
    if l.len() == 0 {
        assert(l + seq!['\n'] + rest =~= seq!['\n'] + rest);
        assert((seq!['\n'] + rest).drop_first() =~= rest);
        assert(cur + l =~= cur);
    } else {
        let s = l + seq!['\n'] + rest;
        assert(s[0] == l[0]);
        assert(s.drop_first() =~= l.drop_first() + seq!['\n'] + rest);
        assert(lacks(l.drop_first(), '\n')) by {
            assert forall|i: int| 0 <= i < l.drop_first().len() implies #[trigger] l.drop_first()[i]
                != '\n' by {
                assert(l.drop_first()[i] == l[i + 1]);
            }
        }
        lemma_lines_from_line(cur.push(l[0]), l.drop_first(), rest);
        assert(cur.push(l[0]) + l.drop_first() =~= cur + l);
    }
}

// ── Unsigned decimal numbers ─────────────────────────────────────────────────

/// The value of the digit character `c`.
pub open spec fn digit_value(c: char) -> nat {
    ((c as u32) - ('0' as u32)) as nat
}

/// The value of the decimal digits `s`.
pub open spec fn digits_value(s: Seq<char>) -> nat
    decreases s.len(),
{
    if s.len() == 0 {
        0
    } else {
        digits_value(s.drop_last()) * 10 + digit_value(s.last())
    }
}

/// What `str::parse` gives for an unsigned integer type whose largest value
/// is `max`: an optional `+`, then one or more digits, whose value is at most `max`.
pub open spec fn parse_unsigned(s: Seq<char>, max: nat) -> Option<nat> {
    let d = if s.len() > 0 && s[0] == '+' {
        s.drop_first()
    } else {
        s
    };
    if d.len() > 0 && all_digits(d) && digits_value(d) <= max {
        Some(digits_value(d))
    } else {
        None
    }
}

proof fn lemma_digits_value_prefix(s: Seq<char>, k: int)
    requires
        0 <= k <= s.len(),
        all_digits(s),
    ensures
        digits_value(s.take(k)) <= digits_value(s),
    decreases s.len() - k,
{
    if k < s.len() {
        assert(s.drop_last().take(k) =~= s.take(k));
        assert(all_digits(s.drop_last())) by {
            assert forall|i: int| 0 <= i < s.drop_last().len() implies is_digit(
                #[trigger] s.drop_last()[i],
            ) by {
                assert(s.drop_last()[i] == s[i]);
            }
        }
        lemma_digits_value_prefix(s.drop_last(), k);
    } else {
        assert(s.take(k) =~= s);
    }
}

/// The decimal digits `d[start..]`, read as a number no larger than `max`.
fn digits_upto(d: &[char], start: usize, max: u64) -> (r: Option<u64>)
    requires
        start <= d@.len(),
    ensures
        ({
            let t = d@.skip(start as int);
            match r {
                Some(v) => t.len() > 0 && all_digits(t) && digits_value(t) <= max && v
                    == digits_value(t),
                None => !(t.len() > 0 && all_digits(t) && digits_value(t) <= max),
            }
        }),
{
    let ghost t = d@.skip(start as int);
    if start == d.len() {
        return None;
    }
    let mut value: u64 = 0;
    let mut i: usize = start;
    while i < d.len()
        invariant
            start <= i <= d@.len(),
            t == d@.skip(start as int),
            all_digits(t.take(i - start)),
            value == digits_value(t.take(i - start)),
            value <= max,
        decreases d@.len() - i,
    {
        let c = d[i];
        if !('0' <= c && c <= '9') {
            assert(t[i - start] == c);
            return None;
        }
        let dv: u32 = (c as u32) - ('0' as u32);
        let next: u128 = (value as u128) * 10 + (dv as u128);
        let ghost k = (i - start) as int;
        assert(t.take(k + 1).drop_last() =~= t.take(k));
        assert(t.take(k + 1).last() == c);
        assert(all_digits(t.take(k + 1))) by {
            assert forall|j: int| 0 <= j < k + 1 implies is_digit(#[trigger] t.take(k + 1)[j]) by {
                if j < k {
                    assert(t.take(k + 1)[j] == t.take(k)[j]);
                }
            }
        }
        if next > max as u128 {
            proof {
                if all_digits(t) {
                    lemma_digits_value_prefix(t, k + 1);
                }
            }
            return None;
        }
        value = next as u64;
        i = i + 1;
    }
    assert(t.take(d@.len() - start) =~= t);
    Some(value)
}

/// `s` read as an unsigned number no larger than `max` (`str::parse` for
/// `u64`, `u32` or `usize`, with `max` the type's largest value).
pub fn parse_unsigned_chars(s: &[char], max: u64) -> (r: Option<u64>)
    ensures
        match r {
            Some(v) => parse_unsigned(s@, max as nat) == Some(v as nat),
            None => parse_unsigned(s@, max as nat) is None,
        },
{
    if s.len() > 0 && s[0] == '+' {
        assert(s@.drop_first() =~= s@.skip(1));
        digits_upto(s, 1, max)
    } else {
        assert(s@ =~= s@.skip(0));
        digits_upto(s, 0, max)
    }
}

/// The digit character for `d < 10`.
pub open spec fn digit_char(d: nat) -> char {
    ((d + 48) as u32) as char
}

/// The decimal representation of `n`, without leading zeros.
pub open spec fn decimal(n: nat) -> Seq<char>
    decreases n,
{
    if n < 10 {
        seq![digit_char(n)]
    } else {
        decimal(n / 10).push(digit_char(n % 10))
    }
}

/// A decimal representation is read back as the number it represents.
pub proof fn lemma_decimal_parses(n: nat)
    ensures
        decimal(n).len() > 0,
        all_digits(decimal(n)),
        digits_value(decimal(n)) == n,
        decimal(n)[0] != '+',
        lacks(decimal(n), '\n'),
        !is_whitespace(decimal(n)[0]),
        !is_whitespace(decimal(n).last()),
    decreases n,
{
    if n >= 10 {
        lemma_decimal_parses(n / 10);
        let s = decimal(n);
        assert(s.drop_last() =~= decimal(n / 10));
        assert forall|i: int| 0 <= i < s.len() implies is_digit(#[trigger] s[i]) by {
            if i < s.len() - 1 {
                assert(s[i] == decimal(n / 10)[i]);
            }
        }
        assert(s[0] == decimal(n / 10)[0]);
        lemma_digit_char((n % 10) as nat);
        assert(s.last() == digit_char((n % 10) as nat));
        assert(digits_value(s) == digits_value(s.drop_last()) * 10 + digit_value(s.last()));
        assert(n == (n / 10) * 10 + n % 10);
        assert(digits_value(s) == n);
    } else {
        lemma_digit_char(n);
        assert(decimal(n).drop_last() =~= Seq::<char>::empty());
        assert(digits_value(decimal(n)) == digits_value(Seq::<char>::empty()) * 10 + digit_value(decimal(n).last()));
        assert(digits_value(decimal(n)) == n);
    }
}

proof fn lemma_digit_char(d: nat)
    requires
        d < 10,
    ensures
        digit_value(digit_char(d)) == d,
        is_digit(digit_char(d)),
        digit_char(d) != '+',
        !is_whitespace(digit_char(d)),
        digit_char(d) != '\n',
{
    assert(digit_char(d) as u32 == d + 48);
}

/// The parse of `decimal(n)` as an unsigned number is `n`, when `n <= max`.
pub proof fn lemma_parse_decimal(n: nat, max: nat)
    requires
        n <= max,
    ensures
        parse_unsigned(decimal(n), max) == Some(n),
{
    lemma_decimal_parses(n);
}

fn digit_to_char(d: u64) -> (c: char)
    requires
        d < 10,
    ensures
        c == digit_char(d as nat),
{
    let b: u32 = (d as u32) + 48;
    let c = match b {
        48 => '0',
        49 => '1',
        50 => '2',
        51 => '3',
        52 => '4',
        53 => '5',
        54 => '6',
        55 => '7',
        56 => '8',
        _ => '9',
    };
    c
}

/// Appends the decimal representation of `n` to `s`.
pub fn push_decimal(s: &mut String, n: u64)
    ensures
        final(s)@ == old(s)@ + decimal(n as nat),
    decreases n,
{
    if n < 10 {
        push_char(s, digit_to_char(n));
        assert(old(s)@.push(digit_char(n as nat)) =~= old(s)@ + decimal(n as nat));
    } else {
        push_decimal(s, n / 10);
        push_char(s, digit_to_char(n % 10));
        assert(old(s)@ + decimal((n / 10) as nat) + seq![digit_char((n % 10) as nat)]
            =~= old(s)@ + decimal(n as nat));
    }
}

// ── Floating-point literals ──────────────────────────────────────────────────

/// `c` with an ASCII capital letter made small.
pub open spec fn ascii_lower(c: char) -> char {
    if 'A' <= c && c <= 'Z' {
        ((c as u32) + 32) as char
    } else {
        c
    }
}

/// `s` with its ASCII capital letters made small.
pub open spec fn lower(s: Seq<char>) -> Seq<char> {
    s.map_values(|c: char| ascii_lower(c))
}

/// `s` without one leading `+` or `-`.
pub open spec fn unsigned_part(s: Seq<char>) -> Seq<char> {
    if s.len() > 0 && (s[0] == '+' || s[0] == '-') {
        s.drop_first()
    } else {
        s
    }
}

/// `Digit+ | Digit+ '.' Digit* | Digit* '.' Digit+`.
pub open spec fn is_mantissa(m: Seq<char>) -> bool {
    match find(m, '.') {
        None => m.len() > 0 && all_digits(m),
        Some(i) => m.len() > 1 && all_digits(m.take(i)) && all_digits(m.skip(i + 1)),
    }
}

/// A number with an optional exponent: `Mantissa ('e' Sign? Digit+)?`, lowercased.
pub open spec fn is_number(t: Seq<char>) -> bool {
    match find(t, 'e') {
        None => is_mantissa(t),
        Some(i) => is_mantissa(t.take(i)) && {
            let y = unsigned_part(t.skip(i + 1));
            y.len() > 0 && all_digits(y)
        },
    }
}

/// Whether `str::parse::<f32>` accepts `s`: after lowercasing, an optional
/// sign followed by `inf`, `infinity`, `nan` or a decimal number with an
/// optional exponent; no surrounding whitespace.
pub open spec fn is_float_literal(s: Seq<char>) -> bool {
    let t = unsigned_part(lower(s));
    t == "inf"@ || t == "infinity"@ || t == "nan"@ || is_number(t)
}

fn ascii_lower_char(c: char) -> (r: char)
    ensures
        r == ascii_lower(c),
{
    if 'A' <= c && c <= 'Z' {
        let u: u32 = (c as u32) + 32;
        let r = match u {
            97 => 'a',
            98 => 'b',
            99 => 'c',
            100 => 'd',
            101 => 'e',
            102 => 'f',
            103 => 'g',
            104 => 'h',
            105 => 'i',
            106 => 'j',
            107 => 'k',
            108 => 'l',
            109 => 'm',
            110 => 'n',
            111 => 'o',
            112 => 'p',
            113 => 'q',
            114 => 'r',
            115 => 's',
            116 => 't',
            117 => 'u',
            118 => 'v',
            119 => 'w',
            120 => 'x',
            121 => 'y',
            _ => 'z',
        };
        assert(r as u32 == u);
        r
    } else {
        c
    }
}

fn lower_chars(s: &[char]) -> (out: Vec<char>)
    ensures
        out@ == lower(s@),
{
    let mut out: Vec<char> = Vec::new();
    let mut i: usize = 0;
    while i < s.len()
        invariant
            i <= s@.len(),
            out@ == lower(s@.take(i as int)),
        decreases s@.len() - i,
    {
        out.push(ascii_lower_char(s[i]));
        i = i + 1;
        assert(lower(s@.take(i as int)) =~= lower(s@.take(i - 1)).push(ascii_lower(s@[i - 1])));
    }
    assert(s@.take(s@.len() as int) =~= s@);
    out
}

fn unsigned_part_chars(s: &[char]) -> (out: Vec<char>)
    ensures
        out@ == unsigned_part(s@),
{
    if s.len() > 0 && (s[0] == '+' || s[0] == '-') {
        let r = sub_chars(s, 1, s.len());
        assert(r@ =~= s@.drop_first());
        r
    } else {
        let r = sub_chars(s, 0, s.len());
        assert(r@ =~= s@);
        r
    }
}

/// Whether every character of `s` is a digit.
pub fn all_digits_chars(s: &[char]) -> (r: bool)
    ensures
        r == all_digits(s@),
{
    let mut i: usize = 0;
    while i < s.len()
        invariant
            i <= s@.len(),
            forall|j: int| 0 <= j < i ==> is_digit(#[trigger] s@[j]),
        decreases s@.len() - i,
    {
        if !('0' <= s[i] && s[i] <= '9') {
            assert(!is_digit(s@[i as int]));
            return false;
        }
        i = i + 1;
    }
    true
}

fn is_mantissa_chars(m: &[char]) -> (r: bool)
    ensures
        r == is_mantissa(m@),
{
    match find_char(m, '.') {
        None => m.len() > 0 && all_digits_chars(m),
        Some(i) => {
            let before = sub_chars(m, 0, i);
            assert(i < m.len());
            let after = sub_chars(m, i + 1, m.len());
            assert(before@ =~= m@.take(i as int));
            assert(after@ =~= m@.skip(i + 1));
            m.len() > 1 && all_digits_chars(before.as_slice()) && all_digits_chars(after.as_slice())
        },
    }
}

fn is_number_chars(t: &[char]) -> (r: bool)
    ensures
        r == is_number(t@),
{
    match find_char(t, 'e') {
        None => is_mantissa_chars(t),
        Some(i) => {
            let before = sub_chars(t, 0, i);
            assert(i < t.len());
            let after = sub_chars(t, i + 1, t.len());
            assert(before@ =~= t@.take(i as int));
            assert(after@ =~= t@.skip(i + 1));
            let y = unsigned_part_chars(after.as_slice());
            is_mantissa_chars(before.as_slice()) && y.len() > 0 && all_digits_chars(y.as_slice())
        },
    }
}

/// Whether `str::parse::<f32>` accepts `s`.
pub fn is_float_literal_chars(s: &[char]) -> (r: bool)
    ensures
        r == is_float_literal(s@),
{
    let low = lower_chars(s);
    let t = unsigned_part_chars(low.as_slice());
    chars_eq_str(t.as_slice(), "inf") || chars_eq_str(t.as_slice(), "infinity") || chars_eq_str(
        t.as_slice(),
        "nan",
    ) || is_number_chars(t.as_slice())
}


/// Whether no character of `s` is whitespace.
pub open spec fn no_whitespace(s: Seq<char>) -> bool {
    forall|i: int| 0 <= i < s.len() ==> !is_whitespace(#[trigger] s[i])
}

proof fn lemma_digits_no_whitespace(d: Seq<char>)
    requires
        all_digits(d),
    ensures
        no_whitespace(d),
{
    assert forall|i: int| 0 <= i < d.len() implies !is_whitespace(#[trigger] d[i]) by {
        assert(is_digit(d[i]));
    }
}

proof fn lemma_mantissa_shape(m: Seq<char>)
    requires
        is_mantissa(m),
    ensures
        m.len() > 0,
        no_whitespace(m),
{
    lemma_find(m, '.');
    match find(m, '.') {
        None => {
            lemma_digits_no_whitespace(m);
        },
        Some(i) => {
            assert forall|j: int| 0 <= j < m.len() implies !is_whitespace(#[trigger] m[j]) by {
                if j < i {
                    assert(m[j] == m.take(i)[j]);
                    assert(is_digit(m.take(i)[j]));
                } else if j > i {
                    assert(m[j] == m.skip(i + 1)[j - i - 1]);
                    assert(is_digit(m.skip(i + 1)[j - i - 1]));
                }
            }
        },
    }
}

proof fn lemma_number_shape(t: Seq<char>)
    requires
        is_number(t),
    ensures
        t.len() > 0,
        no_whitespace(t),
{
    lemma_find(t, 'e');
    match find(t, 'e') {
        None => {
            lemma_mantissa_shape(t);
        },
        Some(i) => {
            lemma_mantissa_shape(t.take(i));
            let x = t.skip(i + 1);
            let y = unsigned_part(x);
            lemma_digits_no_whitespace(y);
            assert forall|j: int| 0 <= j < t.len() implies !is_whitespace(#[trigger] t[j]) by {
                if j < i {
                    assert(t[j] == t.take(i)[j]);
                } else if j > i {
                    assert(t[j] == x[j - i - 1]);
                    if x.len() > 0 && (x[0] == '+' || x[0] == '-') {
                        if j - i - 1 > 0 {
                            assert(x[j - i - 1] == y[j - i - 2]);
                        }
                    } else {
                        assert(x[j - i - 1] == y[j - i - 1]);
                    }
                }
            }
        },
    }
}

/// A float literal is not empty and holds no whitespace, so no line break either.
pub proof fn lemma_float_literal_shape(s: Seq<char>)
    requires
        is_float_literal(s),
    ensures
        s.len() > 0,
        no_whitespace(s),
        lacks(s, '\n'),
        !is_whitespace(s[0]),
        !is_whitespace(s.last()),
{
    let l = lower(s);
    let t = unsigned_part(l);
    reveal_strlit("inf");
    reveal_strlit("infinity");
    reveal_strlit("nan");
    if is_number(t) {
        lemma_number_shape(t);
    }
    assert(t.len() > 0);
    assert(no_whitespace(t));
    assert forall|j: int| 0 <= j < s.len() implies !is_whitespace(#[trigger] s[j]) by {
        assert(l[j] == ascii_lower(s[j]));
        if l.len() > 0 && (l[0] == '+' || l[0] == '-') {
            if j > 0 {
                assert(l[j] == t[j - 1]);
            }
        } else {
            assert(l[j] == t[j]);
        }
    }
    assert forall|j: int| 0 <= j < s.len() implies #[trigger] s[j] != '\n' by {
        assert(!is_whitespace(s[j]));
    }
}

} // verus!
