//! Character-level text helpers: conversion between strings and character
//! vectors, trimming, decimal numbers, substring search and path joining.

use vstd::prelude::*;

verus! {

/// The characters of `s`, in order.
pub fn chars_of(s: &str) -> (v: Vec<char>)
    ensures
        v@ == s@,
{
    let mut v: Vec<char> = Vec::new();
    for c in it: s.chars()
        invariant
            it.seq() == s@,
            v@ == it.seq().take(it.index()),
    {
        v.push(c);
    }
    v
}

} // verus!

verus! {

/// Calls `String::push`. Claimed: the character is appended.
#[verifier::external_body]
fn push_char(s: &mut String, c: char)
    ensures
        final(s)@ == old(s)@.push(c),
{
    s.push(c)
}

/// The string made of the characters of `v`, in order.
pub fn string_of(v: &Vec<char>) -> (s: String)
    ensures
        s@ == v@,
{
    let mut s = String::new();
    for i in 0..v.len()
        invariant
            s@ == v@.take(i as int),
    {
        push_char(&mut s, v[i]);
        assert(v@.take(i + 1) == v@.take(i as int).push(v@[i as int]));
    }
    assert(v@.take(v.len() as int) == v@);
    s
}

/// Unicode `White_Space`, the set `char::is_whitespace` tests.
pub open spec fn is_whitespace(c: char) -> bool {
    ||| ('\u{9}' <= c && c <= '\u{d}')
    ||| c == ' '
    ||| c == '\u{85}'
    ||| c == '\u{a0}'
    ||| c == '\u{1680}'
    ||| ('\u{2000}' <= c && c <= '\u{200a}')
    ||| c == '\u{2028}'
    ||| c == '\u{2029}'
    ||| c == '\u{202f}'
    ||| c == '\u{205f}'
    ||| c == '\u{3000}'
}

/// `s` without its leading whitespace.
pub open spec fn trimmed_start(s: Seq<char>) -> Seq<char>
    decreases s.len(),
{
    if s.len() > 0 && is_whitespace(s[0]) {
        trimmed_start(s.drop_first())
    } else {
        s
    }
}

/// `s` without its trailing whitespace.
pub open spec fn trimmed_end(s: Seq<char>) -> Seq<char>
    decreases s.len(),
{
    if s.len() > 0 && is_whitespace(s.last()) {
        trimmed_end(s.drop_last())
    } else {
        s
    }
}

/// `s` without leading and trailing whitespace.
pub open spec fn trimmed(s: Seq<char>) -> Seq<char> {
    trimmed_end(trimmed_start(s))
}

/// Calls `str::trim`. Claimed: leading and trailing `White_Space` characters
/// are removed, as the documentation of `str::trim` says.
#[verifier::external_body]
pub(crate) fn trim_str(s: &str) -> (r: &str)
    ensures
        r@ == trimmed(s@),
{
    s.trim()
}

/// `s` without leading and trailing whitespace, as an owned string.
pub fn trim_text(s: &str) -> (r: String)
    ensures
        r@ == trimmed(s@),
{
    String::from_str(trim_str(s))
}

/// Whether `c` is one of the ASCII digits `0` to `9`.
pub open spec fn is_ascii_digit(c: char) -> bool {
    '0' <= c && c <= '9'
}

/// The value of an ASCII digit character.
pub open spec fn digit_value(c: char) -> int {
    c as int - '0' as int
}

/// The ASCII digit character for `d` (meant for `d` below ten).
pub open spec fn digit_char(d: int) -> char {
    if d == 0 { '0' } else if d == 1 { '1' } else if d == 2 { '2' } else if d == 3 { '3' }
    else if d == 4 { '4' } else if d == 5 { '5' } else if d == 6 { '6' } else if d == 7 { '7' }
    else if d == 8 { '8' } else { '9' }
}

/// The number a string of decimal digits denotes.
pub open spec fn digits_value(s: Seq<char>) -> int
    decreases s.len(),
{
    if s.len() == 0 {
        0
    } else {
        digits_value(s.drop_last()) * 10 + digit_value(s.last())
    }
}

/// Whether every character of `s` is an ASCII digit.
pub open spec fn all_ascii_digits(s: Seq<char>) -> bool {
    forall|i: int| 0 <= i < s.len() ==> #[trigger] is_ascii_digit(s[i])
}

/// The decimal form of `n`, without leading zeros (what `Display` prints for
/// an unsigned integer).
pub open spec fn decimal(n: nat) -> Seq<char>
    decreases n,
{
    if n < 10 {
        seq![digit_char(n as int)]
    } else {
        decimal(n / 10).push(digit_char((n % 10) as int))
    }
}

/// The digits that `u16::from_str` reads: a single leading `+` is skipped.
pub open spec fn unsigned_digits(s: Seq<char>) -> Seq<char> {
    if s.len() > 0 && s[0] == '+' {
        s.drop_first()
    } else {
        s
    }
}

/// What `u16::from_str` accepts: an optional `+`, then one or more ASCII
/// digits whose value fits in 16 bits.
pub open spec fn parsed_u16(s: Seq<char>) -> Option<u16> {
    let d = unsigned_digits(s);
    if d.len() > 0 && all_ascii_digits(d) && digits_value(d) <= u16::MAX {
        Some(digits_value(d) as u16)
    } else {
        None
    }
}

fn digit_to_char(d: u16) -> (c: char)
    requires
        d < 10,
    ensures
        c == digit_char(d as int),
{
    if d == 0 { '0' } else if d == 1 { '1' } else if d == 2 { '2' } else if d == 3 { '3' }
    else if d == 4 { '4' } else if d == 5 { '5' } else if d == 6 { '6' } else if d == 7 { '7' }
    else if d == 8 { '8' } else { '9' }
}

fn decimal_chars(n: u16) -> (v: Vec<char>)
    ensures
        v@ == decimal(n as nat),
    decreases n,
{
    if n < 10 {
        let mut v: Vec<char> = Vec::new();
        v.push(digit_to_char(n));
        v
    } else {
        let mut v = decimal_chars(n / 10);
        v.push(digit_to_char(n % 10));
        v
    }
}

/// The decimal form of `n`, as `n.to_string()` gives it.
pub fn u16_to_decimal(n: u16) -> (s: String)
    ensures
        s@ == decimal(n as nat),
{
    let v = decimal_chars(n);
    string_of(&v)
}

/// Reads `s` as `u16::from_str` does: `None` where that returns an error.
pub fn parse_u16(s: &str) -> (r: Option<u16>)
    ensures
        r == parsed_u16(s@),
{
    let v = chars_of(s);
    let start: usize = if v.len() > 0 && v[0] == '+' { 1 } else { 0 };
    let ghost d = unsigned_digits(s@);
    assert(d == v@.skip(start as int));
    if start >= v.len() {
        assert(d.len() == 0);
        return None;
    }
    let mut acc: u32 = 0;
    let mut i: usize = start;
    while i < v.len()
        invariant
            start <= i <= v.len(),
            d == v@.skip(start as int),
            d == unsigned_digits(s@),
            forall|k: int| 0 <= k < i - start ==> #[trigger] is_ascii_digit(d[k]),
            acc == (if digits_value(d.take(i - start)) > 65535 { 65536 } else { digits_value(d.take(i - start)) }),
        decreases v.len() - i,
    {
        let c = v[i];
        if !('0' <= c && c <= '9') {
            assert(!is_ascii_digit(d[i - start]));
            return None;
        }
        let ghost prefix = d.take(i - start);
        assert(d.take(i - start + 1).drop_last() == prefix);
        assert(d.take(i - start + 1).last() == c);
        let dv: u32 = if c == '0' { 0 } else if c == '1' { 1 } else if c == '2' { 2 } else if c == '3' { 3 }
            else if c == '4' { 4 } else if c == '5' { 5 } else if c == '6' { 6 } else if c == '7' { 7 }
            else if c == '8' { 8 } else { 9 };
        assert(dv == digit_value(c));
        if acc == 65536 {
            acc = 65536;
        } else {
            acc = acc * 10 + dv;
            if acc > 65535 {
                acc = 65536;
            }
        }
        i = i + 1;
    }
    assert(d.take(i - start) == d);
    if acc > 65535 {
        None
    } else {
        Some(acc as u16)
    }
}

/// Whether `sub` occurs in `s` starting at index `i`.
pub open spec fn occurs_at(s: Seq<char>, sub: Seq<char>, i: int) -> bool {
    0 <= i && i + sub.len() <= s.len() && s.subrange(i, i + sub.len()) == sub
}

/// Whether `sub` occurs anywhere in `s`.
pub open spec fn contains_seq(s: Seq<char>, sub: Seq<char>) -> bool {
    exists|i: int| #[trigger] occurs_at(s, sub, i)
}

fn matches_at(s: &Vec<char>, sub: &Vec<char>, i: usize) -> (b: bool)
    requires
        i + sub.len() <= s.len(),
    ensures
        b == occurs_at(s@, sub@, i as int),
{
    for j in 0..sub.len()
        invariant
            i + sub.len() <= s.len(),
            forall|k: int| 0 <= k < j ==> s@[i + k] == #[trigger] sub@[k],
    {
        if s[i + j] != sub[j] {
            assert(s@.subrange(i as int, i + sub.len())[j as int] != sub@[j as int]);
            return false;
        }
    }
    assert(s@.subrange(i as int, i + sub.len()) =~= sub@);
    true
}

/// Whether `sub` occurs in `s`, as `str::contains` answers for a string pattern.
pub fn contains_text(s: &str, sub: &str) -> (b: bool)
    ensures
        b == contains_seq(s@, sub@),
{
    let sv = chars_of(s);
    let tv = chars_of(sub);
    if tv.len() > sv.len() {
        assert forall|i: int| !occurs_at(s@, sub@, i) by {}
        return false;
    }
    let last = sv.len() - tv.len();
    let mut i: usize = 0;
    loop
        invariant
            last == sv.len() - tv.len(),
            tv.len() <= sv.len(),
            i <= last,
            sv@ == s@,
            tv@ == sub@,
            forall|k: int| 0 <= k < i ==> !#[trigger] occurs_at(s@, sub@, k),
        ensures
            forall|k: int| 0 <= k <= last ==> !#[trigger] occurs_at(s@, sub@, k),
        decreases last - i,
    {
        if matches_at(&sv, &tv, i) {
            return true;
        }
        if i == last {
            break;
        }
        i = i + 1;
    }
    assert forall|k: int| !occurs_at(s@, sub@, k) by {
        if 0 <= k <= last {
        }
    }
    false
}

/// `base` extended by `name` as `PathBuf::push` does on Unix: an absolute
/// `name` replaces `base`; otherwise a `/` is put between them unless `base`
/// is empty or already ends in one.
pub open spec fn joined_path(base: Seq<char>, name: Seq<char>) -> Seq<char> {
    if name.len() > 0 && name[0] == '/' {
        name
    } else if base.len() == 0 || base.last() == '/' {
        base + name
    } else {
        base + seq!['/'] + name
    }
}

/// Joins a path and a component, as `Path::join` does on Unix.
pub fn path_join(base: &str, name: &str) -> (r: String)
    ensures
        r@ == joined_path(base@, name@),
{
    let nv = chars_of(name);
    if nv.len() > 0 && nv[0] == '/' {
        return String::from_str(name);
    }
    let bv = chars_of(base);
    let mut out = String::from_str(base);
    if !(bv.len() == 0 || bv[bv.len() - 1] == '/') {
        out.append("/");
        proof {
            reveal_strlit("/");
        }
    }
    out.append(name);
    out
}

} // verus!

verus! {

proof fn digit_char_value(k: int)
    requires
        0 <= k < 10,
    ensures
        is_ascii_digit(digit_char(k)),
        digit_value(digit_char(k)) == k,
{
}

proof fn decimal_is_digits(n: nat)
    ensures
        decimal(n).len() > 0,
        all_ascii_digits(decimal(n)),
        digits_value(decimal(n)) == n,
    decreases n,
{
    if n < 10 {
        digit_char_value(n as int);
        let d = decimal(n);
        assert(d.drop_last() =~= Seq::<char>::empty());
        assert(digits_value(d.drop_last()) == 0);
        assert(digits_value(d) == digit_value(d.last()));
    } else {
        decimal_is_digits(n / 10);
        digit_char_value((n % 10) as int);
        let d = decimal(n);
        assert(d.drop_last() == decimal(n / 10));
        assert(d.last() == digit_char((n % 10) as int));
        assert(digits_value(d) == digits_value(decimal(n / 10)) * 10 + digit_value(d.last()));
        assert((n / 10) * 10 + n % 10 == n);
        assert forall|i: int| 0 <= i < d.len() implies #[trigger] is_ascii_digit(d[i]) by {
            if i < d.len() - 1 {
                assert(d[i] == decimal(n / 10)[i]);
            }
        }
    }
}

/// Reading back the decimal form of a 16-bit number gives the number:
/// `parse_u16(u16_to_decimal(n)) == Some(n)`.
pub proof fn decimal_round_trip(n: u16)
    ensures
        parsed_u16(decimal(n as nat)) == Some(n),
{
    decimal_is_digits(n as nat);
    let d = decimal(n as nat);
    assert(is_ascii_digit(d[0]));
    assert(unsigned_digits(d) == d);
}

} // verus!

verus! {

proof fn trimmed_start_drops_whitespace(s: Seq<char>)
    ensures
        trimmed_start(s).len() <= s.len(),
        trimmed_start(s) == s.skip(s.len() - trimmed_start(s).len()),
        forall|k: int| 0 <= k < s.len() - trimmed_start(s).len() ==> #[trigger] is_whitespace(s[k]),
        trimmed_start(s).len() > 0 ==> !is_whitespace(trimmed_start(s)[0]),
    decreases s.len(),
{
    if s.len() > 0 && is_whitespace(s[0]) {
        let r = s.drop_first();
        trimmed_start_drops_whitespace(r);
        assert(r.skip(r.len() - trimmed_start(r).len()) =~= s.skip(s.len() - trimmed_start(s).len()));
        assert forall|k: int| 0 <= k < s.len() - trimmed_start(s).len() implies #[trigger] is_whitespace(s[k]) by {
            if k > 0 {
                assert(s[k] == r[k - 1]);
            }
        }
    } else {
        assert(s.skip(0) =~= s);
    }
}

proof fn trimmed_end_drops_whitespace(s: Seq<char>)
    ensures
        trimmed_end(s).len() <= s.len(),
        trimmed_end(s) == s.take(trimmed_end(s).len() as int),
        forall|k: int| trimmed_end(s).len() <= k < s.len() ==> #[trigger] is_whitespace(s[k]),
        trimmed_end(s).len() > 0 ==> !is_whitespace(trimmed_end(s).last()),
    decreases s.len(),
{
    if s.len() > 0 && is_whitespace(s.last()) {
        let r = s.drop_last();
        trimmed_end_drops_whitespace(r);
        assert(r.take(trimmed_end(r).len() as int) =~= s.take(trimmed_end(s).len() as int));
        assert forall|k: int| trimmed_end(s).len() <= k < s.len() implies #[trigger] is_whitespace(s[k]) by {
            if k < s.len() - 1 {
                assert(s[k] == r[k]);
            }
        }
    } else {
        assert(s.take(s.len() as int) =~= s);
    }
}

/// Trimming removes whitespace from the two ends of a text and nothing else:
/// what is left is one contiguous stretch of the text, everything before and
/// after it is whitespace, and it neither starts nor ends with whitespace.
pub proof fn trim_removes_only_surrounding_whitespace(s: Seq<char>)
    ensures
        exists|i: int, j: int|
            {
                &&& 0 <= i <= j <= s.len()
                &&& trimmed(s) == s.subrange(i, j)
                &&& forall|k: int| 0 <= k < i ==> #[trigger] is_whitespace(s[k])
                &&& forall|k: int| j <= k < s.len() ==> #[trigger] is_whitespace(s[k])
                &&& i < j ==> !is_whitespace(s[i]) && !is_whitespace(s[j - 1])
            },
{
    let a = trimmed_start(s);
    trimmed_start_drops_whitespace(s);
    trimmed_end_drops_whitespace(a);
    let i = s.len() - a.len();
    let t = trimmed_end(a);
    let j = i + t.len();
    assert(t == s.subrange(i, j)) by {
        assert(t =~= s.subrange(i, j));
    }
    assert forall|k: int| j <= k < s.len() implies #[trigger] is_whitespace(s[k]) by {
        assert(s[k] == a[k - i]);
    }
    if i < j {
        assert(s[i] == a[0]);
        assert(s[j - 1] == t.last());
        assert(t.last() == a[t.len() - 1]);
    }
    assert(trimmed(s) == t);
}

} // verus!
