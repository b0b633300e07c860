//! Character-level text helpers shared by the bridge modules.
//!
//! Text is modelled as `Seq<char>` (the view of `str` and `String`).
use vstd::prelude::*;

verus! {

/// `String::push` from std: appends one character.
#[verifier::external_body]
pub(crate) fn push_char(s: &mut String, c: char)
    ensures
        final(s)@ == old(s)@.push(c),
{
    s.push(c);
}

/// The characters of `s`, in order.
pub fn chars_of(s: &str) -> (v: Vec<char>)
    ensures
        v@ == s@,
{
    let mut v: Vec<char> = Vec::new();
    for c in it: s.chars()
        invariant
            v@ == it.seq().take(it.index() as int),
    {
        v.push(c);
    }
    v
}

/// Appends the characters of `chars` to `out`.
pub fn push_chars(out: &mut String, chars: &Vec<char>)
    ensures
        final(out)@ == old(out)@ + chars@,
{
    let n = chars.len();
    for i in 0..n
        invariant
            n == chars@.len(),
            out@ == old(out)@ + chars@.take(i as int),
    {
        push_char(out, chars[i]);
        assert(chars@.take(i + 1) == chars@.take(i as int).push(chars@[i as int]));
    }
    assert(chars@.take(n as int) == chars@);
}

/// A `String` holding exactly `chars`.
pub fn string_from_chars(chars: &Vec<char>) -> (s: String)
    ensures
        s@ == chars@,
{
    let mut s = String::new();
    push_chars(&mut s, chars);
    s
}

/// An owned copy of `s`.
pub fn owned(s: &str) -> (r: String)
    ensures
        r@ == s@,
{
    s.to_owned()
}

/// `a` followed by `b`.
pub fn concat2(a: &str, b: &str) -> (r: String)
    ensures
        r@ == a@ + b@,
{
    let mut r = a.to_owned();
    r.append(b);
    r
}

/// `a`, `b` and `c` in order.
pub fn concat3(a: &str, b: &str, c: &str) -> (r: String)
    ensures
        r@ == a@ + b@ + c@,
{
    let mut r = a.to_owned();
    r.append(b);
    r.append(c);
    r
}

// ---------------------------------------------------------------------------
// Decimal rendering
// ---------------------------------------------------------------------------

/// The ASCII digit for `d` (`0 <= d < 10`).
pub open spec fn digit_char(d: int) -> char {
    ((d + 48) as u32) as char
}

/// The decimal rendering of a natural number, without leading zeros.
pub open spec fn decimal(n: nat) -> Seq<char>
    decreases n,
{
    if n < 10 {
        seq![digit_char(n as int)]
    } else {
        decimal(n / 10).push(digit_char((n % 10) as int))
    }
}

/// The decimal rendering of an integer, with a leading `-` when negative.
pub open spec fn signed_decimal(i: int) -> Seq<char> {
    if i < 0 {
        seq!['-'] + decimal((-i) as nat)
    } else {
        decimal(i as nat)
    }
}

fn digit(d: u64) -> (c: char)
    requires
        d < 10,
    ensures
        c == digit_char(d as int),
{
    let b: u8 = d as u8;
    (b + 48u8) as char
}

/// Appends the decimal rendering of `n` to `out`.
pub fn push_decimal(out: &mut String, n: u64)
    ensures
        final(out)@ == old(out)@ + decimal(n as nat),
    decreases n,
{
    if n >= 10 {
        push_decimal(out, n / 10);
    }
    push_char(out, digit(n % 10));
    proof {
        if n >= 10 {
            assert(decimal(n as nat) == decimal((n / 10) as nat).push(digit_char((n % 10) as int)));
        }
    }
}

/// Appends the decimal rendering of a 128-bit `n` to `out`.
pub fn push_decimal_wide(out: &mut String, n: u128)
    ensures
        final(out)@ == old(out)@ + decimal(n as nat),
    decreases n,
{
    if n >= 10 {
        push_decimal_wide(out, n / 10);
    }
    let d: u64 = (n % 10) as u64;
    push_char(out, digit(d));
    proof {
        if n >= 10 {
            assert(decimal(n as nat) == decimal((n / 10) as nat).push(digit_char((n % 10) as int)));
        }
    }
}

/// The number a run of decimal digit characters spells.
pub open spec fn decimal_value(d: Seq<char>) -> int
    decreases d.len(),
{
    if d.len() == 0 {
        0
    } else {
        decimal_value(d.drop_last()) * 10 + (d.last() as int - 48)
    }
}

/// Reading a decimal rendering gives the number back, so two numbers with
/// the same rendering are equal.
pub proof fn lemma_decimal_value(n: nat)
    ensures
        decimal_value(decimal(n)) == n,
    decreases n,
{
    let d = (n % 10) as int;
    assert(digit_char(d) as int == d + 48);
    if n < 10 {
        assert(decimal(n).drop_last() =~= Seq::<char>::empty());
        assert(decimal(n).last() == digit_char(n as int));
        assert(decimal_value(decimal(n)) == decimal_value(decimal(n).drop_last()) * 10 + (
        decimal(n).last() as int - 48));
    } else {
        lemma_decimal_value(n / 10);
        assert(decimal(n).drop_last() =~= decimal(n / 10));
        assert(decimal(n).last() == digit_char(d));
        assert(decimal_value(decimal(n)) == decimal_value(decimal(n).drop_last()) * 10 + (
        decimal(n).last() as int - 48));
        assert((n / 10) * 10 + d == n);
    }
}

/// The decimal rendering of `n`.
pub fn decimal_string(n: u64) -> (s: String)
    ensures
        s@ == decimal(n as nat),
{
    let mut s = String::new();
    push_decimal(&mut s, n);
    s
}

/// The decimal rendering of a signed value.
pub fn signed_decimal_string(i: i64) -> (s: String)
    ensures
        s@ == signed_decimal(i as int),
{
    let mut s = String::new();
    if i < 0 {
        push_char(&mut s, '-');
        let magnitude: u64 = if i == i64::MIN {
            9223372036854775808u64
        } else {
            (-i) as u64
        };
        push_decimal(&mut s, magnitude);
    } else {
        push_decimal(&mut s, i as u64);
    }
    s
}

// ---------------------------------------------------------------------------
// ASCII case folding
// ---------------------------------------------------------------------------

/// ASCII lower-casing of one character; other characters are unchanged.
pub open spec fn ascii_lower_char(c: char) -> char {
    if 'A' <= c && c <= 'Z' {
        ((c as u32) + 32) as char
    } else {
        c
    }
}

/// ASCII upper-casing of one character; other characters are unchanged.
pub open spec fn ascii_upper_char(c: char) -> char {
    if 'a' <= c && c <= 'z' {
        ((c as u32) - 32) as char
    } else {
        c
    }
}

/// ASCII lower-casing of a text, as `str::to_ascii_lowercase` does.
pub open spec fn ascii_lower(s: Seq<char>) -> Seq<char> {
    s.map_values(|c: char| ascii_lower_char(c))
}

pub fn lower_char(c: char) -> (r: char)
    ensures
        r == ascii_lower_char(c),
{
    if 'A' <= c && c <= 'Z' {
        let v = c as u32;
        ((v + 32) as u8) as char
    } else {
        c
    }
}

pub fn upper_char(c: char) -> (r: char)
    ensures
        r == ascii_upper_char(c),
{
    if 'a' <= c && c <= 'z' {
        let v = c as u32;
        ((v - 32) as u8) as char
    } else {
        c
    }
}

/// ASCII lower-cased copy of `s`.
pub fn to_ascii_lower(s: &Vec<char>) -> (r: Vec<char>)
    ensures
        r@ == ascii_lower(s@),
{
    let mut r: Vec<char> = Vec::new();
    let n = s.len();
    for i in 0..n
        invariant
            n == s@.len(),
            r@ == ascii_lower(s@.take(i as int)),
    {
        r.push(lower_char(s[i]));
        assert(ascii_lower(s@.take(i + 1)) == ascii_lower(s@.take(i as int)).push(
            ascii_lower_char(s@[i as int]),
        ));
    }
    assert(s@.take(n as int) == s@);
    r
}

// ---------------------------------------------------------------------------
// Substring search
// ---------------------------------------------------------------------------

/// `p` occurs in `s` starting at index `i`.
pub open spec fn occurs_at(s: Seq<char>, p: Seq<char>, i: int) -> bool {
    0 <= i && i + p.len() <= s.len() && s.subrange(i, i + p.len()) == p
}

/// `p` occurs somewhere in `s`, as `str::contains` tests.
pub open spec fn contains_text(s: Seq<char>, p: Seq<char>) -> bool {
    exists|i: int| occurs_at(s, p, i)
}

/// `s` begins with `p`.
pub open spec fn starts_with_text(s: Seq<char>, p: Seq<char>) -> bool {
    occurs_at(s, p, 0)
}

/// Whether `p` occurs in `s` at index `i`.
pub fn matches_at(s: &Vec<char>, p: &Vec<char>, i: usize) -> (r: bool)
    ensures
        r == occurs_at(s@, p@, i as int),
{
    if i > s.len() || p.len() > s.len() - i {
        return false;
    }
    let n = p.len();
    assert(i + n <= s.len());
    for j in 0..n
        invariant
            n == p@.len(),
            i + n <= s.len(),
            forall|k: int| 0 <= k < j ==> s@[i + k] == p@[k],
    {
        if s[i + j] != p[j] {
            assert(s@.subrange(i as int, i + n)[j as int] != p@[j as int]);
            return false;
        }
    }
    assert(s@.subrange(i as int, i + n) == p@);
    true
}

/// Whether `p` occurs anywhere in `s`.
pub fn contains_chars(s: &Vec<char>, p: &Vec<char>) -> (r: bool)
    ensures
        r == contains_text(s@, p@),
{
    if p.len() > s.len() {
        return false;
    }
    let last = s.len() - p.len();
    let mut i: usize = 0;
    loop
        invariant
            last == s@.len() - p@.len(),
            i <= last,
            forall|k: int| 0 <= k < i ==> !occurs_at(s@, p@, k),
        ensures
            forall|k: int| 0 <= k <= last ==> !occurs_at(s@, p@, k),
        decreases last - i,
    {
        if matches_at(s, p, i) {
            return true;
        }
        if i == last {
            break;
        }
        i = i + 1;
    }
    assert forall|k: int| !occurs_at(s@, p@, k) by {
        if 0 <= k && k + p@.len() <= s@.len() {
            assert(k <= last);
        }
    }
    false
}

/// Whether `s` begins with `p`.
pub fn starts_with_chars(s: &Vec<char>, p: &Vec<char>) -> (r: bool)
    ensures
        r == starts_with_text(s@, p@),
{
    matches_at(s, p, 0)
}

// ---------------------------------------------------------------------------
// Whitespace and control characters
// ---------------------------------------------------------------------------

/// Unicode `White_Space`, the set that `char::is_whitespace` documents.
pub open spec fn is_whitespace_char(c: char) -> bool {
    let v = c as u32;
    (9 <= v && v <= 13) || v == 32 || v == 0x85 || v == 0xA0 || v == 0x1680 || (0x2000 <= v
        && v <= 0x200A) || v == 0x2028 || v == 0x2029 || v == 0x202F || v == 0x205F || v
        == 0x3000
}

/// Unicode general category `Cc`, the set that `char::is_control` documents.
pub open spec fn is_control_char(c: char) -> bool {
    let v = c as u32;
    v <= 0x1F || (0x7F <= v && v <= 0x9F)
}

pub fn is_whitespace(c: char) -> (r: bool)
    ensures
        r == is_whitespace_char(c),
{
    let v = c as u32;
    (9 <= v && v <= 13) || v == 32 || v == 0x85 || v == 0xA0 || v == 0x1680 || (0x2000 <= v
        && v <= 0x200A) || v == 0x2028 || v == 0x2029 || v == 0x202F || v == 0x205F || v
        == 0x3000
}

pub fn is_control(c: char) -> (r: bool)
    ensures
        r == is_control_char(c),
{
    let v = c as u32;
    v <= 0x1F || (0x7F <= v && v <= 0x9F)
}

/// Index of the first non-whitespace character (or the length).
pub open spec fn trim_start_index(s: Seq<char>) -> int
    decreases s.len(),
{
    if s.len() == 0 || !is_whitespace_char(s[0]) {
        0
    } else {
        1 + trim_start_index(s.drop_first())
    }
}

/// Index just past the last non-whitespace character (or 0).
pub open spec fn trim_end_index(s: Seq<char>) -> int
    decreases s.len(),
{
    if s.len() == 0 || !is_whitespace_char(s.last()) {
        s.len() as int
    } else {
        trim_end_index(s.drop_last())
    }
}

/// `s` without trailing whitespace, as `str::trim_end` gives.
pub open spec fn trim_end_text(s: Seq<char>) -> Seq<char> {
    s.take(trim_end_index(s))
}

/// `s` without leading or trailing whitespace, as `str::trim` gives.
pub open spec fn trim_text(s: Seq<char>) -> Seq<char> {
    let t = trim_end_text(s);
    t.skip(trim_start_index(t))
}

pub proof fn lemma_trim_end_index_bounds(s: Seq<char>)
    ensures
        0 <= trim_end_index(s) <= s.len(),
    decreases s.len(),
{
    if s.len() != 0 && is_whitespace_char(s.last()) {
        lemma_trim_end_index_bounds(s.drop_last());
    }
}

/// What `str::trim` leaves starts and ends with a non-whitespace
/// character.
pub proof fn lemma_trim_text_ends(s: Seq<char>)
    ensures
        trim_text(s).len() > 0 ==> !is_whitespace_char(trim_text(s)[0]) && !is_whitespace_char(
            trim_text(s).last(),
        ),
{
    let e = trim_end_index(s);
    lemma_trim_end_index_bounds(s);
    lemma_trim_end_index_not_whitespace(s);
    let te = s.take(e);
    let k = trim_start_index(te);
    lemma_trim_start_index_bounds(te);
    lemma_trim_start_index_not_whitespace(te);
    if trim_text(s).len() > 0 {
        assert(trim_text(s)[0] == te[k]);
        assert(trim_text(s).last() == s[e - 1]);
    }
}

proof fn lemma_trim_end_index_not_whitespace(s: Seq<char>)
    ensures
        trim_end_index(s) > 0 ==> !is_whitespace_char(s[trim_end_index(s) - 1]),
    decreases s.len(),
{
    if s.len() != 0 && is_whitespace_char(s.last()) {
        lemma_trim_end_index_not_whitespace(s.drop_last());
        lemma_trim_end_index_bounds(s.drop_last());
    }
}

proof fn lemma_trim_start_index_not_whitespace(s: Seq<char>)
    ensures
        trim_start_index(s) < s.len() ==> !is_whitespace_char(s[trim_start_index(s)]),
    decreases s.len(),
{
    if s.len() != 0 && is_whitespace_char(s[0]) {
        let rest = s.drop_first();
        lemma_trim_start_index_not_whitespace(rest);
        lemma_trim_start_index_bounds(rest);
        let j = trim_start_index(rest);
        if j < rest.len() {
            assert(s[1 + j] == rest[j]);
        }
    }
}

/// A text that neither starts nor ends with whitespace trims to itself.
pub proof fn lemma_trim_text_of_trimmed(s: Seq<char>)
    requires
        s.len() > 0,
        !is_whitespace_char(s[0]),
        !is_whitespace_char(s.last()),
    ensures
        trim_text(s) == s,
{
    assert(trim_end_index(s) == s.len());
    assert(s.take(s.len() as int) =~= s);
    assert(trim_start_index(s) == 0);
    assert(s.skip(0) =~= s);
}

pub proof fn lemma_trim_start_index_bounds(s: Seq<char>)
    ensures
        0 <= trim_start_index(s) <= s.len(),
    decreases s.len(),
{
    if s.len() != 0 && is_whitespace_char(s[0]) {
        lemma_trim_start_index_bounds(s.drop_first());
    }
}

/// The length of `s` once trailing whitespace is removed.
pub fn trim_end_len(s: &Vec<char>) -> (n: usize)
    ensures
        n == trim_end_index(s@),
{
    let mut n = s.len();
    assert(s@.take(n as int) == s@);
    while n > 0 && is_whitespace(s[n - 1])
        invariant
            n <= s@.len(),
            trim_end_index(s@.take(n as int)) == trim_end_index(s@),
        decreases n,
    {
        assert(s@.take(n as int).drop_last() == s@.take(n - 1));
        n = n - 1;
    }
    proof {
        if n == 0 {
            assert(s@.take(0) =~= Seq::<char>::empty());
        } else {
            assert(s@.take(n as int).last() == s@[n - 1]);
        }
    }
    n
}

/// The index of the first character of `s` that is not whitespace.
pub fn trim_start_len(s: &Vec<char>) -> (n: usize)
    ensures
        n == trim_start_index(s@),
{
    let mut n: usize = 0;
    assert(s@.skip(0) == s@);
    while n < s.len() && is_whitespace(s[n])
        invariant
            n <= s@.len(),
            n + trim_start_index(s@.skip(n as int)) == trim_start_index(s@),
        decreases s@.len() - n,
    {
        assert(s@.skip(n as int).drop_first() == s@.skip(n + 1));
        n = n + 1;
    }
    proof {
        if n < s@.len() {
            assert(s@.skip(n as int)[0] == s@[n as int]);
        }
    }
    n
}

/// `s` without leading or trailing whitespace.
pub fn trim_chars(s: &Vec<char>) -> (r: Vec<char>)
    ensures
        r@ == trim_text(s@),
{
    let end = trim_end_len(s);
    proof {
        lemma_trim_end_index_bounds(s@);
    }
    let mut t: Vec<char> = Vec::new();
    for i in 0..end
        invariant
            end <= s@.len(),
            t@ == s@.take(i as int),
    {
        t.push(s[i]);
        assert(s@.take(i + 1) == s@.take(i as int).push(s@[i as int]));
    }
    let start = trim_start_len(&t);
    proof {
        lemma_trim_start_index_bounds(t@);
    }
    let mut r: Vec<char> = Vec::new();
    for i in start..end
        invariant
            end == t@.len(),
            start <= end,
            r@ == t@.subrange(start as int, i as int),
    {
        r.push(t[i]);
        assert(t@.subrange(start as int, i + 1) == t@.subrange(start as int, i as int).push(
            t@[i as int],
        ));
    }
    assert(t@.subrange(start as int, end as int) == t@.skip(start as int));
    r
}

/// The index of the first `\n` at or after `start`, or the length.
pub open spec fn line_end(s: Seq<char>, start: int) -> int
    decreases s.len() - start,
{
    if start >= s.len() {
        s.len() as int
    } else if s[start] == '\n' {
        start
    } else {
        line_end(s, start + 1)
    }
}

/// A line as `str::lines` yields it: a `\r` before the `\n` is dropped.
pub open spec fn line_at(s: Seq<char>, start: int) -> Seq<char> {
    let e = line_end(s, start);
    let raw = s.subrange(start, e);
    if e < s.len() && raw.len() > 0 && raw.last() == '\r' {
        raw.drop_last()
    } else {
        raw
    }
}

pub proof fn lemma_line_end_bounds(s: Seq<char>, start: int)
    requires
        0 <= start,
    ensures
        start <= line_end(s, start) || start > s.len(),
        line_end(s, start) <= s.len(),
        line_end(s, start) < s.len() ==> s[line_end(s, start)] == '\n',
    decreases s.len() - start,
{
    if start < s.len() && s[start] != '\n' {
        lemma_line_end_bounds(s, start + 1);
    }
}

/// The line that starts at `start`, and the index of the `\n` that ends it
/// (or the length).
pub fn next_line(s: &Vec<char>, start: usize) -> (r: (Vec<char>, usize))
    requires
        start < s@.len(),
    ensures
        r.1 == line_end(s@, start as int),
        r.0@ == line_at(s@, start as int),
{
    let n = s.len();
    let mut e = start;
    while e < n && s[e] != '\n'
        invariant
            start <= e <= n,
            n == s@.len(),
            line_end(s@, start as int) == line_end(s@, e as int),
        decreases n - e,
    {
        e = e + 1;
    }
    let mut stop = e;
    if e < n && e > start && s[e - 1] == '\r' {
        stop = e - 1;
    }
    let mut line: Vec<char> = Vec::new();
    for i in start..stop
        invariant
            start <= stop <= e <= n,
            n == s@.len(),
            line@ == s@.subrange(start as int, i as int),
    {
        line.push(s[i]);
        assert(s@.subrange(start as int, i + 1) == s@.subrange(start as int, i as int).push(
            s@[i as int],
        ));
    }
    proof {
        assert(line_end(s@, start as int) == e);
        if e < n && e > start && s@[e - 1] == '\r' {
            assert(s@.subrange(start as int, e as int).drop_last() == s@.subrange(
                start as int,
                stop as int,
            ));
        }
    }
    (line, e)
}

/// The first index from `k` on where `a` and `b` differ or one of them
/// ends.
pub open spec fn first_difference(a: Seq<char>, b: Seq<char>, k: int) -> int
    decreases a.len() - k,
{
    if k < 0 || k >= a.len() || k >= b.len() || a[k] != b[k] {
        k
    } else {
        first_difference(a, b, k + 1)
    }
}

/// `a` sorts before `b` when the texts are compared character by
/// character by code point, a proper prefix sorting first (the order of
/// `str`'s `Ord`, since UTF-8 keeps code point order).
pub open spec fn text_less(a: Seq<char>, b: Seq<char>) -> bool {
    let k = first_difference(a, b, 0);
    (k == a.len() && k < b.len()) || (k < a.len() && k < b.len() && a[k] < b[k])
}

pub proof fn lemma_first_difference(a: Seq<char>, b: Seq<char>, k: int)
    requires
        0 <= k <= a.len(),
        k <= b.len(),
    ensures
        k <= first_difference(a, b, k) <= a.len(),
        first_difference(a, b, k) <= b.len(),
        forall|m: int| k <= m < first_difference(a, b, k) ==> a[m] == b[m],
        first_difference(a, b, k) < a.len() && first_difference(a, b, k) < b.len() ==> a[first_difference(a, b, k)] != b[first_difference(a, b, k)],
    decreases a.len() - k,
{
    if k < a.len() && k < b.len() && a[k] == b[k] {
        lemma_first_difference(a, b, k + 1);
    }
}

/// The first difference is the one index where the texts agree before it
/// and differ (or end) at it.
pub proof fn lemma_first_difference_is(a: Seq<char>, b: Seq<char>, x: int)
    requires
        0 <= x <= a.len(),
        x <= b.len(),
        forall|m: int| 0 <= m < x ==> a[m] == b[m],
        x == a.len() || x == b.len() || a[x] != b[x],
    ensures
        first_difference(a, b, 0) == x,
{
    lemma_first_difference(a, b, 0);
    let d = first_difference(a, b, 0);
    if d < x {
        assert(a[d] == b[d]);
    } else if d > x {
        assert(a[x] == b[x]);
    }
}

pub proof fn lemma_text_less_irreflexive(a: Seq<char>)
    ensures
        !text_less(a, a),
{
    lemma_first_difference(a, a, 0);
}

pub proof fn lemma_text_less_total(a: Seq<char>, b: Seq<char>)
    ensures
        a == b || text_less(a, b) || text_less(b, a),
{
    lemma_first_difference(a, b, 0);
    lemma_first_difference(b, a, 0);
    let d = first_difference(a, b, 0);
    assert forall|m: int| 0 <= m < d implies b[m] == a[m] by {}
    lemma_first_difference_is(b, a, d);
    if d == a.len() && d == b.len() {
        assert(a =~= b);
    } else if d < a.len() && d < b.len() {
        assert(a[d] != b[d]);
    }
}

pub proof fn lemma_text_less_transitive(a: Seq<char>, b: Seq<char>, c: Seq<char>)
    requires
        text_less(a, b),
        text_less(b, c),
    ensures
        text_less(a, c),
{
    lemma_first_difference(a, b, 0);
    lemma_first_difference(b, c, 0);
    let i = first_difference(a, b, 0);
    let j = first_difference(b, c, 0);
    if i < j {
        lemma_first_difference_is(a, c, i);
    } else if j < i {
        lemma_first_difference_is(a, c, j);
    } else {
        lemma_first_difference_is(a, c, i);
    }
}

/// Compares two texts in [`text_less`] order.
pub fn less_text(a: &str, b: &str) -> (r: bool)
    ensures
        r == text_less(a@, b@),
{
    let x = chars_of(a);
    let y = chars_of(b);
    let mut k: usize = 0;
    while k < x.len() && k < y.len() && x[k] == y[k]
        invariant
            k <= x@.len(),
            k <= y@.len(),
            first_difference(x@, y@, 0) == first_difference(x@, y@, k as int),
        decreases x@.len() - k,
    {
        k = k + 1;
    }
    assert(first_difference(x@, y@, k as int) == k);
    assert(x@ == a@ && y@ == b@);
    if k == x.len() {
        k < y.len()
    } else if k == y.len() {
        false
    } else {
        x[k] < y[k]
    }
}

/// Compares two texts for equality.
pub fn same_text(a: &str, b: &str) -> (r: bool)
    ensures
        r == (a@ == b@),
{
    let x = chars_of(a);
    let y = chars_of(b);
    if x.len() != y.len() {
        assert(x@.len() != y@.len());
        return false;
    }
    let mut k: usize = 0;
    while k < x.len()
        invariant
            k <= x@.len(),
            x@ == a@,
            y@ == b@,
            x@.len() == y@.len(),
            x@.take(k as int) == y@.take(k as int),
        decreases x@.len() - k,
    {
        if x[k] != y[k] {
            assert(x@[k as int] != y@[k as int]);
            assert(a@[k as int] != b@[k as int]);
            assert(a@ != b@);
            return false;
        }
        assert(x@.take(k + 1) == x@.take(k as int).push(x@[k as int]));
        assert(y@.take(k + 1) == y@.take(k as int).push(y@[k as int]));
        k = k + 1;
    }
    assert(x@ =~= x@.take(k as int));
    assert(y@ =~= y@.take(k as int));
    true
}

} // verus!
