//! Character-level helpers shared by the parsers of this crate.
//!
//! Strings are handled through their view, a sequence of `char`s.  The spec
//! functions here state what the corresponding `str` methods of std compute.
use vstd::prelude::*;

verus! {

/// Unicode `White_Space` property, as `char::is_whitespace` documents it.
pub open spec fn is_ws(c: char) -> bool {
    ||| ('\u{9}' <= c && c <= '\u{d}')
    ||| c == ' '
    ||| c == '\u{85}'
    ||| c == '\u{a0}'
    ||| c == '\u{1680}'
    ||| ('\u{2000}' <= c && c <= '\u{200a}')
    ||| c == '\u{2028}'
    ||| c == '\u{2029}'
    ||| c == '\u{202f}'
    ||| c == '\u{205f}'
    ||| c == '\u{3000}'
}

/// Executable form of [`is_ws`].
pub fn char_is_whitespace(c: char) -> (r: bool)
    ensures
        r == is_ws(c),
{
    ('\u{9}' <= c && c <= '\u{d}') || c == ' ' || c == '\u{85}' || c == '\u{a0}' || c == '\u{1680}'
        || ('\u{2000}' <= c && c <= '\u{200a}') || c == '\u{2028}' || c == '\u{2029}' || c
        == '\u{202f}' || c == '\u{205f}' || c == '\u{3000}'
}

/// ASCII lower-casing of one character, as `char::to_ascii_lowercase`.
pub open spec fn ascii_lower(c: char) -> char {
    if 'A' <= c && c <= 'Z' {
        ((c as u32) + 32) as char
    } else {
        c
    }
}

pub fn char_to_ascii_lowercase(c: char) -> (r: char)
    ensures
        r == ascii_lower(c),
{
    if 'A' <= c && c <= 'Z' {
        let b = c as u8;
        (b + 32) as char
    } else {
        c
    }
}

/// `str::to_ascii_lowercase`.
pub open spec fn ascii_lower_seq(s: Seq<char>) -> Seq<char> {
    s.map_values(|c: char| ascii_lower(c))
}

/// `str::eq_ignore_ascii_case`.
pub open spec fn eq_ignore_ascii_case(a: Seq<char>, b: Seq<char>) -> bool {
    ascii_lower_seq(a) == ascii_lower_seq(b)
}

/// Leading whitespace removed, as `str::trim_start`.
pub open spec fn trim_start(s: Seq<char>) -> Seq<char>
    decreases s.len(),
{
    if s.len() > 0 && is_ws(s[0]) {
        trim_start(s.drop_first())
    } else {
        s
    }
}

/// Trailing whitespace removed, as `str::trim_end`.
pub open spec fn trim_end(s: Seq<char>) -> Seq<char>
    decreases s.len(),
{
    if s.len() > 0 && is_ws(s.last()) {
        trim_end(s.drop_last())
    } else {
        s
    }
}

/// Whitespace removed at both ends, as `str::trim`.
pub open spec fn trim(s: Seq<char>) -> Seq<char> {
    trim_end(trim_start(s))
}

/// `a` begins with `p`.
pub open spec fn has_prefix(a: Seq<char>, p: Seq<char>) -> bool {
    p.len() <= a.len() && a.subrange(0, p.len() as int) == p
}

/// `a` ends with `p`.
pub open spec fn has_suffix(a: Seq<char>, p: Seq<char>) -> bool {
    p.len() <= a.len() && a.subrange(a.len() - p.len(), a.len() as int) == p
}

/// `needle` occurs in `hay` at position `i`.
pub open spec fn occurs_at(hay: Seq<char>, needle: Seq<char>, i: int) -> bool {
    0 <= i && i + needle.len() <= hay.len() && hay.subrange(i, i + needle.len()) == needle
}

/// `needle` occurs somewhere in `hay`, as `str::contains`.
pub open spec fn contains(hay: Seq<char>, needle: Seq<char>) -> bool {
    exists|i: int| occurs_at(hay, needle, i)
}

/// The view of an optional string.
pub open spec fn opt_string_view(o: Option<String>) -> Option<Seq<char>> {
    match o {
        Some(s) => Some(s@),
        None => None,
    }
}

/// The view of a `&str` as a vector of its characters.
pub fn chars_of(s: &str) -> (v: Vec<char>)
    ensures
        v@ == s@,
{
    let mut v: Vec<char> = Vec::new();
    for c in it: s.chars()
        invariant
            v@ == it.seq().take(it.index() as int),
            it.seq() == s@,
    {
        v.push(c);
    }
    v
}

/// Appends one character, as `String::push`.
#[verifier::external_body]
pub(crate) fn push_char(s: &mut String, c: char)
    ensures
        final(s)@ == old(s)@.push(c),
{
    s.push(c);
}

/// The `String` holding exactly the given characters.
pub fn string_from_chars(v: &[char]) -> (s: String)
    ensures
        s@ == v@,
{
    let mut s = String::new();
    let mut i: usize = 0;
    while i < v.len()
        invariant
            i <= v.len(),
            s@ == v@.subrange(0, i as int),
        decreases v.len() - i,
    {
        push_char(&mut s, v[i]);
        i += 1;
        assert(s@ == v@.subrange(0, i as int));
    }
    s
}

} // verus!

verus! {

/// First position `k` with `start <= k <= last` and `k < s.len()` holding `c`.
pub open spec fn find_within(s: Seq<char>, c: char, start: int, last: int) -> Option<int>
    decreases s.len() - start,
{
    if start < 0 || start >= s.len() || start > last {
        None
    } else if s[start] == c {
        Some(start)
    } else {
        find_within(s, c, start + 1, last)
    }
}

pub proof fn lemma_find_within(s: Seq<char>, c: char, start: int, last: int)
    requires
        0 <= start,
    ensures
        match find_within(s, c, start, last) {
            Some(k) => start <= k <= last && k < s.len() && s[k] == c && forall|m: int|
                start <= m < k ==> s[m] != c,
            None => forall|m: int| start <= m <= last && m < s.len() ==> s[m] != c,
        },
    decreases s.len() - start,
{
    if start >= s.len() || start > last {
    } else if s[start] == c {
    } else {
        lemma_find_within(s, c, start + 1, last);
    }
}

/// Executable search for `c` in `v[start..=last]`.
pub fn find_char_within(v: &[char], c: char, start: usize, last: usize) -> (r: Option<usize>)
    ensures
        match r {
            Some(k) => find_within(v@, c, start as int, last as int) == Some(k as int),
            None => find_within(v@, c, start as int, last as int) is None,
        },
{
    let mut j = start;
    while j < v.len() && j <= last && v[j] != c
        invariant
            start <= j,
            find_within(v@, c, start as int, last as int) == find_within(v@, c, j as int, last as int),
        decreases v.len() - j,
    {
        j += 1;
    }
    if j < v.len() && j <= last {
        Some(j)
    } else {
        None
    }
}

/// Copy of `v[a..b]`.
pub fn copy_range(v: &[char], a: usize, b: usize) -> (r: Vec<char>)
    requires
        a <= b <= v@.len(),
    ensures
        r@ == v@.subrange(a as int, b as int),
{
    let mut r: Vec<char> = Vec::new();
    let mut i = a;
    while i < b
        invariant
            a <= i <= b <= v@.len(),
            r@ == v@.subrange(a as int, i as int),
        decreases b - i,
    {
        r.push(v[i]);
        i += 1;
        assert(r@ == v@.subrange(a as int, i as int));
    }
    r
}

/// Bounds `(a, b)` such that `v[a..b]` is `v` trimmed of whitespace.
pub fn trim_bounds(v: &[char]) -> (r: (usize, usize))
    ensures
        r.0 <= r.1 <= v@.len(),
        v@.subrange(r.0 as int, r.1 as int) == trim(v@),
{
    let n = v.len();
    let mut a: usize = 0;
    assert(v@.subrange(0, n as int) == v@);
    while a < n && char_is_whitespace(v[a])
        invariant
            a <= n == v@.len(),
            trim_start(v@) == trim_start(v@.subrange(a as int, n as int)),
        decreases n - a,
    {
        assert(v@.subrange(a as int, n as int).drop_first() == v@.subrange(a + 1, n as int));
        a += 1;
    }
    let mut b: usize = n;
    while b > a && char_is_whitespace(v[b - 1])
        invariant
            a <= b <= n == v@.len(),
            trim_end(v@.subrange(a as int, n as int)) == trim_end(v@.subrange(a as int, b as int)),
        decreases b,
    {
        assert(v@.subrange(a as int, b as int).drop_last() == v@.subrange(a as int, b - 1));
        b -= 1;
    }
    (a, b)
}

/// `v` trimmed of whitespace at both ends.
pub fn trim_chars(v: &[char]) -> (r: Vec<char>)
    ensures
        r@ == trim(v@),
{
    let (a, b) = trim_bounds(v);
    copy_range(v, a, b)
}

/// `s.trim()` as an owned string.
pub fn trim_str(s: &str) -> (r: String)
    ensures
        r@ == trim(s@),
{
    let v = chars_of(s);
    let t = trim_chars(v.as_slice());
    string_from_chars(t.as_slice())
}

/// `s.trim().is_empty()`.
pub fn is_blank(s: &str) -> (r: bool)
    ensures
        r == (trim(s@).len() == 0),
{
    let v = chars_of(s);
    let (a, b) = trim_bounds(v.as_slice());
    a == b
}

/// Equality of two character sequences.
pub fn chars_eq(a: &[char], b: &[char]) -> (r: bool)
    ensures
        r == (a@ == b@),
{
    if a.len() != b.len() {
        return false;
    }
    let mut i: usize = 0;
    while i < a.len()
        invariant
            a@.len() == b@.len(),
            i <= a@.len(),
            forall|k: int| 0 <= k < i ==> a@[k] == b@[k],
        decreases a.len() - i,
    {
        if a[i] != b[i] {
            return false;
        }
        i += 1;
    }
    assert(a@ == b@);
    true
}

/// `v` equals the characters of `s`.
pub fn chars_eq_str(v: &[char], s: &str) -> (r: bool)
    ensures
        r == (v@ == s@),
{
    let w = chars_of(s);
    chars_eq(v, w.as_slice())
}

/// `v[start..]` begins with `p`.
pub fn has_prefix_at(v: &[char], start: usize, p: &[char]) -> (r: bool)
    requires
        start <= v@.len(),
    ensures
        r == has_prefix(v@.subrange(start as int, v@.len() as int), p@),
{
    if p.len() > v.len() - start {
        return false;
    }
    let mut i: usize = 0;
    while i < p.len()
        invariant
            start + p@.len() <= v.len(),
            i <= p@.len(),
            forall|k: int| 0 <= k < i ==> v@[start + k] == p@[k],
        decreases p.len() - i,
    {
        if v[start + i] != p[i] {
            assert(v@.subrange(start as int, v@.len() as int).subrange(0, p@.len() as int)[i as int] != p@[i as int]);
            return false;
        }
        i += 1;
    }
    assert(v@.subrange(start as int, v@.len() as int).subrange(0, p@.len() as int) == p@);
    true
}

/// `a` begins with `p`.
pub fn str_starts_with(a: &str, p: &str) -> (r: bool)
    ensures
        r == has_prefix(a@, p@),
{
    let v = chars_of(a);
    let w = chars_of(p);
    assert(v@.subrange(0, v@.len() as int) == v@);
    has_prefix_at(v.as_slice(), 0, w.as_slice())
}

/// `a` ends with `p`.
pub fn str_ends_with(a: &str, p: &str) -> (r: bool)
    ensures
        r == has_suffix(a@, p@),
{
    let v = chars_of(a);
    let w = chars_of(p);
    if w.len() > v.len() {
        return false;
    }
    let start = v.len() - w.len();
    let r = has_prefix_at(v.as_slice(), start, w.as_slice());
    assert(v@.subrange(start as int, v@.len() as int).subrange(0, w@.len() as int) == v@.subrange(
        start as int,
        v@.len() as int,
    ));
    r
}

/// The first position at or after `from` where `needle` occurs in `hay`,
/// as `str::find` on `hay[from..]` (shifted by `from`).
pub open spec fn find_from(hay: Seq<char>, needle: Seq<char>, from: int) -> Option<int>
    decreases hay.len() + 1 - from,
{
    if from < 0 || from + needle.len() > hay.len() {
        None
    } else if occurs_at(hay, needle, from) {
        Some(from)
    } else {
        find_from(hay, needle, from + 1)
    }
}

/// A first occurrence found by scanning is the one `find_from` names.
pub proof fn lemma_find_from_first(hay: Seq<char>, needle: Seq<char>, from: int, i: int)
    requires
        0 <= from <= i,
        occurs_at(hay, needle, i),
        forall|k: int| from <= k < i ==> !occurs_at(hay, needle, k),
    ensures
        find_from(hay, needle, from) == Some(i),
    decreases i - from,
{
    if from < i {
        lemma_find_from_first(hay, needle, from + 1, i);
    }
}

/// Where `needle` never occurs from `from` on, `find_from` finds nothing.
pub proof fn lemma_find_from_none(hay: Seq<char>, needle: Seq<char>, from: int)
    requires
        0 <= from,
        forall|k: int| from <= k ==> !occurs_at(hay, needle, k),
    ensures
        find_from(hay, needle, from) is None,
    decreases hay.len() + 1 - from,
{
    if from + needle.len() <= hay.len() {
        lemma_find_from_none(hay, needle, from + 1);
    }
}

/// What `find_from` finds occurs there, and nowhere earlier.
pub proof fn lemma_find_from_found(hay: Seq<char>, needle: Seq<char>, from: int)
    requires
        0 <= from,
    ensures
        match find_from(hay, needle, from) {
            Some(i) => from <= i && occurs_at(hay, needle, i) && forall|k: int|
                from <= k < i ==> !occurs_at(hay, needle, k),
            None => forall|k: int| from <= k ==> !occurs_at(hay, needle, k),
        },
    decreases hay.len() + 1 - from,
{
    if from + needle.len() <= hay.len() && !occurs_at(hay, needle, from) {
        lemma_find_from_found(hay, needle, from + 1);
    }
}

/// `needle` occurs in `hay` at or after position `from`.
pub fn find_substr(hay: &[char], needle: &[char], from: usize) -> (r: Option<usize>)
    requires
        from <= hay@.len(),
    ensures
        match r {
            Some(i) => from <= i && occurs_at(hay@, needle@, i as int) && forall|k: int|
                from <= k < i ==> !occurs_at(hay@, needle@, k),
            None => forall|k: int| from <= k ==> !occurs_at(hay@, needle@, k),
        },
        match r {
            Some(i) => find_from(hay@, needle@, from as int) == Some(i as int),
            None => find_from(hay@, needle@, from as int) is None,
        },
{
    let r = find_substr_scan(hay, needle, from);
    proof {
        match r {
            Some(i) => lemma_find_from_first(hay@, needle@, from as int, i as int),
            None => lemma_find_from_none(hay@, needle@, from as int),
        }
    }
    r
}

fn find_substr_scan(hay: &[char], needle: &[char], from: usize) -> (r: Option<usize>)
    requires
        from <= hay@.len(),
    ensures
        match r {
            Some(i) => from <= i && occurs_at(hay@, needle@, i as int) && forall|k: int|
                from <= k < i ==> !occurs_at(hay@, needle@, k),
            None => forall|k: int| from <= k ==> !occurs_at(hay@, needle@, k),
        },
{
    if needle.len() > hay.len() {
        return None;
    }
    let last = hay.len() - needle.len();
    let mut i = from;
    while i <= last
        invariant
            from <= i,
            last == hay@.len() - needle@.len(),
            forall|k: int| from <= k < i ==> !occurs_at(hay@, needle@, k),
        decreases last + 1 - i,
    {
        let hit = has_prefix_at(hay, i, needle);
        if hit {
            assert(hay@.subrange(i as int, hay@.len() as int).subrange(0, needle@.len() as int)
                == hay@.subrange(i as int, i + needle@.len()));
            return Some(i);
        }
        assert(hay@.subrange(i as int, hay@.len() as int).subrange(0, needle@.len() as int)
            == hay@.subrange(i as int, i + needle@.len()));
        if i == last {
            return None;
        }
        i += 1;
    }
    None
}

/// Whether two texts are equal.
pub fn str_eq(a: &str, b: &str) -> (r: bool)
    ensures
        r == (a@ == b@),
{
    let x = chars_of(a);
    let y = chars_of(b);
    chars_eq(x.as_slice(), y.as_slice())
}

/// `needle` occurs in `hay`, as `str::contains`.
pub fn str_contains(hay: &str, needle: &str) -> (r: bool)
    ensures
        r == contains(hay@, needle@),
{
    let h = chars_of(hay);
    let n = chars_of(needle);
    match find_substr(h.as_slice(), n.as_slice(), 0) {
        Some(i) => true,
        None => false,
    }
}

/// `s.to_ascii_lowercase()`.
pub fn ascii_lowercase_chars(v: &[char]) -> (r: Vec<char>)
    ensures
        r@ == ascii_lower_seq(v@),
{
    let mut r: Vec<char> = Vec::new();
    let mut i: usize = 0;
    while i < v.len()
        invariant
            i <= v@.len(),
            r@ == ascii_lower_seq(v@.subrange(0, i as int)),
        decreases v.len() - i,
    {
        r.push(char_to_ascii_lowercase(v[i]));
        i += 1;
        assert(ascii_lower_seq(v@.subrange(0, i as int)) == ascii_lower_seq(v@.subrange(0, i - 1)).push(
            ascii_lower(v@[i - 1]),
        ));
    }
    assert(v@.subrange(0, v@.len() as int) == v@);
    r
}

/// `s.to_ascii_lowercase()`.
pub fn str_to_ascii_lowercase(s: &str) -> (r: String)
    ensures
        r@ == ascii_lower_seq(s@),
{
    let v = chars_of(s);
    let l = ascii_lowercase_chars(v.as_slice());
    string_from_chars(l.as_slice())
}

/// `a.eq_ignore_ascii_case(b)`.
pub fn str_eq_ignore_ascii_case(a: &str, b: &str) -> (r: bool)
    ensures
        r == eq_ignore_ascii_case(a@, b@),
{
    let x = ascii_lowercase_chars(chars_of(a).as_slice());
    let y = ascii_lowercase_chars(chars_of(b).as_slice());
    chars_eq(x.as_slice(), y.as_slice())
}

} // verus!

verus! {

/// Value of one digit in the given radix, as `char::to_digit`.
pub open spec fn digit_value(c: char, radix: nat) -> Option<nat> {
    let v: int = if '0' <= c && c <= '9' {
        (c as int) - ('0' as int)
    } else if 'a' <= c && c <= 'z' {
        (c as int) - ('a' as int) + 10
    } else if 'A' <= c && c <= 'Z' {
        (c as int) - ('A' as int) + 10
    } else {
        radix as int
    };
    if v < radix {
        Some(v as nat)
    } else {
        None
    }
}

/// Value of a non-signed string of digits; `None` when a character is no digit.
pub open spec fn digits_value(d: Seq<char>, radix: nat) -> Option<nat>
    decreases d.len(),
{
    if d.len() == 0 {
        Some(0)
    } else {
        match (digits_value(d.drop_last(), radix), digit_value(d.last(), radix)) {
            (Some(a), Some(b)) => Some(a * radix + b),
            _ => None,
        }
    }
}

/// What an unsigned `from_str_radix` reads before the range check: an
/// optional `+` and at least one digit.
pub open spec fn parse_unsigned(s: Seq<char>, radix: nat) -> Option<nat> {
    let d = if s.len() > 0 && s[0] == '+' {
        s.drop_first()
    } else {
        s
    };
    if d.len() == 0 {
        None
    } else {
        digits_value(d, radix)
    }
}

/// `from_str_radix` of an unsigned type whose largest value is `max`.
pub open spec fn parse_uint(s: Seq<char>, radix: nat, max: nat) -> Option<nat> {
    match parse_unsigned(s, radix) {
        Some(v) => if v <= max {
            Some(v)
        } else {
            None
        },
        None => None,
    }
}

/// `str::parse::<i32>`: an optional sign and at least one decimal digit.
pub open spec fn parse_i32_spec(s: Seq<char>) -> Option<int> {
    if s.len() > 0 && s[0] == '-' {
        if s.len() == 1 {
            None
        } else {
            match digits_value(s.drop_first(), 10) {
                Some(v) => if v <= 0x8000_0000 {
                    Some(-(v as int))
                } else {
                    None
                },
                None => None,
            }
        }
    } else {
        match parse_uint(s, 10, 0x7fff_ffff) {
            Some(v) => Some(v as int),
            None => None,
        }
    }
}

proof fn lemma_digits_prefix_le(d: Seq<char>, radix: nat, k: int)
    requires
        0 <= k <= d.len(),
        radix > 0,
        digits_value(d, radix) is Some,
    ensures
        digits_value(d.take(k), radix) is Some,
        digits_value(d.take(k), radix)->0 <= digits_value(d, radix)->0,
    decreases d.len(),
{
    if k == d.len() {
        assert(d.take(k) == d);
    } else {
        let p = d.drop_last();
        assert(p.take(k) == d.take(k));
        lemma_digits_prefix_le(p, radix, k);
        let a = digits_value(p, radix)->0;
        let b = digit_value(d.last(), radix);
        assert(a <= a * radix) by (nonlinear_arith)
            requires
                radix > 0,
        ;
    }
}

fn exec_digit_value(c: char, radix: u32) -> (r: Option<u32>)
    requires
        2 <= radix <= 36,
    ensures
        match digit_value(c, radix as nat) {
            Some(v) => r == Some(v as u32),
            None => r is None,
        },
{
    let v: u32 = if '0' <= c && c <= '9' {
        (c as u32) - ('0' as u32)
    } else if 'a' <= c && c <= 'z' {
        (c as u32) - ('a' as u32) + 10
    } else if 'A' <= c && c <= 'Z' {
        (c as u32) - ('A' as u32) + 10
    } else {
        radix
    };
    if v < radix {
        Some(v)
    } else {
        None
    }
}

/// `from_str_radix` of an unsigned type whose largest value is `max`.
pub fn parse_uint_chars(s: &[char], radix: u32, max: u64) -> (r: Option<u64>)
    requires
        2 <= radix <= 36,
    ensures
        match parse_uint(s@, radix as nat, max as nat) {
            Some(v) => r == Some(v as u64),
            None => r is None,
        },
{
    let start: usize = if s.len() > 0 && s[0] == '+' {
        1
    } else {
        0
    };
    let ghost d = if s@.len() > 0 && s@[0] == '+' {
        s@.drop_first()
    } else {
        s@
    };
    assert(d == s@.subrange(start as int, s@.len() as int));
    if start == s.len() {
        return None;
    }
    assert(parse_unsigned(s@, radix as nat) == digits_value(d, radix as nat));
    let mut acc: u64 = 0;
    let mut i = start;
    while i < s.len()
        invariant
            start <= i <= s@.len(),
            d == s@.subrange(start as int, s@.len() as int),
            parse_unsigned(s@, radix as nat) == digits_value(d, radix as nat),
            digits_value(d.take(i - start), radix as nat) == Some(acc as nat),
            acc <= max,
            2 <= radix <= 36,
        decreases s.len() - i,
    {
        let ghost k = i - start;
        assert(d.take(k + 1).drop_last() == d.take(k));
        assert(d.take(k + 1).last() == s@[i as int]);
        let dv = exec_digit_value(s[i], radix);
        match dv {
            None => {
                assert(digits_value(d.take(k + 1), radix as nat) is None);
                proof {
                    if digits_value(d, radix as nat) is Some {
                        lemma_digits_prefix_le(d, radix as nat, k + 1);
                    }
                }
                return None;
            },
            Some(x) => {
                assert(digits_value(d.take(k + 1), radix as nat) == Some((acc * radix + x) as nat));
                let m = acc.checked_mul(radix as u64);
                let n = match m {
                    Some(m) => m.checked_add(x as u64),
                    None => None,
                };
                match n {
                    Some(n) => {
                        if n > max {
                            proof {
                                if digits_value(d, radix as nat) is Some {
                                    lemma_digits_prefix_le(d, radix as nat, k + 1);
                                }
                            }
                            return None;
                        }
                        acc = n;
                    },
                    None => {
                        proof {
                            if digits_value(d, radix as nat) is Some {
                                lemma_digits_prefix_le(d, radix as nat, k + 1);
                            }
                        }
                        return None;
                    },
                }
            },
        }
        i += 1;
    }
    assert(d.take(s@.len() - start) == d);
    Some(acc)
}

/// `s.parse::<u32>()`.
pub fn parse_u32(s: &str) -> (r: Option<u32>)
    ensures
        match parse_uint(s@, 10, u32::MAX as nat) {
            Some(v) => r == Some(v as u32),
            None => r is None,
        },
{
    let v = chars_of(s);
    match parse_uint_chars(v.as_slice(), 10, u32::MAX as u64) {
        Some(x) => Some(x as u32),
        None => None,
    }
}

/// `s.parse::<u64>()`.
pub fn parse_u64(s: &str) -> (r: Option<u64>)
    ensures
        match parse_uint(s@, 10, u64::MAX as nat) {
            Some(v) => r == Some(v as u64),
            None => r is None,
        },
{
    let v = chars_of(s);
    parse_uint_chars(v.as_slice(), 10, u64::MAX)
}

/// `s.parse::<i32>()`.
pub fn parse_i32(s: &[char]) -> (r: Option<i32>)
    ensures
        match parse_i32_spec(s@) {
            Some(v) => r == Some(v as i32),
            None => r is None,
        },
{
    if s.len() > 0 && s[0] == '-' {
        if s.len() == 1 {
            return None;
        }
        let rest = copy_range(s, 1, s.len());
        assert(rest@ == s@.drop_first());
        if rest[0] == '+' {
            proof {
                lemma_digits_first_invalid(rest@, 10);
            }
            return None;
        }
        assert(parse_unsigned(rest@, 10) == digits_value(s@.drop_first(), 10));
        match parse_uint_chars(rest.as_slice(), 10, 0x8000_0000) {
            Some(v) => {
                if v == 0x8000_0000 {
                    Some(i32::MIN)
                } else {
                    Some(-(v as i32))
                }
            },
            None => None,
        }
    } else {
        match parse_uint_chars(s, 10, 0x7fff_ffff) {
            Some(v) => Some(v as i32),
            None => None,
        }
    }
}

proof fn lemma_digits_first_invalid(d: Seq<char>, radix: nat)
    requires
        d.len() > 0,
        digit_value(d[0], radix) is None,
    ensures
        digits_value(d, radix) is None,
    decreases d.len(),
{
    if d.len() > 1 {
        assert(d.drop_last()[0] == d[0]);
        lemma_digits_first_invalid(d.drop_last(), radix);
    } else {
        assert(d.drop_last().len() == 0);
    }
}


/// The decimal digit `d` (`d < 10`).
pub open spec fn digit_char(d: nat) -> char {
    if d == 0 {
        '0'
    } else if d == 1 {
        '1'
    } else if d == 2 {
        '2'
    } else if d == 3 {
        '3'
    } else if d == 4 {
        '4'
    } else if d == 5 {
        '5'
    } else if d == 6 {
        '6'
    } else if d == 7 {
        '7'
    } else if d == 8 {
        '8'
    } else {
        '9'
    }
}

/// The decimal notation of `n`, as `Display` writes it.
pub open spec fn decimal(n: nat) -> Seq<char>
    decreases n,
{
    if n < 10 {
        seq![digit_char(n)]
    } else {
        decimal(n / 10).push(digit_char(n % 10))
    }
}

/// The decimal notation of a signed integer, `-` before a negative one.
pub open spec fn signed_decimal(n: int) -> Seq<char> {
    if n < 0 {
        seq!['-'] + decimal((-n) as nat)
    } else {
        decimal(n as nat)
    }
}

fn digit_to_char(d: u64) -> (c: char)
    requires
        d < 10,
    ensures
        c == digit_char(d as nat),
{
    if d == 0 {
        '0'
    } else if d == 1 {
        '1'
    } else if d == 2 {
        '2'
    } else if d == 3 {
        '3'
    } else if d == 4 {
        '4'
    } else if d == 5 {
        '5'
    } else if d == 6 {
        '6'
    } else if d == 7 {
        '7'
    } else if d == 8 {
        '8'
    } else {
        '9'
    }
}

/// `n.to_string()` for an unsigned integer.
pub fn format_u64(n: u64) -> (r: String)
    ensures
        r@ == decimal(n as nat),
    decreases n,
{
    if n < 10 {
        let mut s = String::new();
        push_char(&mut s, digit_to_char(n));
        s
    } else {
        let mut s = format_u64(n / 10);
        push_char(&mut s, digit_to_char(n % 10));
        s
    }
}

/// `n.to_string()` for a signed integer.
pub fn format_i64(n: i64) -> (r: String)
    ensures
        r@ == signed_decimal(n as int),
{
    if n < 0 {
        let m: u64 = (0i128 - n as i128) as u64;
        let digits = format_u64(m);
        let mut s = String::new();
        push_char(&mut s, '-');
        s.append(digits.as_str());
        s
    } else {
        format_u64(n as u64)
    }
}


/// `s` from position `i` on with each occurrence of `pat`, found left to
/// right without overlap, replaced by `rep`, as `str::replace` does for a
/// non-empty pattern.
pub open spec fn replace_from(s: Seq<char>, pat: Seq<char>, rep: Seq<char>, i: int) -> Seq<char>
    decreases s.len() + 1 - i,
{
    if pat.len() == 0 || i < 0 || i > s.len() {
        s.subrange(i, s.len() as int)
    } else {
        match find_from(s, pat, i) {
            Some(j) => {
                proof {
                    lemma_find_from_found(s, pat, i);
                }
                s.subrange(i, j) + rep + replace_from(s, pat, rep, j + pat.len())
            },
            None => s.subrange(i, s.len() as int),
        }
    }
}

/// `s.replace(pat, rep)` for a non-empty pattern.
pub fn replace_all(s: &[char], pat: &[char], rep: &[char]) -> (r: Vec<char>)
    requires
        pat@.len() > 0,
    ensures
        r@ == replace_from(s@, pat@, rep@, 0),
{
    let mut out: Vec<char> = Vec::new();
    let mut i: usize = 0;
    loop
        invariant
            i <= s@.len(),
            pat@.len() > 0,
            out@ + replace_from(s@, pat@, rep@, i as int) == replace_from(s@, pat@, rep@, 0),
        decreases s@.len() + 1 - i,
    {
        let ghost before = out@;
        match find_substr(s, pat, i) {
            Some(j) => {
                let slen = s.len();
                assert(j + pat@.len() <= slen);
                let piece = copy_range(s, i, j);
                let mut k: usize = 0;
                while k < piece.len()
                    invariant
                        k <= piece@.len(),
                        out@ == before + piece@.subrange(0, k as int),
                    decreases piece@.len() - k,
                {
                    out.push(piece[k]);
                    k += 1;
                    assert(out@ =~= before + piece@.subrange(0, k as int));
                }
                let mut m: usize = 0;
                while m < rep.len()
                    invariant
                        m <= rep@.len(),
                        out@ == before + piece@ + rep@.subrange(0, m as int),
                    decreases rep@.len() - m,
                {
                    out.push(rep[m]);
                    m += 1;
                    assert(out@ =~= before + piece@ + rep@.subrange(0, m as int));
                }
                assert(piece@.subrange(0, piece@.len() as int) =~= piece@);
                assert(rep@.subrange(0, rep@.len() as int) =~= rep@);
                let ghost old_i = i;
                i = j + pat.len();
                assert(replace_from(s@, pat@, rep@, old_i as int) == piece@ + rep@ + replace_from(
                    s@,
                    pat@,
                    rep@,
                    i as int,
                ));
                assert(out@ + replace_from(s@, pat@, rep@, i as int) =~= before + replace_from(
                    s@,
                    pat@,
                    rep@,
                    old_i as int,
                ));
            },
            None => {
                let rest = copy_range(s, i, s.len());
                let mut k: usize = 0;
                while k < rest.len()
                    invariant
                        k <= rest@.len(),
                        out@ == before + rest@.subrange(0, k as int),
                    decreases rest@.len() - k,
                {
                    out.push(rest[k]);
                    k += 1;
                    assert(out@ =~= before + rest@.subrange(0, k as int));
                }
                assert(rest@.subrange(0, rest@.len() as int) =~= rest@);
                assert(replace_from(s@, pat@, rep@, i as int) == rest@);
                return out;
            },
        }
    }
}


/// When `s` ends with `pat` and no occurrence of `pat` from `i` on overlaps
/// that last one, replacing from `i` leaves a text that ends with `rep`.
pub proof fn lemma_replace_keeps_last(s: Seq<char>, pat: Seq<char>, rep: Seq<char>, i: int)
    requires
        pat.len() > 0,
        has_suffix(s, pat),
        0 <= i <= s.len() - pat.len(),
        forall|j: int|
            i <= j < s.len() - pat.len() && #[trigger] occurs_at(s, pat, j) ==> j + pat.len()
                <= s.len() - pat.len(),
    ensures
        has_suffix(replace_from(s, pat, rep, i), rep),
    decreases s.len() - i,
{
    let k = s.len() - pat.len();
    assert(occurs_at(s, pat, k));
    lemma_find_from_found(s, pat, i);
    let j = find_from(s, pat, i)->0;
    let r = replace_from(s, pat, rep, i);
    if j == k {
        assert(find_from(s, pat, s.len() as int) is None);
        assert(replace_from(s, pat, rep, j + pat.len()) =~= seq![]);
        assert(r == s.subrange(i, j) + rep + seq![]);
        assert(r.subrange(r.len() - rep.len(), r.len() as int) =~= rep);
    } else {
        lemma_replace_keeps_last(s, pat, rep, j + pat.len());
        let t = replace_from(s, pat, rep, j + pat.len());
        let h = s.subrange(i, j) + rep;
        assert(r == h + t);
        assert(r.subrange(r.len() - rep.len(), r.len() as int) =~= t.subrange(
            t.len() - rep.len(),
            t.len() as int,
        ));
    }
}

} // verus!
