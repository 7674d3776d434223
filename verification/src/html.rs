//! Plain text out of an HTML mail body: tags dropped (line breaks kept),
//! character references decoded, and whitespace squeezed.
use vstd::prelude::*;
use crate::text::{
    ascii_lower_seq, ascii_lowercase_chars, char_is_whitespace, chars_eq_str, chars_of, copy_range,
    find_char_within, find_within, has_prefix, has_prefix_at, has_suffix, is_ws, lemma_find_within,
    parse_uint, parse_uint_chars, string_from_chars, trim, trim_chars, trim_start, trim_end, contains,
    occurs_at,
};

verus! {

/// Unicode scalar values, the values `char::from_u32` accepts.
pub open spec fn is_scalar(v: nat) -> bool {
    v < 0xD800 || (0xE000 <= v && v <= 0x10FFFF)
}

/// `char::from_u32`.
#[verifier::external_body]
fn char_from_u32(v: u32) -> (r: Option<char>)
    ensures
        r == (if is_scalar(v as nat) {
            Some(v as char)
        } else {
            None
        }),
{
    char::from_u32(v)
}

/// The character that a numeric reference with these digits names.
pub open spec fn numeric_char(digits: Seq<char>, radix: nat) -> Option<char> {
    match parse_uint(digits, radix, u32::MAX as nat) {
        Some(v) => if is_scalar(v) {
            Some(v as char)
        } else {
            None
        },
        None => None,
    }
}

/// The character an HTML character reference such as `&amp;` or `&#x41;`
/// stands for, or `None` for a reference this decoder does not know.
pub open spec fn decode_entity(e: Seq<char>) -> Option<char> {
    if e == seq!['&', 'a', 'm', 'p', ';'] {
        Some('&')
    } else if e == seq!['&', 'l', 't', ';'] {
        Some('<')
    } else if e == seq!['&', 'g', 't', ';'] {
        Some('>')
    } else if e == seq!['&', 'q', 'u', 'o', 't', ';'] {
        Some('"')
    } else if e == seq!['&', 'a', 'p', 'o', 's', ';'] || e == seq!['&', '#', '3', '9', ';'] {
        Some('\'')
    } else if e == seq!['&', 'n', 'b', 's', 'p', ';'] {
        Some(' ')
    } else if has_prefix(e, seq!['&', '#', 'x']) && has_suffix(e, seq![';']) {
        numeric_char(e.subrange(3, e.len() - 1), 16)
    } else if has_prefix(e, seq!['&', '#']) && has_suffix(e, seq![';']) {
        numeric_char(e.subrange(2, e.len() - 1), 10)
    } else {
        None
    }
}

/// A tag whose (trimmed, lower-cased) text begins with `br`, `/p`, `/div`,
/// `/li`, `/tr` or `/h` ends a line of text.
pub open spec fn tag_breaks(raw: Seq<char>) -> bool {
    let t = ascii_lower_seq(trim(raw));
    ||| has_prefix(t, seq!['b', 'r'])
    ||| has_prefix(t, seq!['/', 'p'])
    ||| has_prefix(t, seq!['/', 'd', 'i', 'v'])
    ||| has_prefix(t, seq!['/', 'l', 'i'])
    ||| has_prefix(t, seq!['/', 't', 'r'])
    ||| has_prefix(t, seq!['/', 'h'])
}

/// Position of the `;` closing a character reference that starts at `i`: the
/// first `;` among the next thirteen characters.
pub open spec fn entity_end(s: Seq<char>, i: int) -> Option<int> {
    find_within(s, ';', i + 1, i + 13)
}

/// The character of the reference starting at `i`, if it decodes.
pub open spec fn entity_char(s: Seq<char>, i: int) -> Option<char> {
    match entity_end(s, i) {
        Some(k) => decode_entity(s.subrange(i, k + 1)),
        None => None,
    }
}

/// Text of `s[i..]`: a tag is dropped (a line-ending tag leaves `\n`), an
/// unclosed tag ends the text, a known character reference is decoded, and
/// any other character is kept.
pub open spec fn html_scan(s: Seq<char>, i: int) -> Seq<char>
    decreases s.len() - i,
{
    if i < 0 || i >= s.len() {
        seq![]
    } else if s[i] == '<' {
        match find_within(s, '>', i + 1, s.len() as int) {
            None => seq![],
            Some(k) => {
                proof {
                    lemma_find_within(s, '>', i + 1, s.len() as int);
                }
                (if tag_breaks(s.subrange(i + 1, k)) {
                    seq!['\n']
                } else {
                    seq![]
                }) + html_scan(s, k + 1)
            },
        }
    } else if s[i] == '&' && entity_char(s, i) is Some {
        proof {
            lemma_find_within(s, ';', i + 1, i + 13);
        }
        seq![entity_char(s, i)->0] + html_scan(s, entity_end(s, i)->0 + 1)
    } else {
        seq![s[i]] + html_scan(s, i + 1)
    }
}

/// Whitespace squeezed from position `i` on: a run of newlines becomes one
/// `\n`, other whitespace becomes one space unless it follows a space or a
/// newline.  `ps` and `pn` tell whether a space or a newline came last.
pub open spec fn squeeze(s: Seq<char>, i: int, ps: bool, pn: bool) -> Seq<char>
    decreases s.len() - i,
{
    if i < 0 || i >= s.len() {
        seq![]
    } else if s[i] == '\n' {
        (if pn {
            seq![]
        } else {
            seq!['\n']
        }) + squeeze(s, i + 1, false, true)
    } else if is_ws(s[i]) {
        if !ps && !pn {
            seq![' '] + squeeze(s, i + 1, true, pn)
        } else {
            squeeze(s, i + 1, ps, pn)
        }
    } else {
        seq![s[i]] + squeeze(s, i + 1, false, false)
    }
}

/// Whitespace squeezed and trimmed.
pub open spec fn normalized_ws(s: Seq<char>) -> Seq<char> {
    trim(squeeze(s, 0, false, false))
}

/// The plain text of an HTML fragment.
pub open spec fn html_text(s: Seq<char>) -> Seq<char> {
    normalized_ws(html_scan(s, 0))
}

/// `v` begins with the characters of `lit`.
fn starts_with_lit(v: &[char], lit: &str) -> (r: bool)
    ensures
        r == has_prefix(v@, lit@),
{
    let w = chars_of(lit);
    assert(v@.subrange(0, v@.len() as int) == v@);
    has_prefix_at(v, 0, w.as_slice())
}

/// Whether the tag text `raw` ends a line.
fn tag_breaks_exec(raw: &[char]) -> (r: bool)
    ensures
        r == tag_breaks(raw@),
{
    let t = ascii_lowercase_chars(trim_chars(raw).as_slice());
    proof {
        reveal_strlit("br");
        assert("br"@ =~= seq!['b', 'r']);
        reveal_strlit("/p");
        assert("/p"@ =~= seq!['/', 'p']);
        reveal_strlit("/div");
        assert("/div"@ =~= seq!['/', 'd', 'i', 'v']);
        reveal_strlit("/li");
        assert("/li"@ =~= seq!['/', 'l', 'i']);
        reveal_strlit("/tr");
        assert("/tr"@ =~= seq!['/', 't', 'r']);
        reveal_strlit("/h");
        assert("/h"@ =~= seq!['/', 'h']);
    }
    starts_with_lit(t.as_slice(), "br") || starts_with_lit(t.as_slice(), "/p") || starts_with_lit(
        t.as_slice(),
        "/div",
    ) || starts_with_lit(t.as_slice(), "/li") || starts_with_lit(t.as_slice(), "/tr")
        || starts_with_lit(t.as_slice(), "/h")
}

/// Decodes a character reference given as its characters.
pub fn decode_entity_chars(e: &[char]) -> (r: Option<char>)
    ensures
        r == decode_entity(e@),
{
    proof {
        reveal_strlit("&amp;");
        assert("&amp;"@ =~= seq!['&', 'a', 'm', 'p', ';']);
        reveal_strlit("&lt;");
        assert("&lt;"@ =~= seq!['&', 'l', 't', ';']);
        reveal_strlit("&gt;");
        assert("&gt;"@ =~= seq!['&', 'g', 't', ';']);
        reveal_strlit("&quot;");
        assert("&quot;"@ =~= seq!['&', 'q', 'u', 'o', 't', ';']);
        reveal_strlit("&apos;");
        assert("&apos;"@ =~= seq!['&', 'a', 'p', 'o', 's', ';']);
        reveal_strlit("&#39;");
        assert("&#39;"@ =~= seq!['&', '#', '3', '9', ';']);
        reveal_strlit("&nbsp;");
        assert("&nbsp;"@ =~= seq!['&', 'n', 'b', 's', 'p', ';']);
        reveal_strlit("&#x");
        assert("&#x"@ =~= seq!['&', '#', 'x']);
        reveal_strlit("&#");
        assert("&#"@ =~= seq!['&', '#']);
    }
    let semi = e.len() > 0 && e[e.len() - 1] == ';';
    assert(semi == has_suffix(e@, seq![';'])) by {
        if e@.len() > 0 {
            assert(e@.subrange(e@.len() - 1, e@.len() as int)[0] == e@[e@.len() - 1]);
            if semi {
                assert(e@.subrange(e@.len() - 1, e@.len() as int) =~= seq![';']);
            }
        }
    }
    if chars_eq_str(e, "&amp;") {
        Some('&')
    } else if chars_eq_str(e, "&lt;") {
        Some('<')
    } else if chars_eq_str(e, "&gt;") {
        Some('>')
    } else if chars_eq_str(e, "&quot;") {
        Some('"')
    } else if chars_eq_str(e, "&apos;") || chars_eq_str(e, "&#39;") {
        Some('\'')
    } else if chars_eq_str(e, "&nbsp;") {
        Some(' ')
    } else if starts_with_lit(e, "&#x") && semi {
        assert(e@.subrange(0, 3)[2] == 'x');
        let d = copy_range(e, 3, e.len() - 1);
        match parse_uint_chars(d.as_slice(), 16, u32::MAX as u64) {
            Some(v) => char_from_u32(v as u32),
            None => None,
        }
    } else if starts_with_lit(e, "&#") && semi {
        assert(e@.subrange(0, 2)[1] == '#');
        let d = copy_range(e, 2, e.len() - 1);
        match parse_uint_chars(d.as_slice(), 10, u32::MAX as u64) {
            Some(v) => char_from_u32(v as u32),
            None => None,
        }
    } else {
        None
    }
}

/// Decodes an HTML character reference such as `&amp;`, `&#39;` or `&#x41;`.
pub fn decode_html_entity(entity: &str) -> (r: Option<char>)
    ensures
        r == decode_entity(entity@),
{
    let v = chars_of(entity);
    decode_entity_chars(v.as_slice())
}

proof fn lemma_find_within_cap(s: Seq<char>, c: char, start: int, l1: int, l2: int)
    requires
        0 <= start,
        l1 >= s.len() - 1,
        l2 >= s.len() - 1,
    ensures
        find_within(s, c, start, l1) == find_within(s, c, start, l2),
    decreases s.len() - start,
{
    if start < s.len() {
        lemma_find_within_cap(s, c, start + 1, l1, l2);
    }
}

/// Squeezes and trims whitespace, as the text of a mail body is shown.
pub fn normalize_whitespace_chars(s: &[char]) -> (r: String)
    ensures
        r@ == normalized_ws(s@),
{
    let mut out: Vec<char> = Vec::new();
    let mut ps = false;
    let mut pn = false;
    let mut i: usize = 0;
    while i < s.len()
        invariant
            i <= s@.len(),
            out@ + squeeze(s@, i as int, ps, pn) == squeeze(s@, 0, false, false),
        decreases s.len() - i,
    {
        let ch = s[i];
        if ch == '\n' {
            if !pn {
                out.push('\n');
            }
            pn = true;
            ps = false;
        } else if char_is_whitespace(ch) {
            if !ps && !pn {
                out.push(' ');
                ps = true;
            }
        } else {
            out.push(ch);
            ps = false;
            pn = false;
        }
        i += 1;
    }
    let t = trim_chars(out.as_slice());
    string_from_chars(t.as_slice())
}

/// Squeezes and trims whitespace.  The result is trimmed, holds no doubled
/// space and no line break followed by a line break or a space, has no
/// whitespace but spaces and line breaks, keeps every other character in
/// order, and is left as it is by a second call (see
/// [`normalized_ws_laws`]).
pub fn normalize_whitespace(s: &str) -> (r: String)
    ensures
        r@ == normalized_ws(s@),
        trim(r@) == r@,
        !contains(r@, seq![' ', ' ']),
        !contains(r@, seq!['\n', '\n']),
        !contains(r@, seq!['\n', ' ']),
        forall|i: int| 0 <= i < r@.len() && is_ws(#[trigger] r@[i]) ==> r@[i] == ' ' || r@[i] == '\n',
        strip_ws(r@) == strip_ws(s@),
        normalized_ws(r@) == r@,
{
    let v = chars_of(s);
    proof {
        normalized_ws_laws(s@);
    }
    normalize_whitespace_chars(v.as_slice())
}

/// The plain text of an HTML fragment.
pub fn html_to_text(html: &str) -> (r: String)
    ensures
        r@ == html_text(html@),
{
    let s = chars_of(html);
    let n = s.len();
    let mut out: Vec<char> = Vec::new();
    let mut i: usize = 0;
    while i < n
        invariant
            n == s@.len(),
            i <= n,
            out@ + html_scan(s@, i as int) == html_scan(s@, 0),
        decreases n - i,
    {
        if s[i] == '<' {
            match find_char_within(s.as_slice(), '>', i + 1, n) {
                None => {
                    i = n;
                },
                Some(j) => {
                    proof {
                        lemma_find_within(s@, '>', i + 1, n as int);
                    }
                    let tag = copy_range(s.as_slice(), i + 1, j);
                    if tag_breaks_exec(tag.as_slice()) {
                        out.push('\n');
                    }
                    i = j + 1;
                },
            }
        } else {
            let mut decoded: Option<(char, usize)> = None;
            if s[i] == '&' {
                let last = if n - i > 13 {
                    i + 13
                } else {
                    n
                };
                proof {
                    if last == n {
                        lemma_find_within_cap(s@, ';', i + 1, last as int, i + 13);
                    }
                }
                match find_char_within(s.as_slice(), ';', i + 1, last) {
                    Some(j) => {
                        proof {
                            lemma_find_within(s@, ';', i + 1, i + 13);
                        }
                        let e = copy_range(s.as_slice(), i, j + 1);
                        match decode_entity_chars(e.as_slice()) {
                            Some(c) => {
                                decoded = Some((c, j));
                            },
                            None => {},
                        }
                    },
                    None => {},
                }
            }
            match decoded {
                Some((c, j)) => {
                    out.push(c);
                    i = j + 1;
                },
                None => {
                    out.push(s[i]);
                    i += 1;
                },
            }
        }
    }
    normalize_whitespace_chars(out.as_slice())
}

/// The characters of `s` that are not whitespace, in order.
pub open spec fn strip_ws(s: Seq<char>) -> Seq<char>
    decreases s.len(),
{
    if s.len() == 0 {
        seq![]
    } else {
        (if is_ws(s[0]) {
            seq![]
        } else {
            seq![s[0]]
        }) + strip_ws(s.drop_first())
    }
}

/// Two neighbouring characters of squeezed text: no two spaces, and a line
/// break followed by neither a line break nor a space.
pub open spec fn ws_pair_ok(t: Seq<char>, i: int) -> bool {
    !(t[i] == ' ' && t[i + 1] == ' ') && !(t[i] == '\n' && (t[i + 1] == '\n' || t[i + 1] == ' '))
}

/// Text whose only whitespace is single spaces and line breaks, no
/// whitespace following a line break and no space following a space.
pub open spec fn ws_canonical(t: Seq<char>) -> bool {
    &&& forall|i: int| 0 <= i < t.len() && is_ws(#[trigger] t[i]) ==> t[i] == ' ' || t[i] == '\n'
    &&& forall|i: int| 0 <= i < t.len() - 1 ==> #[trigger] ws_pair_ok(t, i)
}

proof fn lemma_strip_concat(a: Seq<char>, b: Seq<char>)
    ensures
        strip_ws(a + b) == strip_ws(a) + strip_ws(b),
    decreases a.len(),
{
    if a.len() == 0 {
        assert(a + b =~= b);
    } else {
        assert((a + b).drop_first() =~= a.drop_first() + b);
        lemma_strip_concat(a.drop_first(), b);
        assert((a + b)[0] == a[0]);
    }
}

proof fn lemma_strip_single(c: char)
    ensures
        strip_ws(seq![c]) == (if is_ws(c) {
            seq![]
        } else {
            seq![c]
        }),
{
    let t = seq![c];
    assert(t.drop_first() =~= Seq::<char>::empty());
    assert(strip_ws(t.drop_first()) == Seq::<char>::empty());
    assert(t[0] == c);
    if is_ws(c) {
        assert(strip_ws(t) =~= Seq::<char>::empty());
    } else {
        assert(strip_ws(t) =~= seq![c]);
    }
}

proof fn lemma_strip_trim_start(x: Seq<char>)
    ensures
        strip_ws(trim_start(x)) == strip_ws(x),
    decreases x.len(),
{
    if x.len() > 0 && is_ws(x[0]) {
        lemma_strip_trim_start(x.drop_first());
    }
}

proof fn lemma_strip_trim_end(x: Seq<char>)
    ensures
        strip_ws(trim_end(x)) == strip_ws(x),
    decreases x.len(),
{
    if x.len() > 0 && is_ws(x.last()) {
        lemma_strip_trim_end(x.drop_last());
        assert(x =~= x.drop_last() + seq![x.last()]);
        lemma_strip_concat(x.drop_last(), seq![x.last()]);
        lemma_strip_single(x.last());
        assert(strip_ws(x.drop_last()) + Seq::<char>::empty() =~= strip_ws(x.drop_last()));
    }
}

proof fn lemma_strip_squeeze(s: Seq<char>, i: int, ps: bool, pn: bool)
    requires
        0 <= i <= s.len(),
    ensures
        strip_ws(squeeze(s, i, ps, pn)) == strip_ws(s.subrange(i, s.len() as int)),
    decreases s.len() - i,
{
    let rest = s.subrange(i, s.len() as int);
    if i == s.len() {
        assert(rest =~= Seq::<char>::empty());
    } else {
        assert(rest.drop_first() =~= s.subrange(i + 1, s.len() as int));
        assert(rest[0] == s[i]);
        let c = s[i];
        let tail = strip_ws(s.subrange(i + 1, s.len() as int));
        assert(strip_ws(rest) == (if is_ws(c) {
            seq![]
        } else {
            seq![c]
        }) + tail);
        if c == '\n' {
            lemma_strip_squeeze(s, i + 1, false, true);
            if !pn {
                lemma_strip_concat(seq!['\n'], squeeze(s, i + 1, false, true));
                lemma_strip_single('\n');
            }
            assert(strip_ws(rest) =~= tail);
        } else if is_ws(c) {
            if !ps && !pn {
                lemma_strip_squeeze(s, i + 1, true, pn);
                lemma_strip_concat(seq![' '], squeeze(s, i + 1, true, pn));
                lemma_strip_single(' ');
            } else {
                lemma_strip_squeeze(s, i + 1, ps, pn);
            }
            assert(strip_ws(rest) =~= tail);
        } else {
            lemma_strip_squeeze(s, i + 1, false, false);
            lemma_strip_concat(seq![c], squeeze(s, i + 1, false, false));
            lemma_strip_single(c);
        }
    }
}

proof fn lemma_cons_canonical(c: char, rest: Seq<char>)
    requires
        ws_canonical(rest),
        is_ws(c) ==> c == ' ' || c == '\n',
        rest.len() > 0 ==> !(c == ' ' && rest[0] == ' ') && !(c == '\n' && (rest[0] == '\n'
            || rest[0] == ' ')),
    ensures
        ws_canonical(seq![c] + rest),
{
    let t = seq![c] + rest;
    assert forall|i: int| 0 <= i < t.len() && is_ws(#[trigger] t[i]) implies t[i] == ' ' || t[i]
        == '\n' by {
        if i > 0 {
            assert(t[i] == rest[i - 1]);
        }
    }
    assert forall|i: int| 0 <= i < t.len() - 1 implies #[trigger] ws_pair_ok(t, i) by {
        if i > 0 {
            assert(t[i] == rest[i - 1] && t[i + 1] == rest[i]);
            assert(ws_pair_ok(rest, i - 1));
        } else {
            assert(t[1] == rest[0]);
        }
    }
}

proof fn lemma_squeeze_canonical(s: Seq<char>, i: int, ps: bool, pn: bool)
    requires
        0 <= i <= s.len(),
    ensures
        ws_canonical(squeeze(s, i, ps, pn)),
        ps && squeeze(s, i, ps, pn).len() > 0 ==> squeeze(s, i, ps, pn)[0] != ' ',
        pn && squeeze(s, i, ps, pn).len() > 0 ==> !is_ws(squeeze(s, i, ps, pn)[0]),
    decreases s.len() - i,
{
    if i < s.len() {
        let c = s[i];
        if c == '\n' {
            lemma_squeeze_canonical(s, i + 1, false, true);
            if !pn {
                lemma_cons_canonical('\n', squeeze(s, i + 1, false, true));
            }
        } else if is_ws(c) {
            if !ps && !pn {
                lemma_squeeze_canonical(s, i + 1, true, pn);
                lemma_cons_canonical(' ', squeeze(s, i + 1, true, pn));
            } else {
                lemma_squeeze_canonical(s, i + 1, ps, pn);
            }
        } else {
            lemma_squeeze_canonical(s, i + 1, false, false);
            lemma_cons_canonical(c, squeeze(s, i + 1, false, false));
        }
    }
}

proof fn lemma_canonical_drop_first(t: Seq<char>)
    requires
        ws_canonical(t),
        t.len() > 0,
    ensures
        ws_canonical(t.drop_first()),
{
    let u = t.drop_first();
    assert forall|i: int| 0 <= i < u.len() && is_ws(#[trigger] u[i]) implies u[i] == ' ' || u[i]
        == '\n' by {
        assert(u[i] == t[i + 1]);
    }
    assert forall|i: int| 0 <= i < u.len() - 1 implies #[trigger] ws_pair_ok(u, i) by {
        assert(ws_pair_ok(t, i + 1));
    }
}

proof fn lemma_canonical_drop_last(t: Seq<char>)
    requires
        ws_canonical(t),
        t.len() > 0,
    ensures
        ws_canonical(t.drop_last()),
{
    let u = t.drop_last();
    assert forall|i: int| 0 <= i < u.len() && is_ws(#[trigger] u[i]) implies u[i] == ' ' || u[i]
        == '\n' by {
        assert(u[i] == t[i]);
    }
    assert forall|i: int| 0 <= i < u.len() - 1 implies #[trigger] ws_pair_ok(u, i) by {
        assert(ws_pair_ok(t, i));
    }
}

proof fn lemma_trim_start_canonical(x: Seq<char>)
    requires
        ws_canonical(x),
    ensures
        ws_canonical(trim_start(x)),
        trim_start(x).len() > 0 ==> !is_ws(trim_start(x)[0]),
    decreases x.len(),
{
    if x.len() > 0 && is_ws(x[0]) {
        lemma_canonical_drop_first(x);
        lemma_trim_start_canonical(x.drop_first());
    }
}

proof fn lemma_trim_end_canonical(x: Seq<char>)
    requires
        ws_canonical(x),
    ensures
        ws_canonical(trim_end(x)),
        trim_end(x).len() > 0 ==> !is_ws(trim_end(x).last()),
        trim_end(x).len() > 0 ==> trim_end(x)[0] == x[0],
    decreases x.len(),
{
    if x.len() > 0 && is_ws(x.last()) {
        lemma_canonical_drop_last(x);
        lemma_trim_end_canonical(x.drop_last());
    }
}

proof fn lemma_squeeze_identity(t: Seq<char>, i: int, ps: bool, pn: bool)
    requires
        ws_canonical(t),
        0 <= i <= t.len(),
        ps == (i > 0 && t[i - 1] == ' '),
        pn == (i > 0 && t[i - 1] == '\n'),
    ensures
        squeeze(t, i, ps, pn) == t.subrange(i, t.len() as int),
    decreases t.len() - i,
{
    if i == t.len() {
        assert(t.subrange(i, t.len() as int) =~= Seq::<char>::empty());
    } else {
        let c = t[i];
        if i > 0 {
            assert(ws_pair_ok(t, i - 1));
        }
        if c == '\n' {
            lemma_squeeze_identity(t, i + 1, false, true);
        } else if is_ws(c) {
            lemma_squeeze_identity(t, i + 1, true, false);
        } else {
            lemma_squeeze_identity(t, i + 1, false, false);
        }
        assert(t.subrange(i, t.len() as int) =~= seq![c] + t.subrange(i + 1, t.len() as int));
    }
}

/// Squeezed text is trimmed, holds no doubled space, no line break followed
/// by a line break or a space, and no whitespace but spaces and line
/// breaks; it keeps every other character of the input in order, and
/// squeezing it again changes nothing.
pub proof fn normalized_ws_laws(s: Seq<char>)
    ensures
        trim(normalized_ws(s)) == normalized_ws(s),
        !contains(normalized_ws(s), seq![' ', ' ']),
        !contains(normalized_ws(s), seq!['\n', '\n']),
        !contains(normalized_ws(s), seq!['\n', ' ']),
        forall|i: int|
            0 <= i < normalized_ws(s).len() && is_ws(#[trigger] normalized_ws(s)[i]) ==> normalized_ws(s)[i]
                == ' ' || normalized_ws(s)[i] == '\n',
        strip_ws(normalized_ws(s)) == strip_ws(s),
        normalized_ws(normalized_ws(s)) == normalized_ws(s),
{
    let u = squeeze(s, 0, false, false);
    let r = normalized_ws(s);
    lemma_squeeze_canonical(s, 0, false, false);
    lemma_trim_start_canonical(u);
    lemma_trim_end_canonical(trim_start(u));
    assert(ws_canonical(r));
    // trimmed
    if r.len() > 0 {
        assert(!is_ws(r[0]));
        assert(!is_ws(r.last()));
        assert(trim_start(r) == r);
        assert(trim_end(r) == r);
    } else {
        assert(trim_start(r) == r);
    }
    // no doubled separators
    assert forall|i: int| !occurs_at(r, seq![' ', ' '], i) && !occurs_at(r, seq!['\n', '\n'], i) && !occurs_at(r, seq!['\n', ' '], i) by {
        if 0 <= i && i + 2 <= r.len() {
            assert(ws_pair_ok(r, i));
            assert(r.subrange(i, i + 2)[0] == r[i]);
            assert(r.subrange(i, i + 2)[1] == r[i + 1]);
        }
    }
    // only whitespace changed
    lemma_strip_squeeze(s, 0, false, false);
    assert(s.subrange(0, s.len() as int) =~= s);
    lemma_strip_trim_start(u);
    lemma_strip_trim_end(trim_start(u));
    // idempotent
    lemma_squeeze_identity(r, 0, false, false);
    assert(r.subrange(0, r.len() as int) =~= r);
}

} // verus!

verus! {

/// The five named references of XML and the characters they stand for.
pub open spec fn xml_named_reference(r: Seq<char>, c: char) -> bool {
    ||| (r == seq!['&', 'a', 'm', 'p', ';'] && c == '&')
    ||| (r == seq!['&', 'l', 't', ';'] && c == '<')
    ||| (r == seq!['&', 'g', 't', ';'] && c == '>')
    ||| (r == seq!['&', 'q', 'u', 'o', 't', ';'] && c == '"')
    ||| (r == seq!['&', 'a', 'p', 'o', 's', ';'] && c == '\'')
}

/// Text with neither markup nor references: no `<` and no `&`.
pub open spec fn plain_text(s: Seq<char>) -> bool {
    forall|i: int| 0 <= i < s.len() ==> #[trigger] s[i] != '<' && s[i] != '&'
}

proof fn lemma_find_within_at(s: Seq<char>, c: char, start: int, k: int, last: int)
    requires
        0 <= start <= k <= last,
        k < s.len(),
        s[k] == c,
        forall|m: int| start <= m < k ==> s[m] != c,
    ensures
        find_within(s, c, start, last) == Some(k),
    decreases k - start,
{
    if start < k {
        lemma_find_within_at(s, c, start + 1, k, last);
    }
}

/// Plain text from `i` on comes through the scan as it is.
proof fn lemma_scan_plain_from(s: Seq<char>, i: int, j: int)
    requires
        0 <= i <= j <= s.len(),
        forall|m: int| i <= m < j ==> s[m] != '<' && s[m] != '&',
    ensures
        html_scan(s, i) == s.subrange(i, j) + html_scan(s, j),
    decreases j - i,
{
    if i < j {
        lemma_scan_plain_from(s, i + 1, j);
        assert(s.subrange(i, j) =~= seq![s[i]] + s.subrange(i + 1, j));
    } else {
        assert(s.subrange(i, j) =~= Seq::<char>::empty());
    }
}

proof fn lemma_named_reference_decodes(r: Seq<char>, c: char)
    requires
        xml_named_reference(r, c),
    ensures
        decode_entity(r) == Some(c),
        r.len() >= 4,
        r.len() <= 6,
        r[0] == '&',
        r[r.len() - 1] == ';',
        forall|m: int| 0 <= m < r.len() - 1 ==> #[trigger] r[m] != ';',
{
}

proof fn lemma_scan_reference(s: Seq<char>, p: int, r: Seq<char>, c: char)
    requires
        xml_named_reference(r, c),
        0 <= p,
        p + r.len() <= s.len(),
        s.subrange(p, p + r.len()) == r,
    ensures
        html_scan(s, p) == seq![c] + html_scan(s, p + r.len()),
{
    lemma_named_reference_decodes(r, c);
    let q = p + r.len();
    assert forall|m: int| p + 1 <= m < q - 1 implies s[m] != ';' by {
        assert(s[m] == s.subrange(p, q)[m - p]);
    }
    assert(s[p] == s.subrange(p, q)[0]);
    assert(s[q - 1] == s.subrange(p, q)[r.len() - 1]);
    lemma_find_within_at(s, ';', p + 1, q - 1, p + 13);
    assert(entity_end(s, p) == Some(q - 1));
    assert(s.subrange(p, q - 1 + 1) == r);
    assert(entity_char(s, p) == Some(c));
}

/// Each of the five named references of XML reads as its character in
/// plain text around it: the text of `a`, the reference, then `b` is the
/// text of `a`, the character, then `b`.
pub proof fn html_text_decodes_xml_references(a: Seq<char>, r: Seq<char>, c: char, b: Seq<char>)
    requires
        plain_text(a),
        plain_text(b),
        xml_named_reference(r, c),
    ensures
        html_text(a + r + b) == normalized_ws(a + seq![c] + b),
{
    let s = a + r + b;
    let p = a.len() as int;
    let q = p + r.len();
    assert forall|m: int| 0 <= m < p implies s[m] != '<' && s[m] != '&' by {
        assert(s[m] == a[m]);
    }
    assert forall|m: int| q <= m < s.len() implies s[m] != '<' && s[m] != '&' by {
        assert(s[m] == b[m - q]);
    }
    lemma_scan_plain_from(s, 0, p);
    lemma_scan_plain_from(s, q, s.len() as int);
    assert(s.subrange(p, q) =~= r);
    lemma_scan_reference(s, p, r, c);
    assert(s.subrange(q, s.len() as int) =~= b);
    assert(s.subrange(0, p) =~= a);
    assert(html_scan(s, s.len() as int) == Seq::<char>::empty());
    assert(html_scan(s, 0) =~= a + seq![c] + b);
}

} // verus!
