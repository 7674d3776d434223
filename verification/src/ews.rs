//! The logic of the EWS client: credentials and retry policy, escaping of
//! request values, the authorization header, the retry and back-off rule,
//! and the reading of answers.  The HTTP exchange itself happens outside
//! this library.
use vstd::prelude::*;
use crate::text::{
    ascii_lower_seq, ascii_lowercase_chars, trim_end, trim_start, chars_eq, chars_eq_str, chars_of, contains, copy_range,
    find_from, find_substr, has_prefix, has_suffix, occurs_at, push_char, str_contains, string_from_chars,
    trim, trim_chars, trim_str, replace_all, replace_from, lemma_replace_keeps_last, str_ends_with,
    opt_string_view, decimal, format_u64, eq_ignore_ascii_case, str_eq_ignore_ascii_case, is_blank,
};
use crate::ews_types::{CreateItemResponse, Email, GetItemResponse, MoveItemResponse};
use crate::xml::{extract_first_item_id_from_xml, extract_tag_value, first_item_id_from, all_ascii, str_lowercase, tag_value, to_lowercase, xml_events};
use base64::{engine::general_purpose, Engine as _};
use vstd::utf8::encode_utf8;

verus! {

/// Why an EWS operation failed.
#[derive(Debug)]
pub enum EwsError {
    SoapError(String),
    HttpError(String),
    XmlError(String),
    AuthError(String),
    NotFound(String),
}

/// The message of an error, as it is shown.
pub open spec fn ews_error_message(e: EwsError) -> Seq<char> {
    match e {
        EwsError::SoapError(s) => "SOAP error: "@ + s@,
        EwsError::HttpError(s) => "HTTP error: "@ + s@,
        EwsError::XmlError(s) => "XML parse error: "@ + s@,
        EwsError::AuthError(s) => "Authentication error: "@ + s@,
        EwsError::NotFound(s) => "Not found: "@ + s@,
    }
}

impl EwsError {
    /// The message of the error, as it is shown.
    pub fn message(&self) -> (r: String)
        ensures
            r@ == ews_error_message(*self),
    {
        let (prefix, s) = match self {
            EwsError::SoapError(s) => ("SOAP error: ", s),
            EwsError::HttpError(s) => ("HTTP error: ", s),
            EwsError::XmlError(s) => ("XML parse error: ", s),
            EwsError::AuthError(s) => ("Authentication error: ", s),
            EwsError::NotFound(s) => ("Not found: ", s),
        };
        let mut m = String::from_str(prefix);
        m.append(s.as_str());
        m
    }
}

/// The account an EWS client signs in with.
#[derive(Debug)]
pub struct EwsCredentials {
    pub username: String,
    pub password: String,
    pub email: String,
    pub auth_mode: String,
}

/// How often and how patiently a request is retried.
#[derive(Debug, Clone, Copy)]
pub struct EwsClientOptions {
    pub retry_max_attempts: u32,
    pub retry_base_ms: u64,
    pub retry_max_backoff_ms: u64,
}

impl Default for EwsClientOptions {
    /// Five attempts, half a second first, ten seconds at most.
    fn default() -> (r: Self)
        ensures
            r.retry_max_attempts == 5,
            r.retry_base_ms == 500,
            r.retry_max_backoff_ms == 10_000,
    {
        EwsClientOptions { retry_max_attempts: 5, retry_base_ms: 500, retry_max_backoff_ms: 10_000 }
    }
}

/// The escape of one character in XML text and attribute values.
pub open spec fn escape_char(c: char) -> Seq<char> {
    if c == '&' {
        seq!['&', 'a', 'm', 'p', ';']
    } else if c == '<' {
        seq!['&', 'l', 't', ';']
    } else if c == '>' {
        seq!['&', 'g', 't', ';']
    } else if c == '"' {
        seq!['&', 'q', 'u', 'o', 't', ';']
    } else if c == '\'' {
        seq!['&', 'a', 'p', 'o', 's', ';']
    } else {
        seq![c]
    }
}

/// `s` with `&`, `<`, `>`, `"` and `'` escaped.
pub open spec fn escaped(s: Seq<char>) -> Seq<char>
    decreases s.len(),
{
    if s.len() == 0 {
        seq![]
    } else {
        escaped(s.drop_last()) + escape_char(s.last())
    }
}

fn push_all(out: &mut Vec<char>, s: &[char])
    ensures
        final(out)@ == old(out)@ + s@,
{
    let mut i: usize = 0;
    let ghost start = out@;
    while i < s.len()
        invariant
            i <= s@.len(),
            out@ == start + s@.subrange(0, i as int),
        decreases s.len() - i,
    {
        out.push(s[i]);
        i += 1;
        assert(out@ =~= start + s@.subrange(0, i as int));
    }
    assert(s@.subrange(0, s@.len() as int) == s@);
}

/// Escapes a value for XML text or an attribute value.
pub fn escape_xml(s: &str) -> (r: String)
    ensures
        r@ == escaped(s@),
{
    let v = chars_of(s);
    let mut out: Vec<char> = Vec::new();
    let mut i: usize = 0;
    while i < v.len()
        invariant
            i <= v@.len(),
            out@ == escaped(v@.subrange(0, i as int)),
        decreases v.len() - i,
    {
        let c = v[i];
        if c == '&' {
            out.push('&');
            out.push('a');
            out.push('m');
            out.push('p');
            out.push(';');
        } else if c == '<' {
            out.push('&');
            out.push('l');
            out.push('t');
            out.push(';');
        } else if c == '>' {
            out.push('&');
            out.push('g');
            out.push('t');
            out.push(';');
        } else if c == '"' {
            out.push('&');
            out.push('q');
            out.push('u');
            out.push('o');
            out.push('t');
            out.push(';');
        } else if c == '\'' {
            out.push('&');
            out.push('a');
            out.push('p');
            out.push('o');
            out.push('s');
            out.push(';');
        } else {
            out.push(c);
        }
        i += 1;
        assert(v@.subrange(0, i as int).drop_last() == v@.subrange(0, i - 1));
        assert(out@ =~= escaped(v@.subrange(0, i as int)));
    }
    assert(v@.subrange(0, v@.len() as int) == v@);
    string_from_chars(out.as_slice())
}

/// The text of the first `<faultstring>` element, or `Unknown fault`.
pub open spec fn fault_string(body: Seq<char>) -> Seq<char> {
    let open = "<faultstring>"@;
    match find_from(body, open, 0) {
        Some(i) => match find_from(body, "</faultstring>"@, i + open.len()) {
            Some(j) => body.subrange(i + open.len(), j),
            None => "Unknown fault"@,
        },
        None => "Unknown fault"@,
    }
}

/// The fault message of a SOAP fault body.
pub fn extract_fault_string(body: &str) -> (r: String)
    ensures
        r@ == fault_string(body@),
{
    let b = chars_of(body);
    let open = chars_of("<faultstring>");
    let close = chars_of("</faultstring>");
    match find_substr(b.as_slice(), open.as_slice(), 0) {
        Some(i) => {
            let blen = b.len();
            assert(i + open@.len() <= blen);
            let s = i + open.len();
            match find_substr(b.as_slice(), close.as_slice(), s) {
                Some(j) => {
                    let r = copy_range(b.as_slice(), s, j);
                    string_from_chars(r.as_slice())
                },
                None => "Unknown fault".to_owned(),
            }
        },
        None => "Unknown fault".to_owned(),
    }
}

/// HTTP statuses worth another attempt: timeout, too many requests and
/// server failures.
pub open spec fn retryable_status(status: u16) -> bool {
    status == 408 || status == 429 || status == 500 || status == 502 || status == 503 || status == 504
}

/// Whether an HTTP status is worth another attempt.
pub fn is_retryable_http_status(status: u16) -> (r: bool)
    ensures
        r == retryable_status(status),
{
    status == 408 || status == 429 || status == 500 || status == 502 || status == 503 || status == 504
}

/// Transport failures worth another attempt: the message, lower-cased,
/// tells of a timeout, a reset or refused connection, a temporary outage, a
/// failed TLS handshake, an early end, an empty reply, a receive failure or
/// a name lookup failure.
pub open spec fn transient_message(m: Seq<char>) -> bool {
    let l = ascii_lower_seq(m);
    ||| contains(l, "timed out"@)
    ||| contains(l, "timeout"@)
    ||| contains(l, "connection reset"@)
    ||| contains(l, "connection refused"@)
    ||| contains(l, "temporarily unavailable"@)
    ||| contains(l, "tls connect error"@)
    ||| contains(l, "ssl connect error"@)
    ||| contains(l, "unexpected eof"@)
    ||| contains(l, "empty reply from server"@)
    ||| contains(l, "recv failure"@)
    ||| contains(l, "dns"@)
    ||| contains(l, "lookup address information"@)
}

/// Only transport (`HttpError`) failures with a transient message are retried.
pub open spec fn retryable_error(e: EwsError) -> bool {
    match e {
        EwsError::HttpError(m) => transient_message(m@),
        _ => false,
    }
}

/// Whether a failure is worth another attempt.
pub fn is_retryable_error(err: &EwsError) -> (r: bool)
    ensures
        r == retryable_error(*err),
{
    match err {
        EwsError::HttpError(msg) => {
            let lower = string_from_chars(ascii_lowercase_chars(chars_of(msg.as_str()).as_slice()).as_slice());
            let l = lower.as_str();
            str_contains(l, "timed out") || str_contains(l, "timeout") || str_contains(
                l,
                "connection reset",
            ) || str_contains(l, "connection refused") || str_contains(l, "temporarily unavailable")
                || str_contains(l, "tls connect error") || str_contains(l, "ssl connect error")
                || str_contains(l, "unexpected eof") || str_contains(l, "empty reply from server")
                || str_contains(l, "recv failure") || str_contains(l, "dns") || str_contains(
                l,
                "lookup address information",
            )
        },
        _ => false,
    }
}

pub open spec fn pow2(n: nat) -> nat
    decreases n,
{
    if n == 0 {
        1
    } else {
        2 * pow2((n - 1) as nat)
    }
}

/// The delay in milliseconds before attempt `attempt + 1`: the base doubled
/// for each earlier attempt (at most ten times, saturating), capped at
/// `max_backoff_ms`, plus a jitter of `137 * attempt mod 251` milliseconds
/// (saturating).
pub open spec fn backoff_ms(attempt: u32, base_ms: u64, max_backoff_ms: u64) -> nat {
    let shift: nat = if attempt == 0 {
        0
    } else if attempt - 1 < 10 {
        (attempt - 1) as nat
    } else {
        10
    };
    let product: nat = (base_ms as nat) * pow2(shift);
    let exp: nat = if product > u64::MAX {
        u64::MAX as nat
    } else {
        product
    };
    let capped: nat = if exp < max_backoff_ms {
        exp
    } else {
        max_backoff_ms as nat
    };
    let jitter: nat = ((attempt as nat) * 137) % 251;
    if capped + jitter > u64::MAX {
        u64::MAX as nat
    } else {
        capped + jitter
    }
}

/// The delay in milliseconds before the next attempt.
pub fn backoff_delay(attempt: u32, base_ms: u64, max_backoff_ms: u64) -> (r: u64)
    ensures
        r as nat == backoff_ms(attempt, base_ms, max_backoff_ms),
{
    let shift: u32 = if attempt == 0 {
        0
    } else if attempt - 1 < 10 {
        attempt - 1
    } else {
        10
    };
    let mut p: u64 = 1;
    let mut k: u32 = 0;
    while k < shift
        invariant
            k <= shift <= 10,
            p as nat == pow2(k as nat),
            p <= 1024,
        decreases shift - k,
    {
        assert(pow2((k + 1) as nat) == 2 * pow2(k as nat));
        assert(pow2(k as nat) <= 512) by {
            lemma_pow2_le(k as nat, 9);
            lemma_pow2_nine();
        }
        p = p * 2;
        k += 1;
    }
    let exp: u64 = match base_ms.checked_mul(p) {
        Some(v) => v,
        None => u64::MAX,
    };
    let capped = if exp < max_backoff_ms {
        exp
    } else {
        max_backoff_ms
    };
    let jitter: u64 = (attempt as u64 * 137) % 251;
    match capped.checked_add(jitter) {
        Some(v) => v,
        None => u64::MAX,
    }
}

proof fn lemma_pow2_le(k: nat, m: nat)
    requires
        k <= m,
    ensures
        pow2(k) <= pow2(m),
    decreases m,
{
    if k < m {
        lemma_pow2_le(k, (m - 1) as nat);
    }
}

proof fn lemma_pow2_nine()
    ensures
        pow2(9) == 512,
{
    reveal_with_fuel(pow2, 10);
}


/// A response that reports success: a `ResponseClass` of `Success`, in
/// double or single quotes, and a `NoError` code.
pub open spec fn indicates_success(xml: Seq<char>) -> bool {
    (contains(xml, "ResponseClass=\"Success\""@) || contains(xml, "ResponseClass='Success'"@))
        && contains(xml, "NoError"@)
}

/// Whether an EWS response reports success.
pub fn xml_indicates_success(xml: &str) -> (r: bool)
    ensures
        r == indicates_success(xml@),
{
    (str_contains(xml, "ResponseClass=\"Success\"") || str_contains(xml, "ResponseClass='Success'"))
        && str_contains(xml, "NoError")
}

/// The number of bytes of the UTF-8 encoding of `s`.
pub open spec fn utf8_len(s: Seq<char>) -> int {
    encode_utf8(s).len() as int
}

/// Where the excerpt of a response starts: the byte offset of the first
/// `ResponseMessages`, else of the first `ResponseClass`, else 0.  The
/// offset is then used as a count of characters to skip.
pub open spec fn excerpt_start(xml: Seq<char>) -> int {
    match find_from(xml, "ResponseMessages"@, 0) {
        Some(i) => utf8_len(xml.subrange(0, i)),
        None => match find_from(xml, "ResponseClass"@, 0) {
            Some(i) => utf8_len(xml.subrange(0, i)),
            None => 0,
        },
    }
}

/// At most 1400 characters of `xml` from the excerpt start on.
pub open spec fn response_excerpt(xml: Seq<char>) -> Seq<char> {
    let start = if excerpt_start(xml) < xml.len() {
        excerpt_start(xml)
    } else {
        xml.len() as int
    };
    let end = if start + 1400 < xml.len() {
        start + 1400
    } else {
        xml.len() as int
    };
    xml.subrange(start, end)
}

/// The log line that shows what an unexpected response held.
pub open spec fn excerpt_message(op: Seq<char>, xml: Seq<char>) -> Seq<char> {
    op + " response excerpt: "@ + response_excerpt(xml)
}

fn utf8_prefix_len(s: &str, v: &Vec<char>, i: usize) -> (r: usize)
    requires
        v@ == s@,
        i <= v@.len(),
    ensures
        r as int == utf8_len(v@.subrange(0, i as int)),
{
    let prefix = copy_range(v.as_slice(), 0, i);
    let text = string_from_chars(prefix.as_slice());
    let t = text.as_str();
    let bytes = t.as_bytes();
    bytes.len()
}

/// The message to log about an unexpected response of operation `op`.
pub fn debug_response_excerpt(op: &str, xml: &str) -> (r: String)
    ensures
        r@ == excerpt_message(op@, xml@),
{
    let v = chars_of(xml);
    let a = chars_of("ResponseMessages");
    let b = chars_of("ResponseClass");
    let start: usize = match find_substr(v.as_slice(), a.as_slice(), 0) {
        Some(i) => utf8_prefix_len(xml, &v, i),
        None => match find_substr(v.as_slice(), b.as_slice(), 0) {
            Some(i) => utf8_prefix_len(xml, &v, i),
            None => 0,
        },
    };
    let from = if start < v.len() {
        start
    } else {
        v.len()
    };
    let to = if v.len() - from > 1400 {
        from + 1400
    } else {
        v.len()
    };
    let excerpt = copy_range(v.as_slice(), from, to);
    let mut m = String::from_str(op);
    m.append(" response excerpt: ");
    m.append(string_from_chars(excerpt.as_slice()).as_str());
    m
}

/// The distinguished folder a folder name stands for, by its trimmed,
/// ASCII-lower-cased text.
pub open spec fn distinguished_id(name: Seq<char>) -> Option<Seq<char>> {
    let n = ascii_lower_seq(trim(name));
    if n == "inbox"@ {
        Some("inbox"@)
    } else if n == "sent"@ || n == "sentitems"@ || n == "sent_items"@ || n == "sent items"@ {
        Some("sentitems"@)
    } else if n == "draft"@ || n == "drafts"@ {
        Some("drafts"@)
    } else if n == "deleted"@ || n == "deleteditems"@ || n == "deleted_items"@ || n
        == "deleted items"@ || n == "trash"@ {
        Some("deleteditems"@)
    } else if n == "junk"@ || n == "junkemail"@ || n == "junk_email"@ || n == "junk email"@ || n
        == "spam"@ {
        Some("junkemail"@)
    } else if n == "archive"@ {
        Some("archive"@)
    } else if n == "outbox"@ {
        Some("outbox"@)
    } else if n == "calendar"@ {
        Some("calendar"@)
    } else if n == "contacts"@ {
        Some("contacts"@)
    } else if n == "tasks"@ {
        Some("tasks"@)
    } else {
        None
    }
}

/// The distinguished folder id a folder name stands for, if any.
pub fn distinguished_folder_id_from_spec(spec: &str) -> (r: Option<&'static str>)
    ensures
        match r {
            Some(d) => distinguished_id(spec@) == Some(d@),
            None => distinguished_id(spec@) is None,
        },
{
    let t = trim_chars(chars_of(spec).as_slice());
    let n = ascii_lowercase_chars(t.as_slice());
    let n = n.as_slice();
    if chars_eq_str(n, "inbox") {
        Some("inbox")
    } else if chars_eq_str(n, "sent") || chars_eq_str(n, "sentitems") || chars_eq_str(n, "sent_items")
        || chars_eq_str(n, "sent items") {
        Some("sentitems")
    } else if chars_eq_str(n, "draft") || chars_eq_str(n, "drafts") {
        Some("drafts")
    } else if chars_eq_str(n, "deleted") || chars_eq_str(n, "deleteditems") || chars_eq_str(
        n,
        "deleted_items",
    ) || chars_eq_str(n, "deleted items") || chars_eq_str(n, "trash") {
        Some("deleteditems")
    } else if chars_eq_str(n, "junk") || chars_eq_str(n, "junkemail") || chars_eq_str(n, "junk_email")
        || chars_eq_str(n, "junk email") || chars_eq_str(n, "spam") {
        Some("junkemail")
    } else if chars_eq_str(n, "archive") {
        Some("archive")
    } else if chars_eq_str(n, "outbox") {
        Some("outbox")
    } else if chars_eq_str(n, "calendar") {
        Some("calendar")
    } else if chars_eq_str(n, "contacts") {
        Some("contacts")
    } else if chars_eq_str(n, "tasks") {
        Some("tasks")
    } else {
        None
    }
}

/// The configured authentication mode, trimmed; `basic` when blank.
pub open spec fn auth_mode_of(mode: Seq<char>) -> Seq<char> {
    if trim(mode).len() == 0 {
        "basic"@
    } else {
        trim(mode)
    }
}

/// The authentication mode in use.
pub fn normalized_auth_mode(mode: &str) -> (r: String)
    ensures
        r@ == auth_mode_of(mode@),
{
    let t = trim_str(mode);
    if t.as_str().is_empty() {
        String::from_str("basic")
    } else {
        t
    }
}

/// The `Authorization` header for a lower-cased mode: only basic
/// authentication sends one; NTLM, OAuth and other modes are refused.
pub open spec fn header_for_mode(lower_mode: Seq<char>, token: Seq<char>) -> Result<Seq<char>, Seq<char>> {
    if lower_mode == "basic"@ {
        Ok("Basic "@ + token)
    } else if lower_mode == "ntlm"@ {
        Err("NTLM authentication is configured but not implemented in this client"@)
    } else if lower_mode == "oauth"@ {
        Err("OAuth authentication is configured but not implemented in this on-prem client"@)
    } else {
        Err("unsupported auth mode: "@ + lower_mode)
    }
}

/// The header text, or the authentication error, as a plain result.
pub open spec fn auth_result_view(r: Result<String, EwsError>) -> Result<Seq<char>, Seq<char>> {
    match r {
        Ok(h) => Ok(h@),
        Err(EwsError::AuthError(m)) => Err(m@),
        Err(_) => Err(seq![]),
    }
}

/// The `Authorization` header for an already lower-cased mode.
pub fn header_for_lower_mode(lower_mode: &str, basic_token: &str) -> (r: Result<String, EwsError>)
    ensures
        r is Err ==> r->Err_0 is AuthError,
        auth_result_view(r) == header_for_mode(lower_mode@, basic_token@),
{
    let m = chars_of(lower_mode);
    if chars_eq_str(m.as_slice(), "basic") {
        let mut h = String::from_str("Basic ");
        h.append(basic_token);
        Ok(h)
    } else if chars_eq_str(m.as_slice(), "ntlm") {
        Err(
            EwsError::AuthError(
                String::from_str(
                    "NTLM authentication is configured but not implemented in this client",
                ),
            ),
        )
    } else if chars_eq_str(m.as_slice(), "oauth") {
        Err(
            EwsError::AuthError(
                String::from_str(
                    "OAuth authentication is configured but not implemented in this on-prem client",
                ),
            ),
        )
    } else {
        let mut msg = String::from_str("unsupported auth mode: ");
        msg.append(lower_mode);
        Err(EwsError::AuthError(msg))
    }
}

/// The `Authorization` header for the credentials' mode, lower-cased with
/// `str::to_lowercase`.
pub fn authorization_header(credentials: &EwsCredentials, basic_token: &str) -> (r: Result<String, EwsError>)
    ensures
        r is Err ==> r->Err_0 is AuthError,
        auth_result_view(r) == header_for_mode(
            str_lowercase(auth_mode_of(credentials.auth_mode@)),
            basic_token@,
        ),
        all_ascii(auth_mode_of(credentials.auth_mode@)) ==> auth_result_view(r) == header_for_mode(
            ascii_lower_seq(auth_mode_of(credentials.auth_mode@)),
            basic_token@,
        ),
{
    let mode = normalized_auth_mode(credentials.auth_mode.as_str());
    let lower = to_lowercase(mode.as_str());
    header_for_lower_mode(lower.as_str(), basic_token)
}

/// The character of a 6-bit value in the standard base64 alphabet:
/// `A`-`Z`, `a`-`z`, `0`-`9`, `+`, `/`.
pub open spec fn base64_digit(v: int) -> char {
    if v < 26 {
        (65 + v) as char
    } else if v < 52 {
        (97 + v - 26) as char
    } else if v < 62 {
        (48 + v - 52) as char
    } else if v == 62 {
        '+'
    } else {
        '/'
    }
}

/// The standard base64 encoding (RFC 4648 alphabet, with `=` padding):
/// each group of three bytes gives four characters of six bits each; a
/// last group of one or two bytes is padded to four characters.
pub open spec fn base64_standard(b: Seq<u8>) -> Seq<char>
    decreases b.len(),
{
    let x = if b.len() > 0 { b[0] as int } else { 0 };
    let y = if b.len() > 1 { b[1] as int } else { 0 };
    let z = if b.len() > 2 { b[2] as int } else { 0 };
    if b.len() == 0 {
        seq![]
    } else if b.len() == 1 {
        seq![base64_digit(x / 4), base64_digit((x % 4) * 16), '=', '=']
    } else if b.len() == 2 {
        seq![base64_digit(x / 4), base64_digit((x % 4) * 16 + y / 16), base64_digit((y % 16) * 4), '=']
    } else {
        seq![
            base64_digit(x / 4),
            base64_digit((x % 4) * 16 + y / 16),
            base64_digit((y % 16) * 4 + z / 64),
            base64_digit(z % 64),
        ] + base64_standard(b.subrange(3, b.len() as int))
    }
}

/// `general_purpose::STANDARD.encode(bytes)` of the `base64` crate: the
/// RFC 4648 encoding with the standard alphabet and padding.
#[verifier::external_body]
fn base64_encode(bytes: &[u8]) -> (r: String)
    ensures
        r@ == base64_standard(bytes@),
{
    general_purpose::STANDARD.encode(bytes)
}

/// The text basic authentication encodes: `username:password`.
pub open spec fn basic_credentials(username: Seq<char>, password: Seq<char>) -> Seq<char> {
    username + ":"@ + password
}

/// The basic-authentication token: the base64 of the UTF-8 bytes of
/// `username:password`.
pub fn basic_token(username: &str, password: &str) -> (r: String)
    ensures
        r@ == base64_standard(encode_utf8(basic_credentials(username@, password@))),
{
    let mut text = String::from_str(username);
    text.append(":");
    text.append(password);
    let t = text.as_str();
    let bytes = t.as_bytes();
    base64_encode(bytes)
}

/// The header a request carries: for the `basic` mode (exactly, after
/// trimming) the basic `Authorization` header or its error, for other modes
/// none.
pub fn request_auth_header(credentials: &EwsCredentials) -> (r: Result<Option<String>, EwsError>)
    ensures
        auth_mode_of(credentials.auth_mode@) != "basic"@ ==> r matches Ok(None),
        auth_mode_of(credentials.auth_mode@) == "basic"@ ==> match r {
            Ok(Some(h)) => header_for_mode(str_lowercase("basic"@), base64_standard(encode_utf8(
                basic_credentials(credentials.username@, credentials.password@),
            ))) == Ok::<Seq<char>, Seq<char>>(h@),
            Ok(None) => false,
            Err(e) => e is AuthError && Err::<Seq<char>, Seq<char>>(e->AuthError_0@)
                == header_for_mode(str_lowercase("basic"@), base64_standard(encode_utf8(
                basic_credentials(credentials.username@, credentials.password@),
            ))),
        },
        auth_mode_of(credentials.auth_mode@) == "basic"@ ==> (r matches Ok(Some(h)) && h@ == "Basic "@
            + base64_standard(encode_utf8(basic_credentials(credentials.username@, credentials.password@)))),
{
    let mode = normalized_auth_mode(credentials.auth_mode.as_str());
    let m = chars_of(mode.as_str());
    if chars_eq_str(m.as_slice(), "basic") {
        let token = basic_token(credentials.username.as_str(), credentials.password.as_str());
        proof {
            reveal_strlit("basic");
            let b = "basic"@;
            assert(all_ascii(b));
            assert(ascii_lower_seq(b) =~= b);
        }
        match authorization_header(credentials, token.as_str()) {
            Ok(h) => Ok(Some(h)),
            Err(e) => Err(e),
        }
    } else {
        Ok(None)
    }
}


proof fn lemma_lowercase_word(s: Seq<char>)
    requires
        s.len() > 0,
        forall|i: int| 0 <= i < s.len() ==> 'a' <= #[trigger] s[i] && s[i] <= 'z',
    ensures
        trim(s) == s,
        ascii_lower_seq(s) == s,
{
    assert(s[0] == s[0]);
    assert(s.last() == s[s.len() - 1]);
    assert(trim_start(s) == s);
    assert(trim_end(s) == s);
    assert(ascii_lower_seq(s) =~= s);
}

/// A folder name that stands for a distinguished folder resolves, given the
/// distinguished id itself, to that same id: resolving is idempotent.
pub proof fn distinguished_id_is_stable(name: Seq<char>)
    requires
        distinguished_id(name) is Some,
    ensures
        distinguished_id(distinguished_id(name)->0) == distinguished_id(name),
{
    reveal_strlit("inbox");
    reveal_strlit("sent");
    reveal_strlit("sentitems");
    reveal_strlit("sent_items");
    reveal_strlit("sent items");
    reveal_strlit("draft");
    reveal_strlit("drafts");
    reveal_strlit("deleted");
    reveal_strlit("deleteditems");
    reveal_strlit("deleted_items");
    reveal_strlit("deleted items");
    reveal_strlit("trash");
    reveal_strlit("junk");
    reveal_strlit("junkemail");
    reveal_strlit("junk_email");
    reveal_strlit("junk email");
    reveal_strlit("spam");
    reveal_strlit("archive");
    reveal_strlit("outbox");
    reveal_strlit("calendar");
    reveal_strlit("contacts");
    reveal_strlit("tasks");
    let d = distinguished_id(name)->0;
    assert(forall|i: int| 0 <= i < d.len() ==> 'a' <= #[trigger] d[i] && d[i] <= 'z');
    lemma_lowercase_word(d);
}


/// The EWS endpoint a configured or discovered URL stands for: kept when it
/// already ends with `/EWS/Exchange.asmx`; an Autodiscover URL has its
/// Autodiscover path replaced; a URL ending with `/` gets
/// `EWS/Exchange.asmx`; one holding `/EWS/` is kept; any other gets
/// `/EWS/Exchange.asmx` appended.
pub open spec fn normalized_ews_url(url: Seq<char>) -> Seq<char> {
    if has_suffix(url, "/EWS/Exchange.asmx"@) {
        url
    } else if has_suffix(url, "/Autodiscover/Autodiscover.xml"@) {
        replace_from(url, "/Autodiscover/Autodiscover.xml"@, "/EWS/Exchange.asmx"@, 0)
    } else if has_suffix(url, "/"@) {
        url + "EWS/Exchange.asmx"@
    } else if contains(url, "/EWS/"@) {
        url
    } else {
        url + "/EWS/Exchange.asmx"@
    }
}

/// The EWS endpoint for a URL.
pub fn normalize_ews_url(url: &str) -> (r: String)
    ensures
        r@ == normalized_ews_url(url@),
{
    if str_ends_with(url, "/EWS/Exchange.asmx") {
        return String::from_str(url);
    }
    if str_ends_with(url, "/Autodiscover/Autodiscover.xml") {
        let v = chars_of(url);
        let pat = chars_of("/Autodiscover/Autodiscover.xml");
        let rep = chars_of("/EWS/Exchange.asmx");
        proof {
            reveal_strlit("/Autodiscover/Autodiscover.xml");
        }
        let out = replace_all(v.as_slice(), pat.as_slice(), rep.as_slice());
        return string_from_chars(out.as_slice());
    }
    if str_ends_with(url, "/") {
        let mut r = String::from_str(url);
        r.append("EWS/Exchange.asmx");
        return r;
    }
    if str_contains(url, "/EWS/") {
        return String::from_str(url);
    }
    let mut r = String::from_str(url);
    r.append("/EWS/Exchange.asmx");
    r
}

/// Two occurrences of the Autodiscover path never overlap.
proof fn lemma_autodiscover_path_no_overlap(s: Seq<char>, j: int, k: int)
    requires
        j < k < j + "/Autodiscover/Autodiscover.xml"@.len(),
    ensures
        !(occurs_at(s, "/Autodiscover/Autodiscover.xml"@, j) && occurs_at(
            s,
            "/Autodiscover/Autodiscover.xml"@,
            k,
        )),
{
    reveal_strlit("/Autodiscover/Autodiscover.xml");
    let p = "/Autodiscover/Autodiscover.xml"@;
    if occurs_at(s, p, j) && occurs_at(s, p, k) {
        let d = k - j;
        assert(s.subrange(j, j + 30)[d] == s[k]);
        assert(s.subrange(k, k + 30)[0] == s[k]);
        assert(p[d] == '/');
        assert(d == 13);
        assert(s.subrange(j, j + 30)[26] == s[k + 13]);
        assert(s.subrange(k, k + 30)[13] == s[k + 13]);
    }
}

/// Normalizing an EWS URL twice gives what normalizing it once gives.
pub proof fn normalize_ews_url_is_idempotent(url: Seq<char>)
    ensures
        normalized_ews_url(normalized_ews_url(url)) == normalized_ews_url(url),
{
    reveal_strlit("/EWS/Exchange.asmx");
    reveal_strlit("/Autodiscover/Autodiscover.xml");
    reveal_strlit("EWS/Exchange.asmx");
    reveal_strlit("/");
    let e = "/EWS/Exchange.asmx"@;
    let n = normalized_ews_url(url);
    if has_suffix(url, e) {
    } else if has_suffix(url, "/Autodiscover/Autodiscover.xml"@) {
        let p = "/Autodiscover/Autodiscover.xml"@;
        assert forall|j: int|
            0 <= j < url.len() - p.len() && #[trigger] occurs_at(url, p, j) implies j + p.len()
                <= url.len() - p.len() by {
            if url.len() - p.len() < j + p.len() {
                lemma_autodiscover_path_no_overlap(url, j, url.len() - p.len());
            }
        }
        lemma_replace_keeps_last(url, p, e, 0);
    } else if has_suffix(url, "/"@) {
        let t = url + "EWS/Exchange.asmx"@;
        assert(url.subrange(url.len() - 1, url.len() as int)[0] == url[url.len() - 1]);
        assert(url[url.len() - 1] == '/');
        assert(t.subrange(t.len() - e.len(), t.len() as int) =~= e);
    } else if contains(url, "/EWS/"@) {
    } else {
        let t = url + e;
        assert(t.subrange(t.len() - e.len(), t.len() as int) =~= e);
    }
}

/// The EWS URL an Autodiscover response names (`EwsUrl`, `ExternalEwsUrl`
/// or `InternalEwsUrl`, the first text of the first such element), as an
/// endpoint.
pub open spec fn autodiscover_ews_url(xml: Seq<char>) -> Option<Seq<char>> {
    match tag_value(xml_events(xml), seq!["EwsUrl"@, "ExternalEwsUrl"@, "InternalEwsUrl"@]) {
        Some(u) => Some(normalized_ews_url(u)),
        None => None,
    }
}

/// The EWS URL in an Autodiscover response, if it names one.
pub fn extract_ews_url_from_autodiscover(xml: &str) -> (r: Option<String>)
    ensures
        opt_string_view(r) == autodiscover_ews_url(xml@),
{
    let candidates: Vec<&str> = vec!["EwsUrl", "ExternalEwsUrl", "InternalEwsUrl"];
    assert(candidates@.map_values(|c: &str| c@) =~= seq!["EwsUrl"@, "ExternalEwsUrl"@, "InternalEwsUrl"@]);
    match extract_tag_value(xml, &candidates) {
        Some(u) => Some(normalize_ews_url(u.as_str())),
        None => None,
    }
}

/// The redirect URL of an Autodiscover response (`RedirectUrl`).
pub open spec fn autodiscover_redirect_url(xml: Seq<char>) -> Option<Seq<char>> {
    tag_value(xml_events(xml), seq!["RedirectUrl"@])
}

/// The redirect URL in an Autodiscover response, if any.
pub fn extract_redirect_url_from_autodiscover(xml: &str) -> (r: Option<String>)
    ensures
        opt_string_view(r) == autodiscover_redirect_url(xml@),
{
    let candidates: Vec<&str> = vec!["RedirectUrl"];
    assert(candidates@.map_values(|c: &str| c@) =~= seq!["RedirectUrl"@]);
    extract_tag_value(xml, &candidates)
}


/// `Option<String>` as `{:?}` writes it (`None`, or `Some("…")` with the
/// text escaped as `str`'s `Debug` escapes it).
pub uninterp spec fn option_debug_text(v: Option<Seq<char>>) -> Seq<char>;

/// `format!("{:?}", v)` for an optional text.  The contract names std's
/// `Debug` rendering; it does not restate its escaping rules.
#[verifier::external_body]
pub(crate) fn option_debug(v: &Option<String>) -> (r: String)
    ensures
        r@ == option_debug_text(opt_string_view(*v)),
{
    format!("{:?}", v)
}

/// What an EWS answer comes to: a status outside 2xx is an error that
/// shows the status, the `WWW-Authenticate` header and the body; a body
/// holding a SOAP fault is an error with the fault string; any other body
/// is the answer.
pub open spec fn soap_answer(status: u16, www_authenticate: Option<Seq<char>>, body: Seq<char>) -> Result<Seq<char>, Seq<char>> {
    if status < 200 || status >= 300 {
        Err("HTTP "@ + decimal(status as nat) + " auth="@ + option_debug_text(www_authenticate)
            + ": "@ + body)
    } else if contains(body, "<soap:Fault>"@) || contains(body, "<Fault>"@) {
        Err(fault_string(body))
    } else {
        Ok(body)
    }
}

/// The body, or the SOAP error message, as a plain result.
pub open spec fn soap_result_view(r: Result<String, EwsError>) -> Result<Seq<char>, Seq<char>> {
    match r {
        Ok(b) => Ok(b@),
        Err(EwsError::SoapError(m)) => Err(m@),
        Err(_) => Err(seq![]),
    }
}

/// Checks an EWS answer: its body when it succeeded, else a `SoapError`.
pub fn check_soap_response(status: u16, www_authenticate: &Option<String>, body: String) -> (r: Result<String, EwsError>)
    ensures
        r is Err ==> r->Err_0 is SoapError,
        soap_result_view(r) == soap_answer(status, opt_string_view(*www_authenticate), body@),
{
    if status < 200 || status >= 300 {
        let mut m = String::from_str("HTTP ");
        m.append(format_u64(status as u64).as_str());
        m.append(" auth=");
        m.append(option_debug(www_authenticate).as_str());
        m.append(": ");
        m.append(body.as_str());
        return Err(EwsError::SoapError(m));
    }
    if str_contains(body.as_str(), "<soap:Fault>") || str_contains(body.as_str(), "<Fault>") {
        return Err(EwsError::SoapError(extract_fault_string(body.as_str())));
    }
    Ok(body)
}

/// The number of attempts a request gets: the configured number, at least
/// one.
pub open spec fn attempt_limit(max_attempts: u32) -> u32 {
    if max_attempts < 1 {
        1
    } else {
        max_attempts
    }
}

/// How many attempts a request gets.
pub fn retry_attempts(options: &EwsClientOptions) -> (r: u32)
    ensures
        r == attempt_limit(options.retry_max_attempts),
        r >= 1,
{
    if options.retry_max_attempts < 1 {
        1
    } else {
        options.retry_max_attempts
    }
}

/// Whether the outcome of an attempt is worth another one: a retryable
/// status, or a transient transport failure.
pub open spec fn retryable_outcome(outcome: Result<u16, EwsError>) -> bool {
    match outcome {
        Ok(status) => retryable_status(status),
        Err(e) => retryable_error(e),
    }
}

/// The wait before the next attempt after attempt `attempt` (counted from
/// one) of `attempts`, or `None` when its outcome is final: it is not
/// retryable, or it was the last attempt.
pub open spec fn retry_wait(attempt: u32, attempts: u32, outcome: Result<u16, EwsError>, base_ms: u64, max_backoff_ms: u64) -> Option<nat> {
    if retryable_outcome(outcome) && attempt < attempts {
        Some(backoff_ms(attempt, base_ms, max_backoff_ms))
    } else {
        None
    }
}

/// Decides, after an attempt, whether to wait and try again.
pub fn retry_delay(attempt: u32, attempts: u32, outcome: &Result<u16, EwsError>, options: &EwsClientOptions) -> (r: Option<u64>)
    ensures
        match r {
            Some(ms) => retry_wait(attempt, attempts, *outcome, options.retry_base_ms, options.retry_max_backoff_ms)
                == Some(ms as nat),
            None => retry_wait(attempt, attempts, *outcome, options.retry_base_ms, options.retry_max_backoff_ms) is None,
        },
        r is Some ==> attempt < attempts,
{
    let retryable = match outcome {
        Ok(status) => is_retryable_http_status(*status),
        Err(e) => is_retryable_error(e),
    };
    if retryable && attempt < attempts {
        Some(backoff_delay(attempt, options.retry_base_ms, options.retry_max_backoff_ms))
    } else {
        None
    }
}

/// The value of a `WWW-Authenticate` header line (name matched without
/// regard to ASCII case, value trimmed), or `None` for another header.
pub open spec fn www_authenticate_of(line: Seq<char>) -> Option<Seq<char>> {
    match find_from(line, seq![':'], 0) {
        Some(i) => if eq_ignore_ascii_case(line.subrange(0, i), "www-authenticate"@) {
            Some(trim(line.subrange(i + 1, line.len() as int)))
        } else {
            None
        },
        None => None,
    }
}

/// Reads a `WWW-Authenticate` header out of one raw header line.
pub fn www_authenticate_value(line: &str) -> (r: Option<String>)
    ensures
        opt_string_view(r) == www_authenticate_of(line@),
{
    let v = chars_of(line);
    let colon: Vec<char> = vec![':'];
    assert(colon@ =~= seq![':']);
    match find_substr(v.as_slice(), colon.as_slice(), 0) {
        Some(i) => {
            let vlen = v.len();
            assert(i + 1 <= vlen);
            let name = string_from_chars(copy_range(v.as_slice(), 0, i).as_slice());
            if str_eq_ignore_ascii_case(name.as_str(), "www-authenticate") {
                let value = copy_range(v.as_slice(), i + 1, v.len());
                Some(string_from_chars(trim_chars(value.as_slice()).as_slice()))
            } else {
                None
            }
        },
        None => None,
    }
}

/// The URL an `EwsClient` starts with: the configured one, else the
/// Office 365 endpoint.
pub open spec fn initial_ews_url(configured: Option<Seq<char>>) -> Seq<char> {
    match configured {
        Some(u) => u,
        None => "https://autodiscover.outlook.com/EWS/Exchange.asmx"@,
    }
}

/// The URL a client starts with.
pub fn starting_ews_url(configured: Option<String>) -> (r: String)
    ensures
        r@ == initial_ews_url(opt_string_view(configured)),
{
    match configured {
        Some(u) => u,
        None => String::from_str("https://autodiscover.outlook.com/EWS/Exchange.asmx"),
    }
}

/// The domain part of an address, as `split('@').nth(1)`: what lies
/// between the first `@` and the next one, or the end.
pub open spec fn email_domain(email: Seq<char>) -> Option<Seq<char>> {
    match find_from(email, seq!['@'], 0) {
        Some(i) => match find_from(email, seq!['@'], i + 1) {
            Some(j) => Some(email.subrange(i + 1, j)),
            None => Some(email.subrange(i + 1, email.len() as int)),
        },
        None => None,
    }
}

/// The domain, or the authentication error, as a plain result.
pub open spec fn domain_result_view(r: Result<String, EwsError>) -> Result<Seq<char>, Seq<char>> {
    match r {
        Ok(d) => Ok(d@),
        Err(EwsError::AuthError(m)) => Err(m@),
        Err(_) => Err(seq![]),
    }
}

/// The domain Autodiscover asks about: an empty address and one without
/// `@` are refused.
pub open spec fn autodiscover_domain_of(email: Seq<char>) -> Result<Seq<char>, Seq<char>> {
    if email.len() == 0 {
        Err("Email required for autodiscover"@)
    } else {
        match email_domain(email) {
            Some(d) => Ok(d),
            None => Err("invalid email address"@),
        }
    }
}

/// The domain of the account's address, for Autodiscover.
pub fn autodiscover_domain(email: &str) -> (r: Result<String, EwsError>)
    ensures
        r is Err ==> r->Err_0 is AuthError,
        domain_result_view(r) == autodiscover_domain_of(email@),
{
    if email.is_empty() {
        return Err(EwsError::AuthError(String::from_str("Email required for autodiscover")));
    }
    let v = chars_of(email);
    let at: Vec<char> = vec!['@'];
    assert(at@ =~= seq!['@']);
    match find_substr(v.as_slice(), at.as_slice(), 0) {
        Some(i) => {
            let vlen = v.len();
            assert(i + 1 <= vlen);
            match find_substr(v.as_slice(), at.as_slice(), i + 1) {
                Some(j) => Ok(string_from_chars(copy_range(v.as_slice(), i + 1, j).as_slice())),
                None => Ok(string_from_chars(copy_range(v.as_slice(), i + 1, v.len()).as_slice())),
            }
        },
        None => Err(EwsError::AuthError(String::from_str("invalid email address"))),
    }
}

/// The Autodiscover endpoints tried for a domain, in order.
pub open spec fn autodiscover_urls(domain: Seq<char>) -> Seq<Seq<char>> {
    seq![
        "https://autodiscover."@ + domain + "/Autodiscover/Autodiscover.xml"@,
        "https://"@ + domain + "/Autodiscover/Autodiscover.xml"@,
    ]
}

/// The Autodiscover endpoints for a domain.
pub fn autodiscover_candidates(domain: &str) -> (r: Vec<String>)
    ensures
        r@.map_values(|u: String| u@) == autodiscover_urls(domain@),
{
    let mut first = String::from_str("https://autodiscover.");
    first.append(domain);
    first.append("/Autodiscover/Autodiscover.xml");
    let mut second = String::from_str("https://");
    second.append(domain);
    second.append("/Autodiscover/Autodiscover.xml");
    let r = vec![first, second];
    assert(r@.map_values(|u: String| u@) =~= autodiscover_urls(domain@));
    r
}

/// What one Autodiscover answer gives: the EWS endpoint it names or
/// redirects to, or the reason to try the next candidate.
pub open spec fn autodiscover_answer(status: u16, body: Seq<char>) -> Result<Seq<char>, Seq<char>> {
    if status < 200 || status >= 300 {
        Err("HTTP "@ + decimal(status as nat))
    } else {
        match autodiscover_ews_url(body) {
            Some(u) => Ok(u),
            None => match autodiscover_redirect_url(body) {
                Some(r) => Ok(normalized_ews_url(r)),
                None => Err("autodiscover response did not contain EwsUrl"@),
            },
        }
    }
}

/// A plain view of a result of two texts.
pub open spec fn text_result_view(r: Result<String, String>) -> Result<Seq<char>, Seq<char>> {
    match r {
        Ok(a) => Ok(a@),
        Err(b) => Err(b@),
    }
}

/// Reads one Autodiscover answer.
pub fn autodiscover_outcome(status: u16, body: &str) -> (r: Result<String, String>)
    ensures
        text_result_view(r) == autodiscover_answer(status, body@),
{
    if status < 200 || status >= 300 {
        let mut m = String::from_str("HTTP ");
        m.append(format_u64(status as u64).as_str());
        return Err(m);
    }
    match extract_ews_url_from_autodiscover(body) {
        Some(u) => Ok(u),
        None => match extract_redirect_url_from_autodiscover(body) {
            Some(r) => Ok(normalize_ews_url(r.as_str())),
            None => Err(String::from_str("autodiscover response did not contain EwsUrl")),
        },
    }
}

/// The error after every Autodiscover endpoint failed.
pub open spec fn autodiscover_failure_message(domain: Seq<char>, last_error: Option<Seq<char>>) -> Seq<char> {
    "autodiscover failed for domain "@ + domain + ": "@ + match last_error {
        Some(e) => e,
        None => "unknown error"@,
    }
}

/// The `NotFound` error that ends a failed Autodiscover.
pub fn autodiscover_failure(domain: &str, last_error: Option<String>) -> (r: EwsError)
    ensures
        r matches EwsError::NotFound(m) && m@ == autodiscover_failure_message(
            domain@,
            opt_string_view(last_error),
        ),
{
    let mut m = String::from_str("autodiscover failed for domain ");
    m.append(domain);
    m.append(": ");
    match last_error {
        Some(e) => m.append(e.as_str()),
        None => m.append("unknown error"),
    }
    EwsError::NotFound(m)
}

/// The id of the first item, when there is one and it is not blank.
pub open spec fn first_nonblank_id(items: Seq<Email>) -> Option<Seq<char>> {
    if items.len() > 0 && trim(items[0].item_id.id@).len() > 0 {
        Some(items[0].item_id.id@)
    } else {
        None
    }
}

fn first_nonblank_id_of(items: &Vec<Email>) -> (r: Option<String>)
    ensures
        opt_string_view(r) == first_nonblank_id(items@),
{
    if items.len() > 0 && !is_blank(items[0].item_id.id.as_str()) {
        Some(items[0].item_id.id.clone())
    } else {
        None
    }
}

/// The id a `CreateItem` answer reports: that of its first message, else
/// the first non-blank `ItemId` of the XML, else a placeholder when the
/// answer reports success.
pub open spec fn created_id(parsed_first: Option<Seq<char>>, xml: Seq<char>) -> Option<Seq<char>> {
    match parsed_first {
        Some(id) => Some(id),
        None => match first_item_id_from(xml_events(xml), 0) {
            Some(id) => Some(id),
            None => if indicates_success(xml) {
                Some("sent-no-itemid"@)
            } else {
                None
            },
        },
    }
}

/// The id, or the `NotFound` message, as a plain result.
pub open spec fn id_result_view(r: Result<String, EwsError>) -> Option<Seq<char>> {
    match r {
        Ok(id) => Some(id@),
        Err(_) => None,
    }
}

/// The id of the message `CreateItem` sent, from the decoded answer when it
/// could be decoded and from its XML.
pub fn created_item_id(parsed: Option<CreateItemResponse>, xml: &str) -> (r: Result<String, EwsError>)
    ensures
        id_result_view(r) == created_id(
            match parsed {
                Some(p) => first_nonblank_id(p.response_messages.create_item.items.messages@),
                None => None,
            },
            xml@,
        ),
        r matches Err(EwsError::NotFound(m)) ==> m@ == "item id not found in CreateItem response"@,
        r is Err ==> r->Err_0 is NotFound,
{
    let first = match &parsed {
        Some(p) => first_nonblank_id_of(&p.response_messages.create_item.items.messages),
        None => None,
    };
    match first {
        Some(id) => return Ok(id),
        None => {},
    }
    match extract_first_item_id_from_xml(xml) {
        Some(id) => return Ok(id),
        None => {},
    }
    if xml_indicates_success(xml) {
        return Ok(String::from_str("sent-no-itemid"));
    }
    Err(EwsError::NotFound(String::from_str("item id not found in CreateItem response")))
}

/// The id a `MoveItem` answer reports: its `ItemId` when not blank, else
/// that of its first message, else the first non-blank `ItemId` of the
/// XML, else the original id when the answer reports success.
pub open spec fn moved_id(parsed: Option<(Option<Seq<char>>, Option<Seq<char>>)>, xml: Seq<char>, item_id: Seq<char>) -> Option<Seq<char>> {
    let from_parsed = match parsed {
        Some((direct, first)) => match direct {
            Some(d) => if trim(d).len() > 0 {
                Some(d)
            } else {
                first
            },
            None => first,
        },
        None => None,
    };
    match from_parsed {
        Some(id) => Some(id),
        None => match first_item_id_from(xml_events(xml), 0) {
            Some(id) => Some(id),
            None => if indicates_success(xml) {
                Some(item_id)
            } else {
                None
            },
        },
    }
}

/// The ids a decoded `MoveItem` answer carries: its `ItemId`, and the
/// first message's id when not blank.
pub open spec fn move_answer_ids(p: MoveItemResponse) -> (Option<Seq<char>>, Option<Seq<char>>) {
    (
        match p.response_messages.move_item.items.item_id {
            Some(i) => Some(i.id@),
            None => None,
        },
        first_nonblank_id(p.response_messages.move_item.items.messages@),
    )
}

/// The id of the moved item.
pub fn moved_item_id(parsed: Option<MoveItemResponse>, xml: &str, item_id: &str) -> (r: Result<String, EwsError>)
    ensures
        id_result_view(r) == moved_id(
            match parsed {
                Some(p) => Some(move_answer_ids(p)),
                None => None,
            },
            xml@,
            item_id@,
        ),
        r matches Err(EwsError::NotFound(m)) ==> m@ == "item id not found in MoveItem response"@,
        r is Err ==> r->Err_0 is NotFound,
{
    match &parsed {
        Some(p) => {
            match &p.response_messages.move_item.items.item_id {
                Some(i) => {
                    if !is_blank(i.id.as_str()) {
                        return Ok(i.id.clone());
                    }
                },
                None => {},
            }
            match first_nonblank_id_of(&p.response_messages.move_item.items.messages) {
                Some(id) => return Ok(id),
                None => {},
            }
        },
        None => {},
    }
    match extract_first_item_id_from_xml(xml) {
        Some(id) => return Ok(id),
        None => {},
    }
    if xml_indicates_success(xml) {
        return Ok(String::from_str(item_id));
    }
    Err(EwsError::NotFound(String::from_str("item id not found in MoveItem response")))
}

/// The message a `GetItem` answer holds, or `NotFound` when it holds none.
pub fn first_item(response: GetItemResponse) -> (r: Result<Email, EwsError>)
    ensures
        response.response_messages.get_item.items.messages@.len() > 0 ==> r == Ok::<Email, EwsError>(
            response.response_messages.get_item.items.messages@[0],
        ),
        response.response_messages.get_item.items.messages@.len() == 0 ==> (r matches Err(
            EwsError::NotFound(m),
        ) && m@ == "item not found in GetItem response"@),
{
    let mut messages = response.response_messages.get_item.items.messages;
    if messages.len() > 0 {
        Ok(messages.remove(0))
    } else {
        Err(EwsError::NotFound(String::from_str("item not found in GetItem response")))
    }
}


/// No character of an escaped text starts markup or closes a quoted
/// attribute: escaped text holds no `<`, `>`, `"` or `'`.
pub proof fn escaped_holds_no_markup(s: Seq<char>)
    ensures
        forall|i: int|
            0 <= i < escaped(s).len() ==> {
                let c = #[trigger] escaped(s)[i];
                c != '<' && c != '>' && c != '"' && c != '\''
            },
    decreases s.len(),
{
    if s.len() > 0 {
        escaped_holds_no_markup(s.drop_last());
        let a = escaped(s.drop_last());
        let b = escape_char(s.last());
        assert forall|i: int| 0 <= i < escaped(s).len() implies {
            let c = #[trigger] escaped(s)[i];
            c != '<' && c != '>' && c != '"' && c != '\''
        } by {
            if i < a.len() {
                assert(escaped(s)[i] == a[i]);
            } else {
                assert(escaped(s)[i] == b[i - a.len()]);
            }
        }
    }
}

/// The wait before a retry never exceeds the configured cap by more than
/// the jitter (250 ms).
pub proof fn backoff_is_bounded(attempt: u32, base_ms: u64, max_backoff_ms: u64)
    ensures
        backoff_ms(attempt, base_ms, max_backoff_ms) <= max_backoff_ms + 250,
{
}

} // verus!
