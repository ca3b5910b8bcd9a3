//! Body analysis: content type, binary detection, truncation and preview.

use vstd::prelude::*;
use vstd::string::*;
use vstd::utf8::*;
use crate::text::{decimal, decimal_string, ends_with, is_prefix, is_suffix, same_text, starts_with};

verus! {

/// One header as received: its name, as the HTTP library spells it (lower case),
/// and its raw value bytes.
pub type HeaderPair = (String, Vec<u8>);

/// What is captured of a request or response body.
pub struct BodyRecord {
    pub content_type: Option<String>,
    pub size: usize,
    pub preview: String,
    pub is_binary: bool,
    pub truncated: bool,
}

impl Clone for BodyRecord {
    fn clone(&self) -> (r: Self)
        ensures
            r == *self,
    {
        let content_type = match &self.content_type {
            Some(s) => Some(s.clone()),
            None => None,
        };
        BodyRecord {
            content_type,
            size: self.size,
            preview: self.preview.clone(),
            is_binary: self.is_binary,
            truncated: self.truncated,
        }
    }
}

/// The text of an optional string.
pub open spec fn opt_view(o: Option<String>) -> Option<Seq<char>> {
    match o {
        Some(s) => Some(s@),
        None => None,
    }
}

/// The essence (`type/subtype`, lower case, without parameters) of a content type,
/// or `None` where it is no valid media type.
pub uninterp spec fn mime_essence(ct: Seq<char>) -> Option<Seq<char>>;

/// Relies on mime's `FromStr for Mime` and `Mime::essence_str`: the parsed media
/// type's essence, which depends on the text alone.
#[verifier::external_body]
fn parse_mime_essence(ct: &str) -> (r: Option<String>)
    ensures
        opt_view(r) == mime_essence(ct@),
{
    match ct.parse::<mime::Mime>() {
        Ok(m) => Some(m.essence_str().to_string()),
        Err(_) => None,
    }
}

/// Relies on std::str::from_utf8: it succeeds exactly on valid UTF-8, and the text
/// then holds the same bytes.
#[verifier::external_body]
fn utf8_text(b: &[u8]) -> (r: Option<String>)
    ensures
        r is Some <==> valid_utf8(b@),
        r matches Some(s) ==> s@ == decode_utf8(b@) && encode_utf8(s@) == b@,
{
    match std::str::from_utf8(b) {
        Ok(s) => Some(s.to_string()),
        Err(_) => None,
    }
}

/// Media types whose bodies are text whatever bytes they hold.
pub open spec fn textual_essence(e: Seq<char>) -> bool {
    ||| is_prefix("text/"@, e)
    ||| e == "application/json"@
    ||| e == "application/javascript"@
    ||| e == "application/xml"@
    ||| (is_prefix("application/"@, e) && is_suffix("+xml"@, e))
    ||| (is_prefix("application/"@, e) && is_suffix("+json"@, e))
}

/// A control byte other than tab, line feed and carriage return.
pub open spec fn is_control(x: u8) -> bool {
    x < 32 && x != 9 && x != 10 && x != 13
}

/// The number of control bytes in `b`.
pub open spec fn control_count(b: Seq<u8>) -> nat
    decreases b.len(),
{
    if b.len() == 0 {
        0
    } else {
        control_count(b.drop_last()) + if is_control(b.last()) { 1nat } else { 0nat }
    }
}

/// `b` holds a zero byte.
pub open spec fn has_nul(b: Seq<u8>) -> bool {
    exists|i: int| 0 <= i < b.len() && b[i] == 0
}

/// The byte heuristic: a non-empty body with a zero byte, or with more than 30%
/// control bytes, is binary.
pub open spec fn heuristic_binary(b: Seq<u8>) -> bool {
    b.len() > 0 && (has_nul(b) || 10 * control_count(b) > 3 * b.len())
}

/// Whether a body is binary, given the essence of its content type (if any parsed).
pub open spec fn binary_body(b: Seq<u8>, essence: Option<Seq<char>>) -> bool {
    b.len() > 0 && !(essence matches Some(e) && textual_essence(e)) && heuristic_binary(b)
}

/// The essence of an optional content type.
pub open spec fn essence_of(ct: Option<Seq<char>>) -> Option<Seq<char>> {
    match ct {
        Some(c) => mime_essence(c),
        None => None,
    }
}

/// The descriptive preview of a binary body of `n` bytes.
pub open spec fn binary_preview(n: nat) -> Seq<char> {
    "<binary data: "@ + decimal(n) + " bytes>"@
}

/// The descriptive preview of a body of `n` bytes whose kept prefix is no UTF-8.
pub open spec fn invalid_preview(n: nat) -> Seq<char> {
    "<invalid UTF-8: "@ + decimal(n) + " bytes>"@
}

/// The prefix of `b` that a preview keeps.
pub open spec fn kept(b: Seq<u8>, truncate_at: nat) -> Seq<u8> {
    if b.len() <= truncate_at { b } else { b.subrange(0, truncate_at as int) }
}

/// The preview of body `b`.
pub open spec fn preview_of(b: Seq<u8>, binary: bool, truncate_at: nat) -> Seq<char> {
    if binary {
        if b.len() == 0 { Seq::empty() } else { binary_preview(b.len()) }
    } else if valid_utf8(kept(b, truncate_at)) {
        decode_utf8(kept(b, truncate_at))
    } else {
        invalid_preview(b.len())
    }
}

/// `r` is the analysis of body `b` with content type `ct`, whose essence is `essence`.
pub open spec fn analysis(
    r: BodyRecord,
    b: Seq<u8>,
    ct: Option<Seq<char>>,
    essence: Option<Seq<char>>,
    truncate_at: nat,
) -> bool {
    &&& opt_view(r.content_type) == ct
    &&& r.size == b.len()
    &&& r.is_binary == binary_body(b, essence)
    &&& r.truncated == (b.len() > truncate_at)
    &&& r.preview@ == preview_of(b, binary_body(b, essence), truncate_at)
}

/// A byte that a header value may hold to be read as text.
pub open spec fn is_visible(x: u8) -> bool {
    (32 <= x && x < 127) || x == 9
}

/// Every byte of `b` is visible.
pub open spec fn all_visible(b: Seq<u8>) -> bool {
    forall|i: int| 0 <= i < b.len() ==> is_visible(b[i])
}

/// The text of a header value, where it is visible ASCII.
pub open spec fn header_str(b: Seq<u8>) -> Option<Seq<char>> {
    if all_visible(b) && valid_utf8(b) { Some(decode_utf8(b)) } else { None }
}

/// The value of the first header named `name`.
pub open spec fn first_header(h: Seq<HeaderPair>, name: Seq<char>) -> Option<Seq<u8>>
    decreases h.len(),
{
    if h.len() == 0 {
        None
    } else if h[0].0@ == name {
        Some(h[0].1@)
    } else {
        first_header(h.drop_first(), name)
    }
}

/// The content type of a header list: the first `content-type` value, where it is text.
pub open spec fn content_type_of(h: Seq<HeaderPair>) -> Option<Seq<char>> {
    match first_header(h, "content-type"@) {
        Some(v) => header_str(v),
        None => None,
    }
}

/// Whether a media type essence marks its bodies as text.
pub fn is_textual_essence(e: &str) -> (r: bool)
    ensures
        r == textual_essence(e@),
{
    starts_with(e, "text/")
        || same_text(e, "application/json")
        || same_text(e, "application/javascript")
        || same_text(e, "application/xml")
        || starts_with(e, "application/") && (ends_with(e, "+xml") || ends_with(e, "+json"))
}

/// The byte heuristic on a body.
pub fn looks_binary(data: &[u8]) -> (r: bool)
    ensures
        r == heuristic_binary(data@),
{
    let n = data.len();
    if n == 0 {
        return false;
    }
    let mut i: usize = 0;
    while i < n
        invariant
            i <= n,
            n == data@.len(),
            forall|j: int| 0 <= j < i ==> data@[j] != 0,
        decreases n - i,
    {
        if data[i] == 0 {
            return true;
        }
        i += 1;
    }
    let mut count: usize = 0;
    let mut k: usize = 0;
    while k < n
        invariant
            k <= n,
            n == data@.len(),
            count <= k,
            count == control_count(data@.subrange(0, k as int)),
        decreases n - k,
    {
        assert(data@.subrange(0, (k + 1) as int).drop_last() =~= data@.subrange(0, k as int));
        let x = data[k];
        if x < 32 && x != 9 && x != 10 && x != 13 {
            count += 1;
        }
        k += 1;
    }
    assert(data@.subrange(0, n as int) =~= data@);
    (count as u128) * 10 > (n as u128) * 3
}

/// Whether a body is binary, given the essence of its content type: a textual
/// media type decides for text, else the byte heuristic decides.
pub fn is_binary_with_essence(data: &[u8], essence: Option<&str>) -> (r: bool)
    ensures
        r == binary_body(data@, match essence { Some(e) => Some(e@), None => None }),
{
    if data.len() == 0 {
        return false;
    }
    if let Some(e) = essence {
        if is_textual_essence(e) {
            return false;
        }
    }
    looks_binary(data)
}

/// Whether a body with the given content type is binary.
pub fn is_binary_content(data: &[u8], content_type: Option<&str>) -> (r: bool)
    ensures
        r == binary_body(data@, essence_of(match content_type { Some(c) => Some(c@), None => None })),
{
    match content_type {
        Some(ct) => {
            let essence = parse_mime_essence(ct);
            match &essence {
                Some(e) => is_binary_with_essence(data, Some(e.as_str())),
                None => is_binary_with_essence(data, None),
            }
        },
        None => is_binary_with_essence(data, None),
    }
}

/// The text of a header value where every byte is visible ASCII.
pub fn header_value_str(v: &[u8]) -> (r: Option<String>)
    ensures
        opt_view(r) == header_str(v@),
{
    let n = v.len();
    let mut i: usize = 0;
    while i < n
        invariant
            i <= n,
            n == v@.len(),
            forall|j: int| 0 <= j < i ==> is_visible(v@[j]),
        decreases n - i,
    {
        let x = v[i];
        if !((32 <= x && x < 127) || x == 9) {
            return None;
        }
        i += 1;
    }
    utf8_text(v)
}

/// The text of a header value as the recorder keeps it: the value where it is
/// visible ASCII, else `<invalid>`.
pub fn header_value_text(v: &[u8]) -> (r: String)
    ensures
        r@ == match header_str(v@) { Some(t) => t, None => "<invalid>"@ },
{
    match header_value_str(v) {
        Some(t) => t,
        None => String::from_str("<invalid>"),
    }
}

/// The content type of a header list: the first `content-type` value, where it is text.
pub fn content_type(headers: &Vec<HeaderPair>) -> (r: Option<String>)
    ensures
        opt_view(r) == content_type_of(headers@),
{
    let n = headers.len();
    let mut i: usize = 0;
    assert(headers@.subrange(0, n as int) =~= headers@);
    while i < n
        invariant
            i <= n,
            n == headers@.len(),
            first_header(headers@, "content-type"@) == first_header(headers@.subrange(i as int, n as int), "content-type"@),
        decreases n - i,
    {
        assert(headers@.subrange(i as int, n as int).drop_first() =~= headers@.subrange(i + 1, n as int));
        if same_text(headers[i].0.as_str(), "content-type") {
            return header_value_str(headers[i].1.as_slice());
        }
        i += 1;
    }
    None
}

/// The analysis of a body whose content type is `content_type` and whose media type
/// essence is `essence`.
pub fn analyze_with_essence(
    body: &[u8],
    content_type: Option<String>,
    essence: Option<&str>,
    truncate_at: usize,
) -> (r: BodyRecord)
    ensures
        analysis(r, body@, opt_view(content_type), match essence { Some(e) => Some(e@), None => None }, truncate_at as nat),
{
    let size = body.len();
    let is_binary = is_binary_with_essence(body, essence);
    let truncated = size > truncate_at;
    let preview = if is_binary {
        if size == 0 {
            String::new()
        } else {
            let mut p = String::from_str("<binary data: ");
            let digits = decimal_string(size);
            p.append(digits.as_str());
            p.append(" bytes>");
            p
        }
    } else {
        let end = if truncated { truncate_at } else { size };
        let kept_bytes = slice_prefix(body, end);
        assert(kept_bytes@ == kept(body@, truncate_at as nat));
        match utf8_text(kept_bytes) {
            Some(t) => t,
            None => {
                let mut p = String::from_str("<invalid UTF-8: ");
                let digits = decimal_string(size);
                p.append(digits.as_str());
                p.append(" bytes>");
                p
            },
        }
    };
    BodyRecord { content_type, size, preview, is_binary, truncated }
}

/// Analyzes a body: its content type from the headers, whether it is binary, whether
/// it is longer than `truncate_at`, and its preview.
pub fn analyze_body(body: &[u8], headers: &Vec<HeaderPair>, truncate_at: usize) -> (r: BodyRecord)
    ensures
        analysis(r, body@, content_type_of(headers@), essence_of(content_type_of(headers@)), truncate_at as nat),
{
    let ct = content_type(headers);
    match &ct {
        Some(c) => {
            let essence = parse_mime_essence(c.as_str());
            let ct2 = Some(c.clone());
            match &essence {
                Some(e) => analyze_with_essence(body, ct2, Some(e.as_str()), truncate_at),
                None => analyze_with_essence(body, ct2, None, truncate_at),
            }
        },
        None => analyze_with_essence(body, None, None, truncate_at),
    }
}

/// A body with a zero byte is binary, unless its content type is a textual one.
pub proof fn lemma_nul_is_binary(b: Seq<u8>, essence: Option<Seq<char>>)
    requires
        has_nul(b),
        !(essence matches Some(e) && textual_essence(e)),
    ensures
        binary_body(b, essence),
{
}

/// A body of valid UTF-8 no longer than `truncate_at` that is not found binary is
/// kept whole: its preview is its text, and it is not marked truncated.
pub proof fn lemma_short_text_kept_whole(b: Seq<u8>, essence: Option<Seq<char>>, truncate_at: nat)
    requires
        valid_utf8(b),
        b.len() <= truncate_at,
        !binary_body(b, essence),
    ensures
        preview_of(b, binary_body(b, essence), truncate_at) == decode_utf8(b),
        encode_utf8(preview_of(b, binary_body(b, essence), truncate_at)) == b,
        !(b.len() > truncate_at),
{
    decode_utf8_encode_utf8(b);
}

/// A body longer than `truncate_at` is marked truncated; where it is not binary and
/// its kept prefix is valid UTF-8, its preview takes at most `truncate_at` bytes.
pub proof fn lemma_long_body_truncated(b: Seq<u8>, essence: Option<Seq<char>>, truncate_at: nat)
    requires
        b.len() > truncate_at,
        !binary_body(b, essence) ==> valid_utf8(kept(b, truncate_at)),
    ensures
        b.len() > truncate_at,
        !binary_body(b, essence) ==> encode_utf8(preview_of(b, false, truncate_at)).len() <= truncate_at,
{
    if !binary_body(b, essence) {
        decode_utf8_encode_utf8(kept(b, truncate_at));
    }
}

fn slice_prefix(b: &[u8], end: usize) -> (r: &[u8])
    requires
        end <= b@.len(),
    ensures
        r@ == b@.subrange(0, end as int),
{
    b.split_at(end).0
}

} // verus!
