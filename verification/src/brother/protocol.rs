//! The Brother "pedxml" wire format.
//!
//! Request builders and response parsing only, no I/O. Quirks, all
//! deliberate:
//!
//! * The multipart body is built by hand, byte for byte as the official
//!   client sends it (`Content-Disposition:form-data;name=...`, with no
//!   space after `:` or `;`): the machine's embedded CGI parser is strict.
//! * The firmware misspells the XML root element (`<respose_info>`), so
//!   responses are read by tag extraction, not with a strict XML parser.
//! * `req_appver` differs between the status call (`1.2.0`) and the upload
//!   call (`100`).
use crate::brother::models::{opt_chars, strings_view, SewingResponse};
use crate::machine::error::MachineError;
use crate::text::{
    chars_of, find_from, first_match, lemma_first_match, parse_i64_range, parse_u64_range,
    push_char, push_range, push_str, spec_parse_i64, spec_parse_u64, trim, trimmed_string,
};
use vstd::prelude::*;
use vstd::string::StringSliceAdditionalSpecFns;

verus! {

/// Identification endpoint (JSON).
pub const INFO_PATH: &'static str = "/info";

/// Session/status/upload endpoint (form-encoded or multipart in, XML out).
pub const SEWING_PATH: &'static str = "/sewing/sewing.cgi";

/// The machine only answers clients that look like the official application.
pub const USER_AGENT: &'static str = "Design Database Transfer";

/// Sent by the official client; a Windows LCID as a string.
pub const ACCEPT_LANGUAGE: &'static str = "1046";

/// Application id the official client identifies itself with.
pub const APP_ID: &'static str = "23";

// ---------------------------------------------------------------------------
// Request builders

/// The form-encoded body of the status/handshake request.
pub open spec fn spec_status_body() -> Seq<char> {
    "req_sessionid=0&req_appid=23&req_appver=1.2.0&req_appstate=2"@
}

/// Body of the status/handshake request (`Content-Type:
/// application/x-www-form-urlencoded`).
pub fn status_body() -> (r: String)
    ensures
        r@ == spec_status_body(),
{
    let mut s = String::new();
    push_str(&mut s, "req_sessionid=0&req_appid=23&req_appver=1.2.0&req_appstate=2");
    s
}

/// The multipart boundary: 27 dashes followed by the given hex digits.
pub open spec fn spec_boundary(random_hex12: Seq<char>) -> Seq<char> {
    "---------------------------"@ + random_hex12
}

/// Multipart boundary in the exact shape the official client generates:
/// 27 dashes followed by 12 hex characters.
pub fn multipart_boundary(random_hex12: &str) -> (r: String)
    ensures
        r@ == spec_boundary(random_hex12@),
{
    let mut s = String::new();
    push_str(&mut s, "---------------------------");
    push_str(&mut s, random_hex12);
    s
}

/// `Content-Type` header value for the upload request.
pub fn upload_content_type(boundary: &str) -> (r: String)
    ensures
        r@ == "multipart/form-data;boundary="@ + boundary@,
{
    let mut s = String::new();
    push_str(&mut s, "multipart/form-data;boundary=");
    push_str(&mut s, boundary);
    s
}

/// Characters that cannot break the multipart framing.
pub open spec fn is_safe_name_char(c: char) -> bool {
    let u = c as u32;
    (48 <= u <= 57) || (65 <= u <= 90) || (97 <= u <= 122) || c == '.' || c == '-' || c == '_'
}

/// The filename with every unsafe character replaced by `_`.
pub open spec fn spec_sanitize(name: Seq<char>) -> Seq<char> {
    name.map_values(|c: char| if is_safe_name_char(c) { c } else { '_' })
}

/// Restrict a filename to ASCII that cannot break the multipart framing.
pub fn sanitize_filename(name: &str) -> (r: String)
    ensures
        r@ == spec_sanitize(name@),
{
    let v = chars_of(name);
    let mut s = String::new();
    let mut i: usize = 0;
    while i < v.len()
        invariant
            i <= v.len(),
            v@ == name@,
            s@ == spec_sanitize(v@.subrange(0, i as int)),
        decreases v.len() - i,
    {
        let c = v[i];
        let u = c as u32;
        let safe = (48 <= u && u <= 57) || (65 <= u && u <= 90) || (97 <= u && u <= 122) || c
            == '.' || c == '-' || c == '_';
        push_char(&mut s, if safe { c } else { '_' });
        assert(spec_sanitize(v@.subrange(0, i + 1)) =~= spec_sanitize(
            v@.subrange(0, i as int),
        ).push(if safe { c } else { '_' }));
        i += 1;
    }
    assert(v@.subrange(0, v.len() as int) =~= v@);
    s
}

/// Every character of a sanitized name is a framing-safe ASCII character,
/// and sanitizing keeps the number of characters.
pub proof fn law_sanitized_names_are_safe(name: Seq<char>)
    ensures
        spec_sanitize(name).len() == name.len(),
        forall|i: int|
            0 <= i < name.len() ==> is_safe_name_char(#[trigger] spec_sanitize(name)[i]),
        forall|i: int|
            0 <= i < name.len() && is_safe_name_char(name[i]) ==> #[trigger] spec_sanitize(
                name,
            )[i] == name[i],
{
}

/// The bytes of an ASCII text (each character truncated to a byte).
pub open spec fn ascii_bytes(s: Seq<char>) -> Seq<u8> {
    s.map_values(|c: char| c as u8)
}

/// Appends each character of `t`, as a byte, to `body`.
fn push_ascii(body: &mut Vec<u8>, t: &str)
    ensures
        final(body)@ == old(body)@ + ascii_bytes(t@),
{
    let v = chars_of(t);
    let ghost start = body@;
    let mut i: usize = 0;
    while i < v.len()
        invariant
            i <= v.len(),
            v@ == t@,
            body@ == start + ascii_bytes(v@.subrange(0, i as int)),
        decreases v.len() - i,
    {
        let c = v[i];
        body.push(c as u8);
        assert(ascii_bytes(v@.subrange(0, i + 1)) =~= ascii_bytes(v@.subrange(0, i as int)).push(
            c as u8,
        ));
        i += 1;
    }
    assert(v@.subrange(0, v.len() as int) =~= v@);
}

/// Appends the bytes of a slice to `body`.
fn push_bytes(body: &mut Vec<u8>, b: &[u8])
    ensures
        final(body)@ == old(body)@ + b@,
{
    let ghost start = body@;
    let mut i: usize = 0;
    while i < b.len()
        invariant
            i <= b.len(),
            body@ == start + b@.subrange(0, i as int),
        decreases b.len() - i,
    {
        body.push(b[i]);
        assert(b@.subrange(0, i + 1) =~= b@.subrange(0, i as int).push(b@[i as int]));
        i += 1;
    }
    assert(b@.subrange(0, b.len() as int) =~= b@);
}

/// The CRLF line break.
pub open spec fn crlf() -> Seq<u8> {
    seq![13u8, 10u8]
}

/// The exact bytes of the upload request, as the official client sends
/// them: the form-encoded command part, then the design part.
pub open spec fn spec_upload_body(boundary: Seq<u8>, filename: Seq<char>, design: Seq<u8>) -> Seq<
    u8,
> {
    ascii_bytes("--"@) + boundary + crlf() + ascii_bytes(
        "Content-Disposition:form-data;name=\"req_parameter\";filename=\"req_parameter\""@,
    ) + crlf() + ascii_bytes("Content-Type:application/x-www-form-urlencoded"@) + crlf() + crlf()
        + ascii_bytes("req_sessionid=0&req_appid=23&req_appver=100&req_appstate=3"@) + crlf()
        + ascii_bytes("--"@) + boundary + crlf() + ascii_bytes(
        "Content-Disposition:form-data;name=\"myfile\";filename=\""@,
    ) + ascii_bytes(spec_sanitize(filename)) + ascii_bytes("\""@) + crlf() + ascii_bytes(
        "Content-Type:application/octet-stream"@,
    ) + crlf() + crlf() + design + crlf() + ascii_bytes("--"@) + boundary + ascii_bytes("--"@)
        + crlf()
}

/// Build the multipart upload body, byte for byte as captured:
///
/// * part 1 `req_parameter`: the form-encoded command (`req_appstate=3`),
/// * part 2 `myfile`: the raw design bytes.
///
/// The machine ignores the part-2 filename and assigns its own (e.g.
/// `32770.PES`), but a sanitized version of the real name is still sent.
/// The boundary is written as its UTF-8 bytes.
pub fn upload_body(boundary: &str, filename: &str, design: &[u8]) -> (r: Vec<u8>)
    ensures
        r@ == spec_upload_body(boundary.spec_bytes(), filename@, design@),
{
    let safe_name = sanitize_filename(filename);
    let b = boundary.as_bytes();
    let mut body: Vec<u8> = Vec::new();
    let crlf_s = "\r\n";
    proof {
        reveal_strlit("\r\n");
        assert(ascii_bytes(crlf_s@) =~= crlf());
    }
    push_ascii(&mut body, "--");
    push_bytes(&mut body, b);
    push_ascii(&mut body, crlf_s);
    push_ascii(
        &mut body,
        "Content-Disposition:form-data;name=\"req_parameter\";filename=\"req_parameter\"",
    );
    push_ascii(&mut body, crlf_s);
    push_ascii(&mut body, "Content-Type:application/x-www-form-urlencoded");
    push_ascii(&mut body, crlf_s);
    push_ascii(&mut body, crlf_s);
    push_ascii(&mut body, "req_sessionid=0&req_appid=23&req_appver=100&req_appstate=3");
    push_ascii(&mut body, crlf_s);
    push_ascii(&mut body, "--");
    push_bytes(&mut body, b);
    push_ascii(&mut body, crlf_s);
    push_ascii(&mut body, "Content-Disposition:form-data;name=\"myfile\";filename=\"");
    push_ascii(&mut body, safe_name.as_str());
    push_ascii(&mut body, "\"");
    push_ascii(&mut body, crlf_s);
    push_ascii(&mut body, "Content-Type:application/octet-stream");
    push_ascii(&mut body, crlf_s);
    push_ascii(&mut body, crlf_s);
    push_bytes(&mut body, design);
    push_ascii(&mut body, crlf_s);
    push_ascii(&mut body, "--");
    push_bytes(&mut body, b);
    push_ascii(&mut body, "--");
    push_ascii(&mut body, crlf_s);
    body
}

// ---------------------------------------------------------------------------
// Response parsing

/// `<tag>`
pub open spec fn open_tag(tag: Seq<char>) -> Seq<char> {
    seq!['<'] + tag + seq!['>']
}

/// `</tag>`
pub open spec fn close_tag(tag: Seq<char>) -> Seq<char> {
    seq!['<', '/'] + tag + seq!['>']
}

/// The trimmed text of the first `<tag>...</tag>` in `x`: the first
/// `<tag>`, then the first `</tag>` after it.
pub open spec fn spec_extract_tag(x: Seq<char>, tag: Seq<char>) -> Option<Seq<char>> {
    match first_match(x, open_tag(tag), 0) {
        None => None,
        Some(p) => {
            let start = p + open_tag(tag).len();
            match first_match(x, close_tag(tag), start) {
                None => None,
                Some(e) => Some(trim(x.subrange(start, e))),
            }
        },
    }
}

/// The trimmed texts of every `<tag>...</tag>` in `x` at or after `from`,
/// scanning left to right and resuming after each closing tag.
pub open spec fn spec_extract_all_from(x: Seq<char>, tag: Seq<char>, from: int) -> Seq<Seq<char>>
    decreases x.len() + 1 - from,
{
    if from < 0 || from > x.len() {
        seq![]
    } else {
        match first_match(x, open_tag(tag), from) {
            None => seq![],
            Some(p) => {
                let start = p + open_tag(tag).len();
                match first_match(x, close_tag(tag), start) {
                    None => seq![],
                    Some(e) => {
                        proof {
                            lemma_first_match(x, open_tag(tag), from);
                            lemma_first_match(x, close_tag(tag), start);
                        }
                        seq![trim(x.subrange(start, e))] + spec_extract_all_from(
                            x,
                            tag,
                            e + close_tag(tag).len(),
                        )
                    },
                }
            },
        }
    }
}

/// The trimmed texts of every `<tag>...</tag>` in `x`.
pub open spec fn spec_extract_all(x: Seq<char>, tag: Seq<char>) -> Seq<Seq<char>> {
    spec_extract_all_from(x, tag, 0)
}

/// Listing every `<tag>` text starts with the text a single lookup finds:
/// the list is empty exactly when the lookup finds nothing, and otherwise
/// its first entry is what the lookup returns.
pub proof fn law_first_listed_is_the_single_lookup(x: Seq<char>, tag: Seq<char>)
    ensures
        spec_extract_tag(x, tag) is None <==> spec_extract_all(x, tag).len() == 0,
        spec_extract_all(x, tag).len() > 0 ==> spec_extract_tag(x, tag) == Some(
            spec_extract_all(x, tag)[0],
        ),
{
    lemma_first_match(x, open_tag(tag), 0);
    if let Some(p) = first_match(x, open_tag(tag), 0) {
        lemma_first_match(x, close_tag(tag), p + open_tag(tag).len());
    }
}

/// The characters of `<tag>` and `</tag>`.
fn tag_pair(tag: &str) -> (r: (Vec<char>, Vec<char>))
    ensures
        r.0@ == open_tag(tag@),
        r.1@ == close_tag(tag@),
{
    let t = chars_of(tag);
    let mut open: Vec<char> = Vec::new();
    open.push('<');
    let mut close: Vec<char> = Vec::new();
    close.push('<');
    close.push('/');
    let mut i: usize = 0;
    while i < t.len()
        invariant
            i <= t.len(),
            t@ == tag@,
            open@ == seq!['<'] + t@.subrange(0, i as int),
            close@ == seq!['<', '/'] + t@.subrange(0, i as int),
        decreases t.len() - i,
    {
        open.push(t[i]);
        close.push(t[i]);
        assert(t@.subrange(0, i + 1) =~= t@.subrange(0, i as int).push(t@[i as int]));
        i += 1;
    }
    open.push('>');
    close.push('>');
    assert(t@.subrange(0, t.len() as int) =~= t@);
    assert(open@ =~= open_tag(tag@));
    assert(close@ =~= close_tag(tag@));
    (open, close)
}

/// First occurrence of `<tag>...</tag>` in `x`, trimmed.
fn extract_tag(x: &Vec<char>, tag: &str) -> (r: Option<String>)
    ensures
        opt_chars(r) == spec_extract_tag(x@, tag@),
{
    let (open, close) = tag_pair(tag);
    match find_from(x, &open, 0) {
        None => None,
        Some(p) => {
            proof {
                lemma_first_match(x@, open@, 0);
                assert(first_match(x@, open@, 0) == Some(p as int));
                assert(p + open@.len() <= x@.len());
            }
            let olen = open.len();
            assert(olen == open@.len());
            assert(p + olen <= x.len());
            let start = p + olen;
            match find_from(x, &close, start) {
                None => None,
                Some(e) => {
                    proof {
                        lemma_first_match(x@, close@, start as int);
                    }
                    Some(trimmed_string(x, start, e))
                },
            }
        },
    }
}

/// First occurrence of `<tag>...</tag>`, read as a signed number.
fn extract_i64(x: &Vec<char>, tag: &str) -> (r: Option<i64>)
    ensures
        r == match spec_extract_tag(x@, tag@) {
            Some(t) => spec_parse_i64(t),
            None => None,
        },
{
    match extract_tag(x, tag) {
        None => None,
        Some(t) => {
            let v = chars_of(t.as_str());
            assert(v@.subrange(0, v.len() as int) =~= v@);
            parse_i64_range(&v, 0, v.len())
        },
    }
}

/// First occurrence of `<tag>...</tag>`, read as an unsigned number.
fn extract_u64(x: &Vec<char>, tag: &str) -> (r: Option<u64>)
    ensures
        r == match spec_extract_tag(x@, tag@) {
            Some(t) => spec_parse_u64(t),
            None => None,
        },
{
    match extract_tag(x, tag) {
        None => None,
        Some(t) => {
            let v = chars_of(t.as_str());
            assert(v@.subrange(0, v.len() as int) =~= v@);
            parse_u64_range(&v, 0, v.len())
        },
    }
}

/// Every occurrence of `<tag>...</tag>` in `x`, trimmed.
fn extract_all_tags(x: &Vec<char>, tag: &str) -> (r: Vec<String>)
    ensures
        strings_view(r@) == spec_extract_all(x@, tag@),
{
    let (open, close) = tag_pair(tag);
    let mut out: Vec<String> = Vec::new();
    let mut pos: usize = 0;
    while pos <= x.len()
        invariant
            pos <= x.len() + 1,
            open@ == open_tag(tag@),
            close@ == close_tag(tag@),
            spec_extract_all(x@, tag@) == strings_view(out@) + spec_extract_all_from(
                x@,
                tag@,
                pos as int,
            ),
        ensures
            spec_extract_all(x@, tag@) == strings_view(out@),
        decreases x.len() + 1 - pos,
    {
        let p = match find_from(x, &open, pos) {
            Some(p) => p,
            None => {
                assert(spec_extract_all_from(x@, tag@, pos as int) =~= Seq::<Seq<char>>::empty());
                assert(strings_view(out@) + Seq::<Seq<char>>::empty() =~= strings_view(out@));
                break;
            },
        };
        proof {
            lemma_first_match(x@, open@, pos as int);
        }
        let start = p + open.len();
        let e = match find_from(x, &close, start) {
            Some(e) => e,
            None => {
                assert(spec_extract_all_from(x@, tag@, pos as int) =~= Seq::<Seq<char>>::empty());
                assert(strings_view(out@) + Seq::<Seq<char>>::empty() =~= strings_view(out@));
                break;
            },
        };
        proof {
            lemma_first_match(x@, close@, start as int);
        }
        let item = trimmed_string(x, start, e);
        let ghost before = out@;
        out.push(item);
        proof {
            assert(strings_view(out@) =~= strings_view(before).push(item@));
            assert(strings_view(before) + (seq![item@] + spec_extract_all_from(
                x@,
                tag@,
                e + close@.len(),
            )) =~= strings_view(out@) + spec_extract_all_from(x@, tag@, e + close@.len()));
        }
        pos = e + close.len();
    }
    out
}

/// At most the first `max` characters of `s`.
pub open spec fn spec_truncate(s: Seq<char>, max: nat) -> Seq<char> {
    if s.len() > max {
        s.take(max as int)
    } else {
        s
    }
}

/// At most the first `max` characters of `s` (for quoting a response in
/// an error message).
pub fn truncate(s: &str, max: usize) -> (r: String)
    ensures
        r@ == spec_truncate(s@, max as nat),
{
    let x = chars_of(s);
    let n: usize = if x.len() > max { max } else { x.len() };
    let mut out = String::new();
    push_range(&mut out, &x, 0, n);
    proof {
        if x.len() > max {
            assert(x@.subrange(0, max as int) =~= x@.take(max as int));
        } else {
            assert(x@.subrange(0, x.len() as int) =~= x@);
        }
    }
    out
}

/// The message of the error for a response without a readable error code.
pub open spec fn spec_no_error_code_message(xml: Seq<char>) -> Seq<char> {
    "machine response has no parsable <error_code>: "@ + spec_truncate(xml, 200)
}

/// What the machine's answer says, field by field; `None` when it has no
/// parsable `<error_code>`.
pub open spec fn spec_parse_sewing_response(xml: Seq<char>, r: SewingResponse) -> bool {
    &&& Some(r.error_code) == match spec_extract_tag(xml, "error_code"@) {
        Some(t) => spec_parse_i64(t),
        None => None,
    }
    &&& opt_chars(r.session_id) == spec_extract_tag(xml, "session_id"@)
    &&& opt_chars(r.upload_path) == spec_extract_tag(xml, "upload_path"@)
    &&& r.upload_size == match spec_extract_tag(xml, "upload_size"@) {
        Some(t) => spec_parse_u64(t),
        None => None,
    }
    &&& r.upload_freesize == match spec_extract_tag(xml, "upload_freesize"@) {
        Some(t) => spec_parse_u64(t),
        None => None,
    }
    &&& strings_view(r.files@) == spec_extract_all(xml, "file_name"@)
}

/// The response has a parsable `<error_code>`.
pub open spec fn spec_has_error_code(xml: Seq<char>) -> bool {
    match spec_extract_tag(xml, "error_code"@) {
        Some(t) => spec_parse_i64(t) is Some,
        None => false,
    }
}

/// Parse the XML answer of `POST /sewing/sewing.cgi`.
///
/// Tolerant by design: extracts known tags and ignores everything else, so
/// the firmware's misspelled root element and any future additions pass
/// through harmlessly. Only a missing or unparsable `<error_code>` is an
/// error.
pub fn parse_sewing_response(xml: &str) -> (r: Result<SewingResponse, MachineError>)
    ensures
        r is Ok <==> spec_has_error_code(xml@),
        r matches Ok(resp) ==> spec_parse_sewing_response(xml@, resp),
        r matches Err(e) ==> e matches MachineError::Protocol(m) && m@
            == spec_no_error_code_message(xml@),
{
    let x = chars_of(xml);
    let error_code = match extract_i64(&x, "error_code") {
        Some(c) => c,
        None => {
            let mut msg = String::new();
            push_str(&mut msg, "machine response has no parsable <error_code>: ");
            let head = truncate(xml, 200);
            push_str(&mut msg, head.as_str());
            return Err(MachineError::Protocol(msg));
        },
    };
    let session_id = extract_tag(&x, "session_id");
    let upload_path = extract_tag(&x, "upload_path");
    let upload_size = extract_u64(&x, "upload_size");
    let upload_freesize = extract_u64(&x, "upload_freesize");
    let files = extract_all_tags(&x, "file_name");
    Ok(SewingResponse { error_code, session_id, upload_path, upload_size, upload_freesize, files })
}

} // verus!
