//! The tRPC conventions of the platform's API: where a procedure lives, how
//! query input travels, how the caller is identified, and what a failed call
//! is reported as. The HTTP exchange itself is the caller's.
use vstd::prelude::*;

use crate::text::{chars_of, push_chars, push_str, string_of};

verus! {

/// The upper-case hexadecimal digit for `d < 16`.
pub open spec fn hex_digit(d: u8) -> char {
    if d < 10 {
        ((48 + d) as u8) as char
    } else {
        ((55 + d) as u8) as char
    }
}

/// A byte the form encoding keeps as it is: `*`, `-`, `.`, `_`, digits and
/// ASCII letters.
pub open spec fn byte_unchanged(b: u8) -> bool {
    b == 42 || b == 45 || b == 46 || (48 <= b <= 57) || (65 <= b <= 90) || b == 95 || (97 <= b
        <= 122)
}

/// The form encoding of one byte: itself when unchanged, `+` for a space,
/// else `%` and two upper-case hex digits.
pub open spec fn encode_byte(b: u8) -> Seq<char> {
    if byte_unchanged(b) {
        seq![b as char]
    } else if b == 32 {
        seq!['+']
    } else {
        seq!['%', hex_digit(b / 16), hex_digit(b % 16)]
    }
}

/// The `application/x-www-form-urlencoded` serialization of `bytes`.
pub open spec fn form_encoded(bytes: Seq<u8>) -> Seq<char>
    decreases bytes.len(),
{
    if bytes.len() == 0 {
        seq![]
    } else {
        form_encoded(bytes.drop_last()) + encode_byte(bytes.last())
    }
}

/// `url::form_urlencoded::byte_serialize` over the UTF-8 bytes of `s`:
/// each byte kept, turned into `+` (a space) or percent-encoded, as
/// `form_encoded` states.
#[verifier::external_body]
fn encode(s: &str) -> (r: String)
    ensures
        r@ == form_encoded(vstd::utf8::encode_utf8(s@)),
{
    url::form_urlencoded::byte_serialize(s.as_bytes()).collect()
}

/// `{base}/api/trpc/{procedure}`.
pub open spec fn spec_procedure_url(base: Seq<char>, procedure: Seq<char>) -> Seq<char> {
    base + "/api/trpc/"@ + procedure
}

/// The URL of a procedure.
pub fn procedure_url(base_url: &str, procedure: &str) -> (r: String)
    ensures
        r@ == spec_procedure_url(base_url@, procedure@),
{
    let mut u = chars_of(base_url);
    push_str(&mut u, "/api/trpc/");
    push_str(&mut u, procedure);
    string_of(&u)
}

/// The URL of a query: the procedure's, with the JSON text of the input,
/// form-encoded, as the `input` parameter when there is one.
pub fn query_url(base_url: &str, procedure: &str, input_json: Option<&str>) -> (r: String)
    ensures
        r@ == match input_json {
            Some(j) => spec_procedure_url(base_url@, procedure@) + "?input="@ + form_encoded(
                vstd::utf8::encode_utf8(j@),
            ),
            None => spec_procedure_url(base_url@, procedure@),
        },
{
    let mut u = chars_of(base_url);
    push_str(&mut u, "/api/trpc/");
    push_str(&mut u, procedure);
    match input_json {
        Some(j) => {
            push_str(&mut u, "?input=");
            let enc = encode(j);
            push_str(&mut u, enc.as_str());
        },
        None => {},
    }
    string_of(&u)
}

/// The `Authorization` header value: `Bearer {token}`.
pub fn bearer(token: &str) -> (r: String)
    ensures
        r@ == "Bearer "@ + token@,
{
    let mut h = chars_of("Bearer ");
    push_str(&mut h, token);
    string_of(&h)
}

/// What `truncate_body` makes of `body`: unchanged when it has at most `max`
/// characters, else its first `max` characters and an ellipsis.
pub open spec fn body_preview(body: Seq<char>, max: nat) -> Seq<char> {
    if body.len() <= max {
        body
    } else {
        body.take(max as int) + seq!['…']
    }
}

/// The start of a response body, for error messages.
pub fn truncate_body(body: &str, max: usize) -> (r: String)
    ensures
        r@ == body_preview(body@, max as nat),
{
    let cs = chars_of(body);
    if cs.len() <= max {
        return string_of(&cs);
    }
    let mut out: Vec<char> = Vec::new();
    let mut i: usize = 0;
    while i < max
        invariant
            max < cs@.len(),
            i <= max,
            out@ == cs@.take(i as int),
        decreases max - i,
    {
        out.push(cs[i]);
        i = i + 1;
        assert(cs@.take(i as int) =~= cs@.take(i - 1) + seq![cs@[i - 1]]);
    }
    out.push('…');
    string_of(&out)
}

/// The error a call that failed at the HTTP level is reported as: the
/// procedure and the tRPC error message when the body carries one, else the
/// procedure, the HTTP status and the body.
pub open spec fn spec_http_error(
    procedure: Seq<char>,
    status: Seq<char>,
    body: Seq<char>,
    trpc_message: Option<Seq<char>>,
) -> Seq<char> {
    match trpc_message {
        Some(m) => procedure + ": "@ + m,
        None => procedure + ": HTTP "@ + status + " — "@ + body,
    }
}

/// The error for a call answered with a non-success status `status`
/// (printed form), whose body is `body`, and whose body read as a tRPC error
/// gave `trpc_message`, if it did.
pub fn http_error(procedure: &str, status: &str, body: &str, trpc_message: Option<&str>) -> (r:
    String)
    ensures
        r@ == spec_http_error(procedure@, status@, body@, match trpc_message {
            Some(m) => Some(m@),
            None => None,
        }),
{
    let mut e = chars_of(procedure);
    match trpc_message {
        Some(m) => {
            push_str(&mut e, ": ");
            push_str(&mut e, m);
        },
        None => {
            push_str(&mut e, ": HTTP ");
            push_str(&mut e, status);
            push_str(&mut e, " — ");
            push_str(&mut e, body);
        },
    }
    string_of(&e)
}

/// The error for a successful response whose body is not the expected
/// payload: the procedure and the first 512 characters of the body.
pub fn parse_error(procedure: &str, body: &str) -> (r: String)
    ensures
        r@ == "Failed to parse response from "@ + procedure@
            + "\n\nResponse body (first 512 bytes):\n"@ + body_preview(body@, 512),
{
    let mut e = chars_of("Failed to parse response from ");
    push_str(&mut e, procedure);
    push_str(&mut e, "\n\nResponse body (first 512 bytes):\n");
    let preview = truncate_body(body, 512);
    push_str(&mut e, preview.as_str());
    string_of(&e)
}

} // verus!
