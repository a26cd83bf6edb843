// The query transport's verified half.  The driver outside this crate owns
// the HTTP client and headers; this module frames the request body that goes
// over the wire, classifies the transported response, and separates a
// response's application errors from its per-alias data.

use crate::twitch_api::TwitchResponse;
use crate::util::{join_with, ExitCode, ExitMsg};
use vstd::prelude::*;

verus! {

pub open spec fn hex_char(d: int) -> char {
    if d == 0 { '0' }
    else if d == 1 { '1' }
    else if d == 2 { '2' }
    else if d == 3 { '3' }
    else if d == 4 { '4' }
    else if d == 5 { '5' }
    else if d == 6 { '6' }
    else if d == 7 { '7' }
    else if d == 8 { '8' }
    else if d == 9 { '9' }
    else if d == 10 { 'a' }
    else if d == 11 { 'b' }
    else if d == 12 { 'c' }
    else if d == 13 { 'd' }
    else if d == 14 { 'e' }
    else { 'f' }
}

fn hex_char_exec(d: u32) -> (c: char)
    requires
        d <= 15,
    ensures
        c == hex_char(d as int),
{
    if d == 0 { '0' }
    else if d == 1 { '1' }
    else if d == 2 { '2' }
    else if d == 3 { '3' }
    else if d == 4 { '4' }
    else if d == 5 { '5' }
    else if d == 6 { '6' }
    else if d == 7 { '7' }
    else if d == 8 { '8' }
    else if d == 9 { '9' }
    else if d == 10 { 'a' }
    else if d == 11 { 'b' }
    else if d == 12 { 'c' }
    else if d == 13 { 'd' }
    else if d == 14 { 'e' }
    else { 'f' }
}

/// How one character is written inside a JSON string: quote and backslash
/// get a backslash, the named control characters their short escapes, the
/// other control characters a `\u00XX` escape, and everything else stands
/// as itself.
pub open spec fn json_escaped_char(c: char) -> Seq<char> {
    if c == '"' {
        seq!['\\', '"']
    } else if c == '\\' {
        seq!['\\', '\\']
    } else if c == '\u{8}' {
        seq!['\\', 'b']
    } else if c == '\t' {
        seq!['\\', 't']
    } else if c == '\n' {
        seq!['\\', 'n']
    } else if c == '\u{c}' {
        seq!['\\', 'f']
    } else if c == '\r' {
        seq!['\\', 'r']
    } else if (c as int) < 32 {
        seq!['\\', 'u', '0', '0', hex_char((c as int) / 16), hex_char((c as int) % 16)]
    } else {
        seq![c]
    }
}

/// A whole string escaped for JSON, character by character.
pub open spec fn json_escape(s: Seq<char>) -> Seq<char>
    decreases s.len(),
{
    if s.len() == 0 {
        Seq::empty()
    } else {
        json_escape(s.drop_last()) + json_escaped_char(s.last())
    }
}

fn push_escaped(out: &mut String, c: char)
    ensures
        final(out)@ == old(out)@ + json_escaped_char(c),
{
    let ghost base = out@;
    if c == '"' {
        out.push('\\');
        out.push('"');
    } else if c == '\\' {
        out.push('\\');
        out.push('\\');
    } else if c == '\u{8}' {
        out.push('\\');
        out.push('b');
    } else if c == '\t' {
        out.push('\\');
        out.push('t');
    } else if c == '\n' {
        out.push('\\');
        out.push('n');
    } else if c == '\u{c}' {
        out.push('\\');
        out.push('f');
    } else if c == '\r' {
        out.push('\\');
        out.push('r');
    } else if (c as u32) < 32 {
        let v = c as u32;
        out.push('\\');
        out.push('u');
        out.push('0');
        out.push('0');
        out.push(hex_char_exec(v / 16));
        out.push(hex_char_exec(v % 16));
    } else {
        out.push(c);
    }
    proof {
        assert(out@ =~= base + json_escaped_char(c));
    }
}

/// Escapes a string for embedding in a JSON string literal.
pub fn json_escape_str(s: &str) -> (r: String)
    ensures
        r@ == json_escape(s@),
{
    let mut out = String::new();
    let n = s.unicode_len();
    let mut i: usize = 0;
    while i < n
        invariant
            n == s@.len(),
            i <= n,
            out@ == json_escape(s@.take(i as int)),
        decreases n - i,
    {
        let c = s.get_char(i);
        push_escaped(&mut out, c);
        proof {
            assert(s@.take(i + 1).drop_last() =~= s@.take(i as int));
            assert(s@.take(i + 1).last() == s@[i as int]);
        }
        i = i + 1;
    }
    proof {
        assert(s@.take(s@.len() as int) =~= s@);
    }
    out
}

/// The request body the endpoint expects: a JSON object with the query text
/// under the key `query`.
pub open spec fn request_body_text(query: Seq<char>) -> Seq<char> {
    "{\"query\":\""@ + json_escape(query) + "\"}"@
}

/// Frames a query as the JSON request body that goes over the wire.
pub fn gql_request_body(query: &str) -> (r: String)
    ensures
        r@ == request_body_text(query@),
{
    let mut s = String::new();
    s.append("{\"query\":\"");
    let esc = json_escape_str(query);
    s.append(esc.as_str());
    s.append("\"}");
    s
}

/// Classifies a transported response: a non-success status is a transport
/// error carrying the response body for diagnostics, a success hands the
/// body through untouched.
pub fn classify_http_response(status_success: bool, body: String) -> (r: Result<String, ExitMsg>)
    ensures
        status_success ==> (r matches Ok(b) && b@ == body@),
        !status_success ==> (r matches Err(e) && e.code == ExitCode::RequestErrorFromTwitch
            && e.msg@ == "Error response from Twitch GQL: \""@ + body@ + "\"."@),
{
    if status_success {
        Ok(body)
    } else {
        let mut msg = String::new();
        msg.append("Error response from Twitch GQL: \"");
        msg.append(body.as_str());
        msg.append("\".");
        Err(ExitMsg::new(ExitCode::RequestErrorFromTwitch, msg))
    }
}

/// The diagnostic text for a response that carries application errors: the
/// error messages, joined.
pub open spec fn gql_error_text(messages: Seq<Seq<char>>) -> Seq<char> {
    "Something went wrong with the GQL request: \""@ + join_with(messages, "; "@) + "\"."@
}

/// Separates a decoded response into its per-alias data, or the application
/// error it carries.  A response with an error list is an error even when
/// the list is empty; a response with neither errors nor data is not
/// expected from the endpoint and is ruled out by the caller.
pub fn response_data<T>(resp: TwitchResponse<T>) -> (r: Result<Vec<(String, Option<T>)>, ExitMsg>)
    requires
        resp.errors is Some || resp.data is Some,
    ensures
        resp.errors is Some ==> (r matches Err(e) && e.code == ExitCode::GQLErrorFromTwitch
            && e.msg@ == gql_error_text(
            resp.errors.unwrap()@.map_values(
                |x: crate::twitch_api::TwitchResponseError| x.message@,
            ),
        )),
        resp.errors is None ==> (r matches Ok(d) && d == resp.data.unwrap()),
{
    match resp.errors {
        Some(errors) => {
            let mut messages: Vec<String> = Vec::new();
            let mut i: usize = 0;
            while i < errors.len()
                invariant
                    i <= errors@.len(),
                    messages@.len() == i,
                    forall|j: int| 0 <= j < i ==> (#[trigger] messages@[j])@ == errors@[j].message@,
                decreases errors@.len() - i,
            {
                messages.push(errors[i].message.clone());
                i = i + 1;
            }
            let mut msg = String::new();
            msg.append("Something went wrong with the GQL request: \"");
            let joined = crate::util::join_strings(&messages, "; ");
            msg.append(joined.as_str());
            msg.append("\".");
            proof {
                assert(messages@.map_values(|s: String| s@) =~= errors@.map_values(
                    |x: crate::twitch_api::TwitchResponseError| x.message@,
                ));
            }
            Err(ExitMsg::new(ExitCode::GQLErrorFromTwitch, msg))
        },
        None => Ok(resp.data.unwrap()),
    }
}

pub open spec fn is_alnum_char(c: char) -> bool {
    ||| 48 <= (c as int) <= 57
    ||| 65 <= (c as int) <= 90
    ||| 97 <= (c as int) <= 122
}

/// Relies on rand's `Alphanumeric` distribution, whose samples are uniformly
/// drawn ASCII letters and digits, and on `SampleString`, which appends
/// exactly `len` sampled characters.
#[verifier::external_body]
fn sample_device_id() -> (s: String)
    ensures
        s@.len() == 32,
        forall|i: int| 0 <= i < s@.len() ==> is_alnum_char(#[trigger] s@[i]),
{
    rand::distr::SampleString::sample_string(&rand::distr::Alphanumeric, &mut rand::rng(), 32)
}

/// A fresh per-process device identifier: 32 random alphanumeric characters.
/// Generated once at startup and reused for every request, so the client is
/// not tied to any single physical device fingerprint.
pub fn fresh_device_id() -> (s: String)
    ensures
        s@.len() == 32,
        forall|i: int| 0 <= i < s@.len() ==> is_alnum_char(#[trigger] s@[i]),
{
    sample_device_id()
}

} // verus!
