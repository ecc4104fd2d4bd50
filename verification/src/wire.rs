//! The wire format of the realtime protocol: the JSON body of a registration
//! submission, and the reading of a registration response.
//!
//! A registration submission tells the server which client id listens to
//! which topics. Its body is exactly
//! `{"clientId":<id>,"subscriptions":[<topics>]}` with both the id and every
//! topic written as JSON strings. An empty response body means success; a
//! non-empty body carries a structured error object.

use vstd::prelude::*;

use crate::errors::{Error, PocketBaseErrorResponse};
use crate::strutil::push_char;

verus! {

/// The lower-case hexadecimal digit for a value below sixteen.
pub open spec fn spec_hex_digit(n: u32) -> char {
    if n == 0 {
        '0'
    } else if n == 1 {
        '1'
    } else if n == 2 {
        '2'
    } else if n == 3 {
        '3'
    } else if n == 4 {
        '4'
    } else if n == 5 {
        '5'
    } else if n == 6 {
        '6'
    } else if n == 7 {
        '7'
    } else if n == 8 {
        '8'
    } else if n == 9 {
        '9'
    } else if n == 10 {
        'a'
    } else if n == 11 {
        'b'
    } else if n == 12 {
        'c'
    } else if n == 13 {
        'd'
    } else if n == 14 {
        'e'
    } else {
        'f'
    }
}

/// How one character is written inside a JSON string: quotes and backslashes
/// are escaped, the named control characters use their short escapes, the
/// remaining control characters use `\u00xx`, and everything else stands as
/// itself.
pub open spec fn spec_escape_char(c: char) -> Seq<char> {
    if c == '"' {
        seq!['\\', '"']
    } else if c == '\\' {
        seq!['\\', '\\']
    } else if c == '\u{08}' {
        seq!['\\', 'b']
    } else if c == '\t' {
        seq!['\\', 't']
    } else if c == '\n' {
        seq!['\\', 'n']
    } else if c == '\u{0c}' {
        seq!['\\', 'f']
    } else if c == '\r' {
        seq!['\\', 'r']
    } else if (c as u32) < 0x20 {
        seq!['\\', 'u', '0', '0', spec_hex_digit((c as u32) / 16), spec_hex_digit((c as u32) % 16)]
    } else {
        seq![c]
    }
}

/// The body of a JSON string: every character escaped, in order.
pub open spec fn spec_escape_string(s: Seq<char>) -> Seq<char>
    decreases s.len(),
{
    if s.len() == 0 {
        Seq::empty()
    } else {
        spec_escape_string(s.drop_last()) + spec_escape_char(s.last())
    }
}

/// A JSON string: the escaped characters between double quotes.
pub open spec fn spec_json_string(s: Seq<char>) -> Seq<char> {
    seq!['"'] + spec_escape_string(s) + seq!['"']
}

/// The comma-separated JSON strings inside a JSON array.
pub open spec fn spec_topics_items(ts: Seq<Seq<char>>) -> Seq<char>
    decreases ts.len(),
{
    if ts.len() == 0 {
        Seq::empty()
    } else if ts.len() == 1 {
        spec_json_string(ts[0])
    } else {
        spec_topics_items(ts.drop_last()) + seq![','] + spec_json_string(ts.last())
    }
}

/// A JSON array of strings.
pub open spec fn spec_topics_array(ts: Seq<Seq<char>>) -> Seq<char> {
    seq!['['] + spec_topics_items(ts) + seq![']']
}

/// The exact registration submission body for a client id and a topic list:
/// `{"clientId":<id>,"subscriptions":[<topics>]}`.
pub open spec fn spec_registration_body(id: Seq<char>, ts: Seq<Seq<char>>) -> Seq<char> {
    "{\"clientId\":"@ + spec_json_string(id) + ",\"subscriptions\":"@ + spec_topics_array(ts)
        + seq!['}']
}

/// The lower-case hexadecimal digit for a value below sixteen.
fn hex_digit(n: u32) -> (c: char)
    requires
        n < 16,
    ensures
        c == spec_hex_digit(n),
{
    match n {
        0 => '0',
        1 => '1',
        2 => '2',
        3 => '3',
        4 => '4',
        5 => '5',
        6 => '6',
        7 => '7',
        8 => '8',
        9 => '9',
        10 => 'a',
        11 => 'b',
        12 => 'c',
        13 => 'd',
        14 => 'e',
        _ => 'f',
    }
}

/// Append the escaped form of every character of `s` to `out`.
fn escape_into(out: &mut String, s: &str)
    ensures
        final(out)@ == old(out)@ + spec_escape_string(s@),
{
    let n = s.unicode_len();
    let mut i: usize = 0;
    while i < n
        invariant
            n == s@.len(),
            i <= n,
            out@ == old(out)@ + spec_escape_string(s@.subrange(0, i as int)),
        decreases n - i,
    {
        let c = s.get_char(i);
        if c == '"' {
            push_char(out, '\\');
            push_char(out, '"');
        } else if c == '\\' {
            push_char(out, '\\');
            push_char(out, '\\');
        } else if c == '\u{08}' {
            push_char(out, '\\');
            push_char(out, 'b');
        } else if c == '\t' {
            push_char(out, '\\');
            push_char(out, 't');
        } else if c == '\n' {
            push_char(out, '\\');
            push_char(out, 'n');
        } else if c == '\u{0c}' {
            push_char(out, '\\');
            push_char(out, 'f');
        } else if c == '\r' {
            push_char(out, '\\');
            push_char(out, 'r');
        } else {
            let cu = c as u32;
            if cu < 0x20 {
                push_char(out, '\\');
                push_char(out, 'u');
                push_char(out, '0');
                push_char(out, '0');
                push_char(out, hex_digit(cu / 16));
                push_char(out, hex_digit(cu % 16));
            } else {
                push_char(out, c);
            }
        }
        proof {
            let pre = s@.subrange(0, i as int);
            let cur = s@.subrange(0, i + 1 as int);
            assert(cur.drop_last() =~= pre);
            assert(cur.last() == s@[i as int]);
            assert(out@ =~= old(out)@ + spec_escape_string(cur));
        }
        i = i + 1;
    }
    proof {
        assert(s@.subrange(0, n as int) =~= s@);
    }
}

/// Append a JSON string holding `s` to `out`.
fn push_json_string(out: &mut String, s: &str)
    ensures
        final(out)@ == old(out)@ + spec_json_string(s@),
{
    push_char(out, '"');
    escape_into(out, s);
    push_char(out, '"');
    proof {
        assert(final(out)@ =~= old(out)@ + spec_json_string(s@));
    }
}

/// The registration submission body for `client_id` and `topics`, exactly
/// `{"clientId":<id>,"subscriptions":[<topics>]}`.
pub fn registration_body(client_id: &str, topics: &Vec<String>) -> (r: String)
    ensures
        r@ == spec_registration_body(client_id@, topics.deep_view()),
{
    let ghost ts = topics.deep_view();
    let mut r = String::from_str("{\"clientId\":");
    push_json_string(&mut r, client_id);
    r.append(",\"subscriptions\":");
    push_char(&mut r, '[');
    let ghost pre = "{\"clientId\":"@ + spec_json_string(client_id@) + ",\"subscriptions\":"@
        + seq!['['];
    let n = topics.len();
    let mut i: usize = 0;
    while i < n
        invariant
            n == topics@.len(),
            ts == topics.deep_view(),
            i <= n,
            r@ == pre + spec_topics_items(ts.subrange(0, i as int)),
        decreases n - i,
    {
        if i > 0 {
            push_char(&mut r, ',');
        }
        push_json_string(&mut r, topics[i].as_str());
        proof {
            assert(ts[i as int] == topics@[i as int]@);
            let cur = ts.subrange(0, i + 1 as int);
            assert(cur.drop_last() =~= ts.subrange(0, i as int));
            assert(cur.last() == ts[i as int]);
            if i == 0 {
                assert(spec_topics_items(cur) == spec_json_string(ts[0]));
            }
            assert(r@ =~= pre + spec_topics_items(cur));
        }
        i = i + 1;
    }
    push_char(&mut r, ']');
    push_char(&mut r, '}');
    proof {
        assert(ts.subrange(0, n as int) =~= ts);
        assert(r@ =~= spec_registration_body(client_id@, ts));
    }
    r
}

/// A parsed JSON document of serde_json, opaque to the rest of the crate.
#[verifier::external_type_specification]
#[verifier::external_body]
pub struct ExJsonValue(serde_json::Value);

/// What serde_json's parse yields for a text: the parsed document, or
/// nothing when the text is not valid JSON.
pub uninterp spec fn spec_json_parse(s: Seq<char>) -> Option<serde_json::Value>;

/// Relies on `serde_json::from_str::<serde_json::Value>`: parses a JSON
/// document, `None` when the text is not valid JSON. The parsed value is
/// opaque here; only the accessors below look inside it.
#[verifier::external_body]
pub(crate) fn json_parse(s: &str) -> (r: Option<serde_json::Value>)
    ensures
        r == spec_json_parse(s@),
{
    serde_json::from_str::<serde_json::Value>(s).ok()
}

/// What looking a key up in a JSON value yields: the value under the key
/// when the document is an object holding it, nothing otherwise.
pub uninterp spec fn spec_json_get(v: serde_json::Value, key: Seq<char>) -> Option<serde_json::Value>;

/// Relies on `serde_json::Value::get`: the value under a key of a JSON
/// object, `None` when the value is not an object or lacks the key.
#[verifier::external_body]
pub(crate) fn json_get<'a>(v: &'a serde_json::Value, key: &str) -> (r: Option<&'a serde_json::Value>)
    ensures
        match r {
            Some(x) => spec_json_get(*v, key@) == Some(*x),
            None => spec_json_get(*v, key@) is None,
        },
{
    v.get(key)
}

/// What reading a JSON value as an unsigned integer yields.
pub uninterp spec fn spec_json_as_u64(v: serde_json::Value) -> Option<u64>;

/// Relies on `serde_json::Value::as_u64`: the value as an unsigned integer,
/// `None` when it is not a nonnegative integral number.
#[verifier::external_body]
pub(crate) fn json_as_u64(v: &serde_json::Value) -> (r: Option<u64>)
    ensures
        r == spec_json_as_u64(*v),
{
    v.as_u64()
}

/// What reading a JSON value as a signed integer yields.
pub uninterp spec fn spec_json_as_i64(v: serde_json::Value) -> Option<i64>;

/// Relies on `serde_json::Value::as_i64`: the value as a signed integer,
/// `None` when it is not an integral number that fits.
#[verifier::external_body]
pub(crate) fn json_as_i64(v: &serde_json::Value) -> (r: Option<i64>)
    ensures
        r == spec_json_as_i64(*v),
{
    v.as_i64()
}

/// What reading a JSON value as a string yields: its characters, when the
/// value is a JSON string.
pub uninterp spec fn spec_json_as_string(v: serde_json::Value) -> Option<Seq<char>>;

/// Relies on `serde_json::Value::as_str`: the value as a string, `None` when
/// it is not a JSON string.
#[verifier::external_body]
pub(crate) fn json_as_string(v: &serde_json::Value) -> (r: Option<String>)
    ensures
        match r {
            Some(s) => spec_json_as_string(*v) == Some(s@),
            None => spec_json_as_string(*v) is None,
        },
{
    v.as_str().map(|s| s.to_string())
}

/// What a JSON object holds: its entries in the object's own order, or
/// nothing when the value is not an object.
pub uninterp spec fn spec_json_object_entries(v: serde_json::Value) -> Option<Seq<(Seq<char>, serde_json::Value)>>;

/// Relies on `serde_json::Value::as_object` and map iteration: the entries of
/// a JSON object in the object's own order, `None` when the value is not an
/// object.
#[verifier::external_body]
pub(crate) fn json_object_entries(v: &serde_json::Value) -> (r: Option<Vec<(String, serde_json::Value)>>)
    ensures
        match r {
            Some(es) => {
                &&& spec_json_object_entries(*v) is Some
                &&& spec_json_object_entries(*v)->Some_0.len() == es@.len()
                &&& forall|i: int|
                    0 <= i < es@.len() ==> #[trigger] spec_json_object_entries(*v)->Some_0[i]
                        == (es@[i].0@, es@[i].1)
            },
            None => spec_json_object_entries(*v) is None,
        },
{
    v.as_object().map(|m| m.iter().map(|(k, w)| (k.clone(), w.clone())).collect())
}

/// The `code` member of a body's JSON object, read as an unsigned integer.
pub open spec fn spec_parsed_code(s: Seq<char>) -> Option<u64> {
    match spec_json_parse(s) {
        Some(v) => match spec_json_get(v, "code"@) {
            Some(c) => spec_json_as_u64(c),
            None => None,
        },
        None => None,
    }
}

/// The `message` member of a body's JSON object, read as a string.
pub open spec fn spec_parsed_message(s: Seq<char>) -> Option<Seq<char>> {
    match spec_json_parse(s) {
        Some(v) => match spec_json_get(v, "message"@) {
            Some(m) => spec_json_as_string(m),
            None => None,
        },
        None => None,
    }
}

/// JSON object entries read as string pairs; nothing when any value is not a
/// string.
pub open spec fn spec_entries_as_strings(es: Seq<(Seq<char>, serde_json::Value)>) -> Option<
    Seq<(Seq<char>, Seq<char>)>,
>
    decreases es.len(),
{
    if es.len() == 0 {
        Some(Seq::empty())
    } else {
        match spec_entries_as_strings(es.drop_last()) {
            Some(rest) => match spec_json_as_string(es.last().1) {
                Some(sv) => Some(rest.push((es.last().0, sv))),
                None => None,
            },
            None => None,
        }
    }
}

proof fn lemma_entries_as_strings_none(es: Seq<(Seq<char>, serde_json::Value)>, i: int)
    requires
        0 <= i < es.len(),
        spec_json_as_string(es[i].1) is None,
    ensures
        spec_entries_as_strings(es) is None,
    decreases es.len(),
{
    if i < es.len() - 1 {
        lemma_entries_as_strings_none(es.drop_last(), i);
    }
}

/// The `data` member of a body's JSON object, read as an object of strings.
pub open spec fn spec_parsed_data(s: Seq<char>) -> Option<Seq<(Seq<char>, Seq<char>)>> {
    match spec_json_parse(s) {
        Some(v) => match spec_json_get(v, "data"@) {
            Some(d) => match spec_json_object_entries(d) {
                Some(es) => spec_entries_as_strings(es),
                None => None,
            },
            None => None,
        },
        None => None,
    }
}

/// Whether a body parses as the structured error object the server sends:
/// a `code` that fits a byte, a `message` string, and a `data` object whose
/// values are strings.
pub open spec fn spec_error_body_ok(s: Seq<char>) -> bool {
    &&& spec_parsed_code(s) is Some
    &&& spec_parsed_code(s)->Some_0 <= 255
    &&& spec_parsed_message(s) is Some
    &&& spec_parsed_data(s) is Some
}

/// Read a structured error object `{code, message, data}` out of a response
/// body: exactly the bodies [`spec_error_body_ok`] accepts yield `Some`, and
/// the fields are the parsed members.
pub fn parse_error_body(body: &str) -> (r: Option<PocketBaseErrorResponse>)
    ensures
        r is Some <==> spec_error_body_ok(body@),
        r matches Some(resp) ==> {
            &&& resp.code == spec_parsed_code(body@)->Some_0
            &&& resp.message@ == spec_parsed_message(body@)->Some_0
            &&& resp.data.deep_view() == spec_parsed_data(body@)->Some_0
        },
{
    let v = match json_parse(body) {
        Some(v) => v,
        None => {
            return None;
        },
    };
    let code64 = match json_get(&v, "code") {
        Some(c) => match json_as_u64(c) {
            Some(n) => n,
            None => {
                return None;
            },
        },
        None => {
            return None;
        },
    };
    if code64 > 255 {
        return None;
    }
    let message = match json_get(&v, "message") {
        Some(m) => match json_as_string(m) {
            Some(s) => s,
            None => {
                return None;
            },
        },
        None => {
            return None;
        },
    };
    let entries = match json_get(&v, "data") {
        Some(d) => match json_object_entries(d) {
            Some(es) => es,
            None => {
                return None;
            },
        },
        None => {
            return None;
        },
    };
    let ghost ses = spec_json_object_entries(
        spec_json_get(spec_json_parse(body@)->Some_0, "data"@)->Some_0,
    )->Some_0;
    let mut data: Vec<(String, String)> = Vec::new();
    let n = entries.len();
    let mut i: usize = 0;
    proof {
        assert(ses.subrange(0, 0) =~= Seq::<(Seq<char>, serde_json::Value)>::empty());
    }
    while i < n
        invariant
            n == entries@.len(),
            i <= n,
            ses.len() == n,
            forall|j: int| 0 <= j < n ==> #[trigger] ses[j] == (entries@[j].0@, entries@[j].1),
            spec_parsed_data(body@) == spec_entries_as_strings(ses),
            spec_entries_as_strings(ses.subrange(0, i as int)) == Some(data.deep_view()),
            spec_parsed_code(body@) == Some(code64),
            code64 <= 255,
            spec_parsed_message(body@) == Some(message@),
        decreases n - i,
    {
        let val = match json_as_string(&entries[i].1) {
            Some(s) => s,
            None => {
                proof {
                    lemma_entries_as_strings_none(ses, i as int);
                }
                return None;
            },
        };
        data.push((entries[i].0.clone(), val));
        proof {
            let cur = ses.subrange(0, i + 1 as int);
            assert(cur.drop_last() =~= ses.subrange(0, i as int));
            assert(cur.last() == ses[i as int]);
            assert(data.deep_view() =~= spec_entries_as_strings(cur)->Some_0);
        }
        i = i + 1;
    }
    proof {
        assert(ses.subrange(0, n as int) =~= ses);
    }
    Some(PocketBaseErrorResponse { code: code64 as u8, message, data })
}

/// Decide what a registration response means: an empty body is success, a
/// non-empty body is the server's structured error, and a non-empty body
/// that cannot be read as one is a transport-level failure.
pub fn interpret_registration_response(body: &str) -> (r: Result<(), Error>)
    ensures
        r is Ok <==> body@.len() == 0,
        body@.len() > 0 && spec_error_body_ok(body@) ==> (r matches Err(e) && e matches
            Error::PocketBaseErrorResponse(resp) && resp.code == spec_parsed_code(body@)->Some_0
            && resp.message@ == spec_parsed_message(body@)->Some_0 && resp.data.deep_view()
            == spec_parsed_data(body@)->Some_0),
        body@.len() > 0 && !spec_error_body_ok(body@) ==> (r matches Err(e) && e matches
            Error::RequestFailed(m) && m@ == "could not parse the error body"@),
{
    if body.is_empty() {
        Ok(())
    } else {
        match parse_error_body(body) {
            Some(resp) => Err(Error::PocketBaseErrorResponse(resp)),
            None => Err(Error::RequestFailed(String::from_str("could not parse the error body"))),
        }
    }
}

} // verus!
