//! JSON serialization of the response envelopes.
//!
//! The wire format is fixed: each envelope is one JSON object whose fields
//! appear in declaration order, with every string quoted and escaped as the
//! spec functions here state. Non-ASCII characters are passed through raw,
//! which JSON permits; only the quote, the backslash and control characters
//! are escaped.

use vstd::prelude::*;
use vstd::string::StrSliceExecFns;
use vstd::string::StringExecFns;

use crate::models::ApiResponse;
use crate::models::StatusResponse;

verus! {

/// Relies on std's `String::push`: appends exactly one character.
pub assume_specification[ String::push ](s: &mut String, c: char)
    ensures
        final (s)@ == old(s)@ + seq![c],
;

/// The lower-case hexadecimal digit for a value below sixteen.
pub open spec fn hex_digit(n: int) -> char {
    if n == 0 {
        '0'
    } else if n == 1 {
        '1'
    } else if n == 2 {
        '2'
    } else if n == 3 {
        '3'
    } else if n == 4 {
        '4'
    } else if n == 5 {
        '5'
    } else if n == 6 {
        '6'
    } else if n == 7 {
        '7'
    } else if n == 8 {
        '8'
    } else if n == 9 {
        '9'
    } else if n == 10 {
        'a'
    } else if n == 11 {
        'b'
    } else if n == 12 {
        'c'
    } else if n == 13 {
        'd'
    } else if n == 14 {
        'e'
    } else {
        'f'
    }
}

/// How one character appears inside a JSON string literal.
pub open spec fn escaped_char(c: char) -> Seq<char> {
    if c == '"' {
        seq!['\\', '"']
    } else if c == '\\' {
        seq!['\\', '\\']
    } else if c == '\n' {
        seq!['\\', 'n']
    } else if c == '\r' {
        seq!['\\', 'r']
    } else if c == '\t' {
        seq!['\\', 't']
    } else if (c as u32) < 32 {
        seq!['\\', 'u', '0', '0', hex_digit((c as u32) as int / 16), hex_digit((c as u32) as int % 16)]
    } else {
        seq![c]
    }
}

/// How a whole character sequence appears inside a JSON string literal.
pub open spec fn escaped(s: Seq<char>) -> Seq<char>
    decreases s.len(),
{
    if s.len() == 0 {
        Seq::empty()
    } else {
        escaped(s.drop_last()) + escaped_char(s.last())
    }
}

/// A JSON string literal: the escaped text between double quotes.
pub open spec fn json_quoted(s: Seq<char>) -> Seq<char> {
    seq!['"'] + escaped(s) + seq!['"']
}

fn hex_digit_char(n: u32) -> (c: char)
    requires
        n < 16,
    ensures
        c == hex_digit(n as int),
{
    if n == 0 {
        '0'
    } else if n == 1 {
        '1'
    } else if n == 2 {
        '2'
    } else if n == 3 {
        '3'
    } else if n == 4 {
        '4'
    } else if n == 5 {
        '5'
    } else if n == 6 {
        '6'
    } else if n == 7 {
        '7'
    } else if n == 8 {
        '8'
    } else if n == 9 {
        '9'
    } else if n == 10 {
        'a'
    } else if n == 11 {
        'b'
    } else if n == 12 {
        'c'
    } else if n == 13 {
        'd'
    } else if n == 14 {
        'e'
    } else {
        'f'
    }
}

fn append_escaped_char(out: &mut String, c: char)
    ensures
        final (out)@ == old(out)@ + escaped_char(c),
{
    if c == '"' {
        out.append("\\\"");
        proof {
            reveal_strlit("\\\"");
            assert("\\\""@ =~= escaped_char(c));
        }
    } else if c == '\\' {
        out.append("\\\\");
        proof {
            reveal_strlit("\\\\");
            assert("\\\\"@ =~= escaped_char(c));
        }
    } else if c == '\n' {
        out.append("\\n");
        proof {
            reveal_strlit("\\n");
            assert("\\n"@ =~= escaped_char(c));
        }
    } else if c == '\r' {
        out.append("\\r");
        proof {
            reveal_strlit("\\r");
            assert("\\r"@ =~= escaped_char(c));
        }
    } else if c == '\t' {
        out.append("\\t");
        proof {
            reveal_strlit("\\t");
            assert("\\t"@ =~= escaped_char(c));
        }
    } else if (c as u32) < 32 {
        out.append("\\u00");
        out.push(hex_digit_char((c as u32) / 16));
        out.push(hex_digit_char((c as u32) % 16));
        proof {
            reveal_strlit("\\u00");
            assert(out@ =~= old(out)@ + escaped_char(c));
        }
    } else {
        out.push(c);
        assert(out@ =~= old(out)@ + escaped_char(c));
    }
}

/// Appends `s` to `out` as a JSON string literal: quoted and escaped.
pub fn append_json_quoted(out: &mut String, s: &str)
    ensures
        final (out)@ == old(out)@ + json_quoted(s@),
{
    out.append("\"");
    proof {
        reveal_strlit("\"");
        assert("\""@ =~= seq!['"']);
    }
    let n = s.unicode_len();
    let mut i: usize = 0;
    while i < n
        invariant
            n == s@.len(),
            i <= n,
            out@ == old(out)@ + seq!['"'] + escaped(s@.take(i as int)),
        decreases n - i,
    {
        let c = s.get_char(i);
        append_escaped_char(out, c);
        proof {
            assert(s@.take(i as int + 1).drop_last() =~= s@.take(i as int));
            assert(s@.take(i as int + 1).last() == s@[i as int]);
            assert(escaped(s@.take(i as int + 1)) == escaped(s@.take(i as int)) + escaped_char(
                s@[i as int],
            ));
        }
        i += 1;
    }
    proof {
        assert(s@.take(n as int) =~= s@);
    }
    out.append("\"");
    proof {
        assert(out@ =~= old(out)@ + json_quoted(s@));
    }
}

/// The serialized form of a generic envelope.
pub open spec fn api_response_json(message: Seq<char>, status: Seq<char>, timestamp: Seq<char>) -> Seq<char> {
    "{\"message\":"@ + json_quoted(message) + ",\"status\":"@ + json_quoted(status)
        + ",\"timestamp\":"@ + json_quoted(timestamp) + "}"@
}

/// The serialized form of a status envelope.
pub open spec fn status_response_json(
    service: Seq<char>,
    version: Seq<char>,
    status: Seq<char>,
    message: Seq<char>,
) -> Seq<char> {
    "{\"service\":"@ + json_quoted(service) + ",\"version\":"@ + json_quoted(version)
        + ",\"status\":"@ + json_quoted(status) + ",\"message\":"@ + json_quoted(message) + "}"@
}

/// Serializes a generic envelope to its JSON object.
pub fn encode_api_response(r: &ApiResponse) -> (out: String)
    ensures
        out@ == api_response_json(r.message@, r.status@, r.timestamp@),
{
    let mut out = String::new();
    out.append("{\"message\":");
    append_json_quoted(&mut out, r.message.as_str());
    out.append(",\"status\":");
    append_json_quoted(&mut out, r.status.as_str());
    out.append(",\"timestamp\":");
    append_json_quoted(&mut out, r.timestamp.as_str());
    out.append("}");
    proof {
        assert(out@ =~= api_response_json(r.message@, r.status@, r.timestamp@));
    }
    out
}

/// Serializes a status envelope to its JSON object.
pub fn encode_status_response(r: &StatusResponse) -> (out: String)
    ensures
        out@ == status_response_json(r.service@, r.version@, r.status@, r.message@),
{
    let mut out = String::new();
    out.append("{\"service\":");
    append_json_quoted(&mut out, r.service.as_str());
    out.append(",\"version\":");
    append_json_quoted(&mut out, r.version.as_str());
    out.append(",\"status\":");
    append_json_quoted(&mut out, r.status.as_str());
    out.append(",\"message\":");
    append_json_quoted(&mut out, r.message.as_str());
    out.append("}");
    proof {
        assert(out@ =~= status_response_json(r.service@, r.version@, r.status@, r.message@));
    }
    out
}

} // verus!
