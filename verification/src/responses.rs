//! The uniform JSON response envelope.
//!
//! Every reply of the service takes one of exactly three shapes:
//! `{"status":"success"}`, `{"status":"success","data":<payload>}`, or
//! `{"status":"error","reason":<message>}`.  The payload of a success is
//! an already-serialized JSON value inserted verbatim; the reason of an
//! error is a string and is escaped here, so no message can break out of
//! the envelope.

use crate::hex::hex_digits;
use vstd::prelude::*;
use vstd::string::StrSliceExecFns;
use vstd::string::StringExecFns;

verus! {

/// How one character appears inside a JSON string literal: quote and
/// backslash are escaped, control characters take the `\u00XX` form, and
/// every other character stands for itself.
pub open spec fn json_escape_char(c: char) -> Seq<char> {
    if c == '"' {
        seq!['\\', '"']
    } else if c == '\\' {
        seq!['\\', '\\']
    } else if (c as nat) < 0x20 {
        seq!['\\', 'u', '0', '0'] + hex_digits(c as nat, 2)
    } else {
        seq![c]
    }
}

/// A string's characters, each escaped for a JSON string literal.
pub open spec fn json_escape(s: Seq<char>) -> Seq<char>
    decreases s.len(),
{
    if s.len() == 0 {
        Seq::empty()
    } else {
        json_escape(s.drop_last()) + json_escape_char(s.last())
    }
}

/// The bare success envelope.
pub open spec fn success_envelope() -> Seq<char> {
    "{\"status\":\"success\"}"@
}

/// The success envelope around a verbatim JSON payload.
pub open spec fn success_with_data_envelope(data: Seq<char>) -> Seq<char> {
    "{\"status\":\"success\",\"data\":"@ + data + "}"@
}

/// The error envelope around an escaped reason string.
pub open spec fn error_envelope(reason: Seq<char>) -> Seq<char> {
    "{\"status\":\"error\",\"reason\":\""@ + json_escape(reason) + "\"}"@
}

/// Appends `s`, escaped for the inside of a JSON string literal, to `out`.
fn push_json_escaped(out: &mut String, s: &str)
    ensures
        final(out)@ == old(out)@ + json_escape(s@),
{
    let n = s.unicode_len();
    let mut i: usize = 0;
    proof {
        assert(out@ =~= old(out)@ + json_escape(s@.take(0)));
    }
    while i < n
        invariant
            n == s@.len(),
            i <= n,
            out@ == old(out)@ + json_escape(s@.take(i as int)),
        decreases n - i,
    {
        let c = s.get_char(i);
        if c == '"' {
            out.append("\\\"");
            proof {
                reveal_strlit("\\\"");
                assert(("\\\"")@ =~= seq!['\\', '"']);
            }
        } else if c == '\\' {
            out.append("\\\\");
            proof {
                reveal_strlit("\\\\");
                assert(("\\\\")@ =~= seq!['\\', '\\']);
            }
        } else if (c as u32) < 0x20 {
            out.append("\\u00");
            crate::hex::push_hex(out, (c as u32) as u64, 2);
            proof {
                reveal_strlit("\\u00");
                assert(("\\u00")@ =~= seq!['\\', 'u', '0', '0']);
            }
        } else {
            out.push(c);
        }
        proof {
            assert(s@.take(i as int + 1).drop_last() =~= s@.take(i as int));
            assert(s@.take(i as int + 1).last() == s@[i as int]);
            assert(out@ =~= old(out)@ + json_escape(s@.take(i as int + 1)));
        }
        i += 1;
    }
    proof {
        assert(s@.take(n as int) =~= s@);
    }
}

/// `s` as a complete JSON string literal: quoted, with its characters
/// escaped.
pub fn json_string(s: &str) -> (r: String)
    ensures
        r@ == seq!['"'] + json_escape(s@) + seq!['"'],
{
    let mut out = String::from_str("\"");
    proof {
        reveal_strlit("\"");
        assert(("\"")@ =~= seq!['"']);
    }
    push_json_escaped(&mut out, s);
    out.append("\"");
    proof {
        assert(out@ =~= seq!['"'] + json_escape(s@) + seq!['"']);
    }
    out
}

/// A reply of the service: an HTTP status code and a JSON body in one of
/// the three envelope shapes.
#[derive(Debug)]
pub struct ApiResponse {
    json: String,
    status: u16,
}

impl ApiResponse {
    /// The JSON body.
    pub closed spec fn json_view(self) -> Seq<char> {
        self.json@
    }

    /// The HTTP status code.
    pub closed spec fn status_view(self) -> u16 {
        self.status
    }

    /// The body, for the transport layer to send.
    pub fn body(&self) -> (r: &String)
        ensures
            r@ == self.json_view(),
    {
        &self.json
    }

    /// The status code, for the transport layer to send.
    pub fn status_code(&self) -> (r: u16)
        ensures
            r == self.status_view(),
    {
        self.status
    }

    /// The bare success reply.
    pub fn success() -> (r: ApiResponse)
        ensures
            r.json_view() == success_envelope(),
            r.status_view() == 200u16,
    {
        ApiResponse { json: String::from_str("{\"status\":\"success\"}"), status: 200 }
    }

    /// A success reply carrying `data`, an already-serialized JSON value
    /// inserted verbatim into the envelope.
    pub fn success_with_data(data: String) -> (r: ApiResponse)
        ensures
            r.json_view() == success_with_data_envelope(data@),
            r.status_view() == 200u16,
    {
        let mut json = String::from_str("{\"status\":\"success\",\"data\":");
        json.append(data.as_str());
        json.append("}");
        proof {
            assert(json@ =~= success_with_data_envelope(data@));
        }
        ApiResponse { json, status: 200 }
    }

    /// An error reply whose reason is escaped into the envelope, under the
    /// given HTTP status code.
    pub fn error(message: String, status: u16) -> (r: ApiResponse)
        ensures
            r.json_view() == error_envelope(message@),
            r.status_view() == status,
    {
        let mut json = String::from_str("{\"status\":\"error\",\"reason\":\"");
        push_json_escaped(&mut json, message.as_str());
        json.append("\"}");
        proof {
            assert(json@ =~= error_envelope(message@));
        }
        ApiResponse { json, status }
    }
}

} // verus!
