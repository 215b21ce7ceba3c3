//! A minimal JSON-RPC 2.0 response envelope, with a verified JSON
//! encoder whose output matches the conventional derived encoding of
//! these structures field by field.

use vstd::prelude::*;

verus! {

/// A JSON-RPC 2.0 error object.
#[derive(Debug, Clone, PartialEq)]
pub struct JsonRpcError {
    pub code: i32,
    pub message: String,
    pub data: Option<String>,
}

impl JsonRpcError {
    /// Builds an error object from its parts.
    pub fn new(code: i32, message: String, data: Option<String>) -> (r: Self)
        ensures
            r.code == code,
            r.message == message,
            r.data == data,
    {
        JsonRpcError { code, message, data }
    }
}

/// A JSON-RPC 2.0 response wrapper.  The protocol version is pinned to
/// "2.0" at construction; a well-formed response carries exactly one
/// of `result` and `error`.
#[derive(Debug, Clone, PartialEq)]
pub struct JsonRpcResponse {
    pub jsonrpc: String,
    pub result: Option<String>,
    pub error: Option<JsonRpcError>,
    pub id: String,
}

impl JsonRpcResponse {
    /// Exactly one of `result` and `error` is populated, under the
    /// fixed protocol version tag.
    pub open spec fn wf(self) -> bool {
        &&& self.jsonrpc@ == "2.0"@
        &&& (self.result is Some <==> self.error is None)
    }

    /// Builds a response with the protocol version fixed to "2.0".
    pub fn new(id: String, result: Option<String>, error: Option<JsonRpcError>) -> (r: Self)
        ensures
            r.jsonrpc@ == "2.0"@,
            r.result == result,
            r.error == error,
            r.id == id,
    {
        JsonRpcResponse { jsonrpc: "2.0".to_owned(), result, error, id }
    }
}

/// The character for the hexadecimal digit `d`.
pub open spec fn digit_char(d: int) -> char {
    if d == 0 {
        '0'
    } else if d == 1 {
        '1'
    } else if d == 2 {
        '2'
    } else if d == 3 {
        '3'
    } else if d == 4 {
        '4'
    } else if d == 5 {
        '5'
    } else if d == 6 {
        '6'
    } else if d == 7 {
        '7'
    } else if d == 8 {
        '8'
    } else if d == 9 {
        '9'
    } else if d == 10 {
        'a'
    } else if d == 11 {
        'b'
    } else if d == 12 {
        'c'
    } else if d == 13 {
        'd'
    } else if d == 14 {
        'e'
    } else {
        'f'
    }
}

/// The decimal digits of `n`, most significant first.
pub open spec fn dec_nat(n: nat) -> Seq<char>
    decreases n,
{
    if n < 10 {
        seq![digit_char(n as int)]
    } else {
        dec_nat(n / 10) + seq![digit_char((n % 10) as int)]
    }
}

/// The decimal rendering of `n`, with a leading minus when negative.
pub open spec fn dec_int(n: int) -> Seq<char> {
    if n < 0 {
        seq!['-'] + dec_nat((-n) as nat)
    } else {
        dec_nat(n as nat)
    }
}

/// How one character appears inside a JSON string literal: quote and
/// backslash escaped, the common control characters by letter, the
/// rest of the control range as a \u00XX escape with lowercase hex,
/// and everything else as itself.
pub open spec fn escape_char(c: char) -> Seq<char> {
    if c == '"' {
        seq!['\\', '"']
    } else if c == '\\' {
        seq!['\\', '\\']
    } else if c == '\u{8}' {
        seq!['\\', 'b']
    } else if c == '\t' {
        seq!['\\', 't']
    } else if c == '\n' {
        seq!['\\', 'n']
    } else if c == '\u{c}' {
        seq!['\\', 'f']
    } else if c == '\r' {
        seq!['\\', 'r']
    } else if (c as u32) < 32 {
        seq!['\\', 'u', '0', '0', digit_char(c as u32 as int / 16), digit_char(c as u32 as int % 16)]
    } else {
        seq![c]
    }
}

/// A whole string body, escaped character by character.
pub open spec fn json_escape(s: Seq<char>) -> Seq<char>
    decreases s.len(),
{
    if s.len() == 0 {
        Seq::empty()
    } else {
        json_escape(s.drop_last()) + escape_char(s.last())
    }
}

/// A JSON string literal: the escaped body between double quotes.
pub open spec fn json_string(s: Seq<char>) -> Seq<char> {
    seq!['"'] + json_escape(s) + seq!['"']
}

/// The JSON object an error encodes to, fields in declaration order,
/// an absent `data` as null.
pub open spec fn json_of_error(e: JsonRpcError) -> Seq<char> {
    "{\"code\":"@ + dec_int(e.code as int) + ",\"message\":"@ + json_string(e.message@)
        + ",\"data\":"@ + (match e.data {
        Some(d) => json_string(d@),
        None => "null"@,
    }) + "}"@
}

/// The JSON object a response encodes to, fields in declaration
/// order, absent options as null.
pub open spec fn json_of_response(r: JsonRpcResponse) -> Seq<char> {
    "{\"jsonrpc\":"@ + json_string(r.jsonrpc@) + ",\"result\":"@ + (match r.result {
        Some(s) => json_string(s@),
        None => "null"@,
    }) + ",\"error\":"@ + (match r.error {
        Some(e) => json_of_error(e),
        None => "null"@,
    }) + ",\"id\":"@ + json_string(r.id@) + "}"@
}

/// The one-character string for the hexadecimal digit `d`.
fn digit_str(d: u8) -> (r: &'static str)
    requires
        d < 16,
    ensures
        r@ == seq![digit_char(d as int)],
{
    proof {
        reveal_strlit("0");
        reveal_strlit("1");
        reveal_strlit("2");
        reveal_strlit("3");
        reveal_strlit("4");
        reveal_strlit("5");
        reveal_strlit("6");
        reveal_strlit("7");
        reveal_strlit("8");
        reveal_strlit("9");
        reveal_strlit("a");
        reveal_strlit("b");
        reveal_strlit("c");
        reveal_strlit("d");
        reveal_strlit("e");
        reveal_strlit("f");
    }
    let r: &'static str = if d == 0 {
        "0"
    } else if d == 1 {
        "1"
    } else if d == 2 {
        "2"
    } else if d == 3 {
        "3"
    } else if d == 4 {
        "4"
    } else if d == 5 {
        "5"
    } else if d == 6 {
        "6"
    } else if d == 7 {
        "7"
    } else if d == 8 {
        "8"
    } else if d == 9 {
        "9"
    } else if d == 10 {
        "a"
    } else if d == 11 {
        "b"
    } else if d == 12 {
        "c"
    } else if d == 13 {
        "d"
    } else if d == 14 {
        "e"
    } else {
        "f"
    };
    proof {
        assert(r@ =~= seq![digit_char(d as int)]);
    }
    r
}

/// Appends the decimal digits of `n`.
fn append_dec_u64(out: &mut String, n: u64)
    ensures
        final (out)@ == old(out)@ + dec_nat(n as nat),
    decreases n,
{
    if n < 10 {
        out.append(digit_str(n as u8));
    } else {
        append_dec_u64(out, n / 10);
        out.append(digit_str((n % 10) as u8));
        proof {
            assert((old(out)@ + dec_nat((n / 10) as nat)) + seq![digit_char((n % 10) as int)] =~= old(
                out,
            )@ + dec_nat(n as nat));
        }
    }
}

/// Appends the decimal rendering of `n`, minus sign included.
fn append_dec_i32(out: &mut String, n: i32)
    ensures
        final (out)@ == old(out)@ + dec_int(n as int),
{
    if n < 0 {
        out.append("-");
        let m: u64 = (-(n as i64)) as u64;
        append_dec_u64(out, m);
        proof {
            reveal_strlit("-");
            assert("-"@ =~= seq!['-']);
            assert((old(out)@ + "-"@) + dec_nat(m as nat) =~= old(out)@ + dec_int(n as int));
        }
    } else {
        append_dec_u64(out, n as u64);
    }
}

/// Appends the escaped body of `s`.
fn append_escaped(out: &mut String, s: &str)
    ensures
        final (out)@ == old(out)@ + json_escape(s@),
{
    let n = s.unicode_len();
    proof {
        assert(s@.take(0) =~= Seq::<char>::empty());
    }
    let mut i: usize = 0;
    while i < n
        invariant
            i <= n,
            n == s@.len(),
            out@ == old(out)@ + json_escape(s@.take(i as int)),
        decreases n - i,
    {
        let c = s.get_char(i);
        proof {
            assert(s@.take(i as int + 1).drop_last() =~= s@.take(i as int));
            assert(s@.take(i as int + 1).last() == s@[i as int]);
        }
        let ghost pre = out@;
        if c == '"' {
            out.append("\\\"");
            proof {
                reveal_strlit("\\\"");
                assert("\\\""@ =~= seq!['\\', '"']);
            }
        } else if c == '\\' {
            out.append("\\\\");
            proof {
                reveal_strlit("\\\\");
                assert("\\\\"@ =~= seq!['\\', '\\']);
            }
        } else if c == '\u{8}' {
            out.append("\\b");
            proof {
                reveal_strlit("\\b");
                assert("\\b"@ =~= seq!['\\', 'b']);
            }
        } else if c == '\t' {
            out.append("\\t");
            proof {
                reveal_strlit("\\t");
                assert("\\t"@ =~= seq!['\\', 't']);
            }
        } else if c == '\n' {
            out.append("\\n");
            proof {
                reveal_strlit("\\n");
                assert("\\n"@ =~= seq!['\\', 'n']);
            }
        } else if c == '\u{c}' {
            out.append("\\f");
            proof {
                reveal_strlit("\\f");
                assert("\\f"@ =~= seq!['\\', 'f']);
            }
        } else if c == '\r' {
            out.append("\\r");
            proof {
                reveal_strlit("\\r");
                assert("\\r"@ =~= seq!['\\', 'r']);
            }
        } else if (c as u32) < 32 {
            let cu = c as u32;
            out.append("\\u00");
            out.append(digit_str((cu / 16) as u8));
            out.append(digit_str((cu % 16) as u8));
            proof {
                reveal_strlit("\\u00");
                assert("\\u00"@ =~= seq!['\\', 'u', '0', '0']);
                assert(((pre + "\\u00"@) + seq![digit_char(cu as int / 16)]) + seq![
                    digit_char(cu as int % 16),
                ] =~= pre + escape_char(c));
            }
        } else {
            let piece = s.substring_char(i, i + 1);
            out.append(piece);
            proof {
                assert(s@.subrange(i as int, i as int + 1) =~= seq![s@[i as int]]);
            }
        }
        proof {
            assert(out@ =~= old(out)@ + json_escape(s@.take(i as int + 1)));
        }
        i += 1;
    }
    proof {
        assert(s@.take(n as int) =~= s@);
    }
}

/// Appends `s` as a JSON string literal.
fn append_json_string(out: &mut String, s: &str)
    ensures
        final (out)@ == old(out)@ + json_string(s@),
{
    out.append("\"");
    append_escaped(out, s);
    out.append("\"");
    proof {
        reveal_strlit("\"");
        assert("\""@ =~= seq!['"']);
        assert(((old(out)@ + "\""@) + json_escape(s@)) + "\""@ =~= old(out)@ + json_string(s@));
    }
}

/// Appends the JSON object for an error.
fn append_json_error(out: &mut String, e: &JsonRpcError)
    ensures
        final (out)@ == old(out)@ + json_of_error(*e),
{
    out.append("{\"code\":");
    append_dec_i32(out, e.code);
    out.append(",\"message\":");
    append_json_string(out, e.message.as_str());
    out.append(",\"data\":");
    match &e.data {
        Some(d) => append_json_string(out, d.as_str()),
        None => out.append("null"),
    }
    out.append("}");
    proof {
        assert(out@ =~= old(out)@ + json_of_error(*e));
    }
}

impl JsonRpcResponse {
    /// Encodes the response as a JSON string: fields in declaration
    /// order, absent options as null.  Every representable response
    /// encodes; nothing here can fail.
    pub fn to_json(&self) -> (r: String)
        ensures
            r@ == json_of_response(*self),
    {
        let mut out = String::new();
        out.append("{\"jsonrpc\":");
        append_json_string(&mut out, self.jsonrpc.as_str());
        out.append(",\"result\":");
        match &self.result {
            Some(s) => append_json_string(&mut out, s.as_str()),
            None => out.append("null"),
        }
        out.append(",\"error\":");
        match &self.error {
            Some(e) => append_json_error(&mut out, e),
            None => out.append("null"),
        }
        out.append(",\"id\":");
        append_json_string(&mut out, self.id.as_str());
        out.append("}");
        proof {
            assert(out@ =~= json_of_response(*self));
        }
        out
    }
}

} // verus!
