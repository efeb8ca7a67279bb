use vstd::prelude::*;
use vstd::string::StrSliceExecFns;
use vstd::string::StringExecFns;
use crate::strutil::{dec_int, i64_to_dec, push_char};
use crate::types::{Outcome, OutcomeView, RequestId, RequestIdView, Response, ResponseView, Tool,
    ToolView};

verus! {

/// The character for one hexadecimal digit.
pub open spec fn hex_digit(d: int) -> char {
    if d == 0 {
        '0'
    } else if d == 1 {
        '1'
    } else if d == 2 {
        '2'
    } else if d == 3 {
        '3'
    } else if d == 4 {
        '4'
    } else if d == 5 {
        '5'
    } else if d == 6 {
        '6'
    } else if d == 7 {
        '7'
    } else if d == 8 {
        '8'
    } else if d == 9 {
        '9'
    } else if d == 10 {
        'a'
    } else if d == 11 {
        'b'
    } else if d == 12 {
        'c'
    } else if d == 13 {
        'd'
    } else if d == 14 {
        'e'
    } else {
        'f'
    }
}

/// How one character appears inside a JSON string literal: quote and
/// backslash are escaped, the named control characters use their short
/// escapes, the remaining control characters use `\u00XX`, and every other
/// character stands for itself.
pub open spec fn esc_char(c: char) -> Seq<char> {
    if c == '"' {
        seq!['\\', '"']
    } else if c == '\\' {
        seq!['\\', '\\']
    } else if c == '\u{8}' {
        seq!['\\', 'b']
    } else if c == '\t' {
        seq!['\\', 't']
    } else if c == '\n' {
        seq!['\\', 'n']
    } else if c == '\u{c}' {
        seq!['\\', 'f']
    } else if c == '\r' {
        seq!['\\', 'r']
    } else if (c as u32) < 32 {
        seq!['\\', 'u', '0', '0', hex_digit((c as u32) as int / 16), hex_digit(
            (c as u32) as int % 16,
        )]
    } else {
        seq![c]
    }
}

/// A whole string body, escaped character by character.
pub open spec fn esc_str(s: Seq<char>) -> Seq<char>
    decreases s.len(),
{
    if s.len() == 0 {
        Seq::empty()
    } else {
        esc_str(s.drop_last()) + esc_char(s.last())
    }
}

/// A JSON string literal: the escaped body between double quotes.
pub open spec fn enc_quoted(s: Seq<char>) -> Seq<char> {
    seq!['"'] + esc_str(s) + seq!['"']
}

fn hex_digit_exec(d: u32) -> (c: char)
    requires
        d < 16,
    ensures
        c == hex_digit(d as int),
{
    if d == 0 {
        '0'
    } else if d == 1 {
        '1'
    } else if d == 2 {
        '2'
    } else if d == 3 {
        '3'
    } else if d == 4 {
        '4'
    } else if d == 5 {
        '5'
    } else if d == 6 {
        '6'
    } else if d == 7 {
        '7'
    } else if d == 8 {
        '8'
    } else if d == 9 {
        '9'
    } else if d == 10 {
        'a'
    } else if d == 11 {
        'b'
    } else if d == 12 {
        'c'
    } else if d == 13 {
        'd'
    } else if d == 14 {
        'e'
    } else {
        'f'
    }
}

fn append_escaped_char(out: &mut String, c: char)
    ensures
        final(out)@ == old(out)@ + esc_char(c),
{
    if c == '"' {
        push_char(out, '\\');
        push_char(out, '"');
        proof {
            assert(final(out)@ =~= old(out)@ + esc_char(c));
        }
    } else if c == '\\' {
        push_char(out, '\\');
        push_char(out, '\\');
        proof {
            assert(final(out)@ =~= old(out)@ + esc_char(c));
        }
    } else if c == '\u{8}' {
        push_char(out, '\\');
        push_char(out, 'b');
        proof {
            assert(final(out)@ =~= old(out)@ + esc_char(c));
        }
    } else if c == '\t' {
        push_char(out, '\\');
        push_char(out, 't');
        proof {
            assert(final(out)@ =~= old(out)@ + esc_char(c));
        }
    } else if c == '\n' {
        push_char(out, '\\');
        push_char(out, 'n');
        proof {
            assert(final(out)@ =~= old(out)@ + esc_char(c));
        }
    } else if c == '\u{c}' {
        push_char(out, '\\');
        push_char(out, 'f');
        proof {
            assert(final(out)@ =~= old(out)@ + esc_char(c));
        }
    } else if c == '\r' {
        push_char(out, '\\');
        push_char(out, 'r');
        proof {
            assert(final(out)@ =~= old(out)@ + esc_char(c));
        }
    } else if (c as u32) < 32 {
        let code = c as u32;
        push_char(out, '\\');
        push_char(out, 'u');
        push_char(out, '0');
        push_char(out, '0');
        push_char(out, hex_digit_exec(code / 16));
        push_char(out, hex_digit_exec(code % 16));
        proof {
            assert(final(out)@ =~= old(out)@ + esc_char(c));
        }
    } else {
        push_char(out, c);
        proof {
            assert(final(out)@ =~= old(out)@ + esc_char(c));
        }
    }
}

/// Appends the escaped body of a string.
fn append_escaped(out: &mut String, s: &str)
    ensures
        final(out)@ == old(out)@ + esc_str(s@),
{
    let n = s.unicode_len();
    let mut i: usize = 0;
    while i < n
        invariant
            i <= n,
            n == s@.len(),
            out@ == old(out)@ + esc_str(s@.take(i as int)),
        decreases n - i,
    {
        let c = s.get_char(i);
        append_escaped_char(out, c);
        proof {
            let t = s@.take(i + 1 as int);
            assert(t.drop_last() =~= s@.take(i as int));
            assert(t.last() == s@[i as int]);
            assert(out@ =~= old(out)@ + esc_str(s@.take(i + 1 as int)));
        }
        i += 1;
    }
    proof {
        assert(s@.take(n as int) =~= s@);
    }
}

/// Appends a JSON string literal.
fn append_quoted(out: &mut String, s: &str)
    ensures
        final(out)@ == old(out)@ + enc_quoted(s@),
{
    push_char(out, '"');
    append_escaped(out, s);
    push_char(out, '"');
    proof {
        assert(final(out)@ =~= old(out)@ + enc_quoted(s@));
    }
}

/// How a request id appears on the wire, keeping its JSON type.
pub open spec fn enc_id(id: RequestIdView) -> Seq<char> {
    match id {
        RequestIdView::Num(n) => dec_int(n),
        RequestIdView::Bool(b) => if b {
            "true"@
        } else {
            "false"@
        },
        RequestIdView::Str(s) => enc_quoted(s),
        RequestIdView::Null => "null"@,
    }
}

fn append_id(out: &mut String, id: &RequestId)
    ensures
        final(out)@ == old(out)@ + enc_id(id@),
{
    match id {
        RequestId::Num(n) => {
            let d = i64_to_dec(*n);
            out.append(d.as_str());
        },
        RequestId::Bool(b) => {
            if *b {
                out.append("true");
            } else {
                out.append("false");
            }
        },
        RequestId::Str(s) => {
            append_quoted(out, s.as_str());
        },
        RequestId::Null => {
            out.append("null");
        },
    }
}

/// One tool descriptor of a `tools/list` result; the input schema is the
/// fixed placeholder object.
pub open spec fn enc_tool(t: ToolView) -> Seq<char> {
    "{\"name\":"@ + enc_quoted(t.name) + ",\"description\":"@ + enc_quoted(t.description)
        + ",\"inputSchema\":{\"type\":\"object\",\"properties\":{},\"required\":[]}}"@
}

/// The comma-separated tool descriptors, in catalog order.
pub open spec fn enc_tools(ts: Seq<ToolView>) -> Seq<char>
    decreases ts.len(),
{
    if ts.len() == 0 {
        Seq::empty()
    } else if ts.len() == 1 {
        enc_tool(ts[0])
    } else {
        enc_tools(ts.drop_last()) + ","@ + enc_tool(ts.last())
    }
}

fn append_tool(out: &mut String, t: &Tool)
    ensures
        final(out)@ == old(out)@ + enc_tool(t@),
{
    out.append("{\"name\":");
    append_quoted(out, t.name.as_str());
    out.append(",\"description\":");
    append_quoted(out, t.description.as_str());
    out.append(",\"inputSchema\":{\"type\":\"object\",\"properties\":{},\"required\":[]}}");
    proof {
        assert(final(out)@ =~= old(out)@ + enc_tool(t@));
    }
}

fn append_tools(out: &mut String, ts: &Vec<Tool>)
    ensures
        final(out)@ == old(out)@ + enc_tools(ts@.map_values(|t: Tool| t@)),
{
    let ghost vts = ts@.map_values(|t: Tool| t@);
    let n = ts.len();
    let mut i: usize = 0;
    while i < n
        invariant
            i <= n,
            n == ts@.len(),
            vts == ts@.map_values(|t: Tool| t@),
            vts.len() == n,
            out@ == old(out)@ + enc_tools(vts.take(i as int)),
        decreases n - i,
    {
        if i > 0 {
            out.append(",");
        }
        append_tool(out, &ts[i]);
        proof {
            let t = vts.take(i + 1 as int);
            assert(t.drop_last() =~= vts.take(i as int));
            assert(t.last() == vts[i as int]);
            if i == 0 {
                assert(out@ =~= old(out)@ + enc_tools(vts.take(i + 1 as int)));
            } else {
                assert(out@ =~= old(out)@ + enc_tools(vts.take(i + 1 as int)));
            }
        }
        i += 1;
    }
    proof {
        assert(vts.take(n as int) =~= vts);
    }
}

/// The member carrying a handler's outcome: a `result` member on success, an
/// `error` member on failure, never both.
pub open spec fn enc_outcome(o: OutcomeView) -> Seq<char> {
    match o {
        OutcomeView::Init => "\"result\":{\"protocolVersion\":\"2024-11-05\",\"capabilities\":{\"tools\":{}},\"serverInfo\":{\"name\":\"rapid-mcp-server-rust\",\"version\":\"0.1.0\"}}"@,
        OutcomeView::ToolList(ts) => "\"result\":{\"tools\":["@ + enc_tools(ts) + "]}"@,
        OutcomeView::CallText(s) => "\"result\":{\"content\":[{\"type\":\"text\",\"text\":"@
            + enc_quoted(s) + "}]}"@,
        OutcomeView::Failure(e) => "\"error\":{\"code\":"@ + dec_int(e.code) + ",\"message\":"@
            + enc_quoted(e.message) + "}"@,
    }
}

fn append_outcome(out: &mut String, o: &Outcome)
    ensures
        final(out)@ == old(out)@ + enc_outcome(o@),
{
    match o {
        Outcome::Init => {
            out.append(
                "\"result\":{\"protocolVersion\":\"2024-11-05\",\"capabilities\":{\"tools\":{}},\"serverInfo\":{\"name\":\"rapid-mcp-server-rust\",\"version\":\"0.1.0\"}}",
            );
        },
        Outcome::ToolList(ts) => {
            out.append("\"result\":{\"tools\":[");
            append_tools(out, ts);
            out.append("]}");
            proof {
                assert(final(out)@ =~= old(out)@ + enc_outcome(o@));
            }
        },
        Outcome::CallText(s) => {
            out.append("\"result\":{\"content\":[{\"type\":\"text\",\"text\":");
            append_quoted(out, s.as_str());
            out.append("}]}");
            proof {
                assert(final(out)@ =~= old(out)@ + enc_outcome(o@));
            }
        },
        Outcome::Failure(e) => {
            out.append("\"error\":{\"code\":");
            let d = i64_to_dec(e.code);
            out.append(d.as_str());
            out.append(",\"message\":");
            append_quoted(out, e.message.as_str());
            out.append("}");
            proof {
                assert(final(out)@ =~= old(out)@ + enc_outcome(o@));
            }
        },
    }
}

/// Law: exactly one of `result` or `error` is present in any response. An
/// outcome that is not a failure is carried under a member named `result`,
/// and a failure under one named `error`; the two member names exclude one
/// another, so no frame carries both.
pub proof fn lemma_outcome_member(o: OutcomeView)
    ensures
        !(o is Failure) ==> enc_outcome(o).take(9) == "\"result\":"@,
        o is Failure ==> enc_outcome(o).take(8) == "\"error\":"@,
{
    reveal_strlit("\"result\":");
    reveal_strlit("\"error\":");
    match o {
        OutcomeView::Init => {
            reveal_strlit(
                "\"result\":{\"protocolVersion\":\"2024-11-05\",\"capabilities\":{\"tools\":{}},\"serverInfo\":{\"name\":\"rapid-mcp-server-rust\",\"version\":\"0.1.0\"}}",
            );
            assert(enc_outcome(o).take(9) =~= "\"result\":"@);
        },
        OutcomeView::ToolList(ts) => {
            reveal_strlit("\"result\":{\"tools\":[");
            assert(enc_outcome(o).take(9) =~= "\"result\":"@);
        },
        OutcomeView::CallText(t) => {
            reveal_strlit("\"result\":{\"content\":[{\"type\":\"text\",\"text\":");
            assert(enc_outcome(o).take(9) =~= "\"result\":"@);
        },
        OutcomeView::Failure(e) => {
            reveal_strlit("\"error\":{\"code\":");
            assert(enc_outcome(o).take(8) =~= "\"error\":"@);
        },
    }
}

/// The whole response frame, without the trailing newline.
pub open spec fn enc_response(r: ResponseView) -> Seq<char> {
    "{\"jsonrpc\":\"2.0\",\"id\":"@ + enc_id(r.id) + ","@ + enc_outcome(r.outcome) + "}"@
}

/// Serializes one response as a single JSON line.
pub fn encode_response(r: &Response) -> (out: String)
    ensures
        out@ == enc_response(r@),
{
    let mut out = String::new();
    out.append("{\"jsonrpc\":\"2.0\",\"id\":");
    append_id(&mut out, &r.id);
    out.append(",");
    append_outcome(&mut out, &r.outcome);
    out.append("}");
    proof {
        assert(out@ =~= enc_response(r@));
    }
    out
}

} // verus!
