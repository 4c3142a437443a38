//! The notifications an observer receives about tracked operations.
//!
//! Every tracked operation produces exactly one start event, then zero
//! or more line events as its output streams are drained, then exactly
//! one end event.  Delivery to the outside world is the caller's
//! affair; the library only builds the events and fixes their order.

use vstd::prelude::*;
use crate::text::{dec_digits, hex_digit_char, hex_digit_str, u32_to_string};

verus! {

/// Which output stream of the subprocess a line arrived on.
#[derive(Clone, Copy, PartialEq, Eq, Structural, Debug)]
pub enum StreamKind {
    Stdout,
    Stderr,
}

/// One notification about a tracked operation.
#[derive(Debug)]
pub enum Event {
    /// Emitted before the subprocess is spawned.
    Start { id: u32, label: String, command: String },
    /// One complete line read from one of the subprocess's streams.
    Line { id: u32, stream: StreamKind, text: String },
    /// Emitted exactly once, when the operation reaches a terminal
    /// state.
    End { id: u32, success: bool, message: String },
}

/// The start event of an operation with these coordinates.
pub open spec fn is_start_event(e: Event, id: u32, label: Seq<char>, command: Seq<char>) -> bool {
    e matches Event::Start { id: i, label: l, command: c } && i == id && l@ == label && c@
        == command
}

/// A line event of this operation carrying exactly this text.
pub open spec fn is_line_event(e: Event, id: u32, stream: StreamKind, text: Seq<char>) -> bool {
    e matches Event::Line { id: i, stream: s, text: t } && i == id && s == stream && t@ == text
}

/// The end event of this operation with this success flag and message.
pub open spec fn is_end_event(e: Event, id: u32, success: bool, message: Seq<char>) -> bool {
    e matches Event::End { id: i, success: s, message: m } && i == id && s == success && m@
        == message
}

/// How one character is written inside a JSON string: quote,
/// backslash and the named control characters get two-character
/// escapes, other control characters a `\u00..` escape, everything
/// else stands as itself.
pub open spec fn esc_char(c: char) -> Seq<char> {
    if c == '"' {
        seq!['\\', '"']
    } else if c == '\\' {
        seq!['\\', '\\']
    } else if c == '\n' {
        seq!['\\', 'n']
    } else if c == '\r' {
        seq!['\\', 'r']
    } else if c == '\t' {
        seq!['\\', 't']
    } else if (c as u32) < 32 {
        seq![
            '\\',
            'u',
            '0',
            '0',
            hex_digit_char(c as u32 as int / 16),
            hex_digit_char(c as u32 as int % 16),
        ]
    } else {
        seq![c]
    }
}

/// A character sequence written as the body of a JSON string.
pub open spec fn json_escaped(s: Seq<char>) -> Seq<char>
    decreases s.len(),
{
    if s.len() == 0 {
        Seq::empty()
    } else {
        json_escaped(s.drop_last()) + esc_char(s.last())
    }
}

/// Escapes a string for embedding in a JSON string literal.
pub fn json_escape(s: &str) -> (r: String)
    ensures
        r@ == json_escaped(s@),
{
    let n = s.unicode_len();
    let mut out = String::new();
    let mut i: usize = 0;
    while i < n
        invariant
            n == s@.len(),
            i <= n,
            out@ == json_escaped(s@.subrange(0, i as int)),
        decreases n - i,
    {
        let c = s.get_char(i);
        if c == '"' {
            out.append("\\\"");
            proof {
                reveal_strlit("\\\"");
                assert("\\\""@ =~= esc_char(c));
            }
        } else if c == '\\' {
            out.append("\\\\");
            proof {
                reveal_strlit("\\\\");
                assert("\\\\"@ =~= esc_char(c));
            }
        } else if c == '\n' {
            out.append("\\n");
            proof {
                reveal_strlit("\\n");
                assert("\\n"@ =~= esc_char(c));
            }
        } else if c == '\r' {
            out.append("\\r");
            proof {
                reveal_strlit("\\r");
                assert("\\r"@ =~= esc_char(c));
            }
        } else if c == '\t' {
            out.append("\\t");
            proof {
                reveal_strlit("\\t");
                assert("\\t"@ =~= esc_char(c));
            }
        } else if (c as u32) < 32 {
            let v = c as u32;
            out.append("\\u00");
            out.append(hex_digit_str(v / 16));
            out.append(hex_digit_str(v % 16));
            proof {
                reveal_strlit("\\u00");
                assert("\\u00"@ + seq![hex_digit_char(v as int / 16)] + seq![
                    hex_digit_char(v as int % 16),
                ] =~= esc_char(c));
            }
        } else {
            let piece = s.substring_char(i, i + 1);
            out.append(piece);
            proof {
                assert(piece@ =~= seq![s@[i as int]]);
                assert(seq![s@[i as int]] =~= esc_char(c));
            }
        }
        proof {
            assert(s@.subrange(0, i + 1).drop_last() =~= s@.subrange(0, i as int));
            assert(s@.subrange(0, i + 1).last() == s@[i as int]);
            assert(out@ =~= json_escaped(s@.subrange(0, i + 1)));
        }
        i = i + 1;
    }
    proof {
        assert(s@.subrange(0, n as int) =~= s@);
    }
    out
}

/// The wire name of a stream kind.
pub open spec fn stream_name(k: StreamKind) -> Seq<char> {
    match k {
        StreamKind::Stdout => "stdout"@,
        StreamKind::Stderr => "stderr"@,
    }
}

/// The one-line JSON object in which an event is delivered to the
/// observer's channel.
pub open spec fn spec_event_json(e: Event) -> Seq<char> {
    match e {
        Event::Start { id, label, command } => "{\"type\":\"start\",\"id\":"@ + dec_digits(
            id as int,
        ) + ",\"operation\":\""@ + json_escaped(label@) + "\",\"command\":\""@ + json_escaped(
            command@,
        ) + "\"}"@,
        Event::Line { id, stream, text } => "{\"type\":\""@ + stream_name(stream) + "\",\"id\":"@
            + dec_digits(id as int) + ",\"line\":\""@ + json_escaped(text@) + "\"}"@,
        Event::End { id, success, message } => "{\"type\":\"end\",\"id\":"@ + dec_digits(id as int)
            + ",\"success\":"@ + (if success {
            "true"@
        } else {
            "false"@
        }) + ",\"message\":\""@ + json_escaped(message@) + "\"}"@,
    }
}

/// Renders an event as its one-line JSON wire form.
pub fn event_json(e: &Event) -> (r: String)
    ensures
        r@ == spec_event_json(*e),
{
    match e {
        Event::Start { id, label, command } => {
            let mut out = String::from_str("{\"type\":\"start\",\"id\":");
            let digits = u32_to_string(*id);
            out.append(digits.as_str());
            out.append(",\"operation\":\"");
            let esc_label = json_escape(label.as_str());
            out.append(esc_label.as_str());
            out.append("\",\"command\":\"");
            let esc_command = json_escape(command.as_str());
            out.append(esc_command.as_str());
            out.append("\"}");
            proof {
                assert(out@ =~= spec_event_json(*e));
            }
            out
        },
        Event::Line { id, stream, text } => {
            let mut out = String::from_str("{\"type\":\"");
            match stream {
                StreamKind::Stdout => out.append("stdout"),
                StreamKind::Stderr => out.append("stderr"),
            }
            out.append("\",\"id\":");
            let digits = u32_to_string(*id);
            out.append(digits.as_str());
            out.append(",\"line\":\"");
            let esc_text = json_escape(text.as_str());
            out.append(esc_text.as_str());
            out.append("\"}");
            proof {
                assert(out@ =~= spec_event_json(*e));
            }
            out
        },
        Event::End { id, success, message } => {
            let mut out = String::from_str("{\"type\":\"end\",\"id\":");
            let digits = u32_to_string(*id);
            out.append(digits.as_str());
            out.append(",\"success\":");
            if *success {
                out.append("true");
            } else {
                out.append("false");
            }
            out.append(",\"message\":\"");
            let esc_message = json_escape(message.as_str());
            out.append(esc_message.as_str());
            out.append("\"}");
            proof {
                assert(out@ =~= spec_event_json(*e));
            }
            out
        },
    }
}

} // verus!
