use vstd::prelude::*;
use vstd::string::{StrSliceExecFns, StringExecFns};

verus! {

// The chat request is one JSON document whose only variable part is the
// transcript, so the library frames it itself: the fixed text around an
// escaped string literal. The response side is the opposite direction and
// lives in `response`.

/// The lower-case digit of one hexadecimal place.
pub open spec fn hex_digit(d: u32) -> char {
    if d == 0 {
        '0'
    } else if d == 1 {
        '1'
    } else if d == 2 {
        '2'
    } else if d == 3 {
        '3'
    } else if d == 4 {
        '4'
    } else if d == 5 {
        '5'
    } else if d == 6 {
        '6'
    } else if d == 7 {
        '7'
    } else if d == 8 {
        '8'
    } else if d == 9 {
        '9'
    } else if d == 10 {
        'a'
    } else if d == 11 {
        'b'
    } else if d == 12 {
        'c'
    } else if d == 13 {
        'd'
    } else if d == 14 {
        'e'
    } else {
        'f'
    }
}

/// How one transcript character is written inside the request's string
/// literal: the two structural characters get their short escapes, a control
/// character its numeric escape, everything else passes through — so the
/// embedded string decodes back to the transcript exactly.
pub open spec fn escaped_char(c: char) -> Seq<char> {
    if c == '"' {
        seq!['\\', '"']
    } else if c == '\\' {
        seq!['\\', '\\']
    } else if (c as u32) < 32 {
        seq!['\\', 'u', '0', '0', hex_digit((c as u32) / 16), hex_digit((c as u32) % 16)]
    } else {
        seq![c]
    }
}

/// The transcript with every character written as `escaped_char` says.
pub open spec fn escaped_text(s: Seq<char>) -> Seq<char>
    decreases s.len(),
{
    if s.len() == 0 {
        Seq::empty()
    } else {
        escaped_text(s.drop_last()) + escaped_char(s.last())
    }
}

fn hex_digit_str(d: u32) -> (r: &'static str)
    requires
        d < 16,
    ensures
        r@ == seq![hex_digit(d)],
{
    proof {
        reveal_strlit("0");
        reveal_strlit("1");
        reveal_strlit("2");
        reveal_strlit("3");
        reveal_strlit("4");
        reveal_strlit("5");
        reveal_strlit("6");
        reveal_strlit("7");
        reveal_strlit("8");
        reveal_strlit("9");
        reveal_strlit("a");
        reveal_strlit("b");
        reveal_strlit("c");
        reveal_strlit("d");
        reveal_strlit("e");
        reveal_strlit("f");
    }
    if d == 0 {
        "0"
    } else if d == 1 {
        "1"
    } else if d == 2 {
        "2"
    } else if d == 3 {
        "3"
    } else if d == 4 {
        "4"
    } else if d == 5 {
        "5"
    } else if d == 6 {
        "6"
    } else if d == 7 {
        "7"
    } else if d == 8 {
        "8"
    } else if d == 9 {
        "9"
    } else if d == 10 {
        "a"
    } else if d == 11 {
        "b"
    } else if d == 12 {
        "c"
    } else if d == 13 {
        "d"
    } else if d == 14 {
        "e"
    } else {
        "f"
    }
}

/// Escapes a transcript for use inside a JSON string literal.
pub fn escape_text(s: &str) -> (r: String)
    ensures
        r@ == escaped_text(s@),
{
    let n: usize = s.unicode_len();
    let mut r = String::new();
    let mut i: usize = 0;
    while i < n
        invariant
            n == s@.len(),
            i <= n,
            r@ == escaped_text(s@.take(i as int)),
        decreases n - i,
    {
        let c = s.get_char(i);
        if c == '"' {
            r.append("\\\"");
            proof {
                reveal_strlit("\\\"");
                assert("\\\""@ =~= escaped_char(c));
            }
        } else if c == '\\' {
            r.append("\\\\");
            proof {
                reveal_strlit("\\\\");
                assert("\\\\"@ =~= escaped_char(c));
            }
        } else if (c as u32) < 32 {
            let d: u32 = c as u32;
            r.append("\\u00");
            r.append(hex_digit_str(d / 16));
            r.append(hex_digit_str(d % 16));
            proof {
                reveal_strlit("\\u00");
                assert("\\u00"@ + seq![hex_digit(d / 16)] + seq![hex_digit(d % 16)] =~= escaped_char(
                    c,
                ));
            }
        } else {
            let piece = s.substring_char(i, i + 1);
            r.append(piece);
            proof {
                assert(piece@ =~= escaped_char(c));
            }
        }
        proof {
            let t = s@.take(i + 1 as int);
            assert(t.drop_last() =~= s@.take(i as int));
            assert(t.last() == s@[i as int]);
        }
        i = i + 1;
    }
    proof {
        assert(s@.take(s@.len() as int) =~= s@);
    }
    r
}

/// The exact request document sent to the chat service: the fixed persona
/// and model around the escaped transcript.
pub open spec fn chat_request_text(user: Seq<char>) -> Seq<char> {
    "{\"model\":\"gpt-4o-mini\",\"max_tokens\":64,\"messages\":[{\"role\":\"system\",\"content\":\"You are a street-wise character in Night City. Use slang like choomba, preem, delta. Be brief.\"},{\"role\":\"user\",\"content\":\""@
        + escaped_text(user) + "\"}]}"@
}

/// Builds the chat request document around a transcript.
pub fn chat_request_body(user: &str) -> (r: String)
    ensures
        r@ == chat_request_text(user@),
{
    let mut r = String::from_str(
        "{\"model\":\"gpt-4o-mini\",\"max_tokens\":64,\"messages\":[{\"role\":\"system\",\"content\":\"You are a street-wise character in Night City. Use slang like choomba, preem, delta. Be brief.\"},{\"role\":\"user\",\"content\":\"",
    );
    let escaped = escape_text(user);
    r.append(escaped.as_str());
    r.append("\"}]}");
    r
}

} // verus!
