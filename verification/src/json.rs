//! The outbound text-message payload: a JSON object `{"chat_id":N,"text":S}`
//! with the string escaping JSON requires (quote, backslash, and control
//! characters; the usual short forms, `\u00xx` for the rest).

use vstd::prelude::*;

verus! {

/// The digit character for `d` (`0`..`9`).
pub open spec fn digit_char(d: nat) -> char
    recommends
        d < 10,
{
    ((48 + d) as u8) as char
}

/// The lowercase hex digit character for `d` (`0`..`f`).
pub open spec fn hex_char(d: nat) -> char
    recommends
        d < 16,
{
    if d < 10 {
        digit_char(d)
    } else {
        ((87 + d) as u8) as char
    }
}

/// The decimal digits of `v`, most significant first.
pub open spec fn dec_digits(v: nat) -> Seq<char>
    decreases v,
{
    if v < 10 {
        seq![digit_char(v)]
    } else {
        dec_digits(v / 10).push(digit_char(v % 10))
    }
}

/// How one character appears inside a JSON string literal.
pub open spec fn escape_char(c: char) -> Seq<char> {
    if c == '"' {
        seq!['\\', '"']
    } else if c == '\\' {
        seq!['\\', '\\']
    } else if c as u32 == 8 {
        seq!['\\', 'b']
    } else if c as u32 == 9 {
        seq!['\\', 't']
    } else if c as u32 == 10 {
        seq!['\\', 'n']
    } else if c as u32 == 12 {
        seq!['\\', 'f']
    } else if c as u32 == 13 {
        seq!['\\', 'r']
    } else if (c as u32) < 32 {
        seq!['\\', 'u', '0', '0', hex_char((c as u32 / 16) as nat), hex_char((c as u32 % 16) as nat)]
    } else {
        seq![c]
    }
}

/// A whole text as it appears inside a JSON string literal.
pub open spec fn json_escaped(s: Seq<char>) -> Seq<char>
    decreases s.len(),
{
    if s.len() == 0 {
        Seq::empty()
    } else {
        json_escaped(s.drop_last()) + escape_char(s.last())
    }
}

/// The whole payload for one text message to one destination.
pub open spec fn json_text_message(chat_id: u64, text: Seq<char>) -> Seq<char> {
    "{\"chat_id\":"@ + dec_digits(chat_id as nat) + ",\"text\":\""@ + json_escaped(text) + "\"}"@
}

/// Relies on `String::push`: appends exactly one character.
#[verifier::external_body]
fn push_char(s: &mut String, c: char)
    ensures
        final(s)@ == old(s)@.push(c),
{
    s.push(c);
}

/// The digit character for `d`, executable.
fn digit_to_char(d: u8) -> (c: char)
    requires
        d < 10,
    ensures
        c == digit_char(d as nat),
{
    (48 + d) as char
}

/// The lowercase hex digit character for `d`, executable.
fn hex_to_char(d: u8) -> (c: char)
    requires
        d < 16,
    ensures
        c == hex_char(d as nat),
{
    if d < 10 {
        (48 + d) as char
    } else {
        (87 + d) as char
    }
}

/// `v` in decimal.
pub fn u64_to_dec_string(v: u64) -> (r: String)
    ensures
        r@ == dec_digits(v as nat),
{
    let mut rev: Vec<char> = Vec::new();
    let mut x = v;
    while x >= 10
        invariant
            dec_digits(v as nat) =~= dec_digits(x as nat) + rev@.reverse(),
        decreases x,
    {
        let digit = (x % 10) as u8;
        let c = digit_to_char(digit);
        proof {
            assert(dec_digits(x as nat) == dec_digits((x / 10) as nat).push(digit_char((x % 10) as nat)));
            assert(rev@.push(c).reverse() =~= seq![c] + rev@.reverse());
            assert(dec_digits((x / 10) as nat) + rev@.push(c).reverse() =~= dec_digits(x as nat) + rev@.reverse());
        }
        rev.push(c);
        x = x / 10;
    }
    let ghost whole = dec_digits(v as nat);
    proof {
        assert(dec_digits(x as nat) == seq![digit_char(x as nat)]);
        assert(whole.len() == 1 + rev@.len());
        assert(whole[0] == digit_char(x as nat));
    }
    let mut out = String::new();
    push_char(&mut out, digit_to_char(x as u8));
    proof {
        assert(out@ =~= whole.subrange(0, 1));
    }
    let mut i: usize = rev.len();
    while i > 0
        invariant
            i <= rev@.len(),
            whole == dec_digits(v as nat),
            whole =~= dec_digits(x as nat) + rev@.reverse(),
            whole.len() == 1 + rev@.len(),
            out@ =~= whole.subrange(0, whole.len() - i),
        decreases i,
    {
        proof {
            assert(whole[whole.len() - i] == rev@.reverse()[rev@.len() - i]);
            assert(rev@.reverse()[rev@.len() - i] == rev@[i - 1]);
        }
        push_char(&mut out, rev[i - 1]);
        proof {
            assert(out@ =~= whole.subrange(0, whole.len() - (i - 1)));
        }
        i -= 1;
    }
    proof {
        assert(whole.subrange(0, whole.len() as int) =~= whole);
    }
    out
}

/// Append one character of a JSON string literal, escaped as needed.
fn escape_char_into(out: &mut String, c: char)
    ensures
        final(out)@ == old(out)@ + escape_char(c),
{
    if c == '"' {
        push_char(out, '\\');
        push_char(out, '"');
        proof {
            assert(out@ =~= old(out)@ + escape_char(c));
        }
    } else if c == '\\' {
        push_char(out, '\\');
        push_char(out, '\\');
        proof {
            assert(out@ =~= old(out)@ + escape_char(c));
        }
    } else {
        let u = c as u32;
        if u == 8 {
            push_char(out, '\\');
            push_char(out, 'b');
            proof {
                assert(out@ =~= old(out)@ + escape_char(c));
            }
        } else if u == 9 {
            push_char(out, '\\');
            push_char(out, 't');
            proof {
                assert(out@ =~= old(out)@ + escape_char(c));
            }
        } else if u == 10 {
            push_char(out, '\\');
            push_char(out, 'n');
            proof {
                assert(out@ =~= old(out)@ + escape_char(c));
            }
        } else if u == 12 {
            push_char(out, '\\');
            push_char(out, 'f');
            proof {
                assert(out@ =~= old(out)@ + escape_char(c));
            }
        } else if u == 13 {
            push_char(out, '\\');
            push_char(out, 'r');
            proof {
                assert(out@ =~= old(out)@ + escape_char(c));
            }
        } else if u < 32 {
            push_char(out, '\\');
            push_char(out, 'u');
            push_char(out, '0');
            push_char(out, '0');
            push_char(out, hex_to_char((u / 16) as u8));
            push_char(out, hex_to_char((u % 16) as u8));
            proof {
                assert(out@ =~= old(out)@ + escape_char(c));
            }
        } else {
            push_char(out, c);
            proof {
                assert(out@ =~= old(out)@ + escape_char(c));
            }
        }
    }
}

/// Append a whole text as a JSON string literal's content.
pub fn json_escape_into(out: &mut String, text: &str)
    ensures
        final(out)@ == old(out)@ + json_escaped(text@),
{
    let n = text.unicode_len();
    let mut i: usize = 0;
    while i < n
        invariant
            n == text@.len(),
            i <= n,
            out@ == old(out)@ + json_escaped(text@.subrange(0, i as int)),
        decreases n - i,
    {
        let c = text.get_char(i);
        proof {
            assert(text@.subrange(0, i as int + 1).drop_last() =~= text@.subrange(0, i as int));
            assert(text@.subrange(0, i as int + 1).last() == text@[i as int]);
        }
        escape_char_into(out, c);
        proof {
            assert(out@ =~= old(out)@ + json_escaped(text@.subrange(0, i as int + 1)));
        }
        i += 1;
    }
    proof {
        assert(text@.subrange(0, n as int) =~= text@);
    }
}

/// The payload of one text message: `{"chat_id":N,"text":S}`, with `S`
/// escaped exactly as JSON asks.
pub fn json_text_payload(chat_id: u64, text: &str) -> (r: String)
    ensures
        r@ == json_text_message(chat_id, text@),
{
    let mut out = String::from_str("{\"chat_id\":");
    let digits = u64_to_dec_string(chat_id);
    out.append(digits.as_str());
    out.append(",\"text\":\"");
    json_escape_into(&mut out, text);
    out.append("\"}");
    proof {
        assert(out@ =~= json_text_message(chat_id, text@));
    }
    out
}

} // verus!
