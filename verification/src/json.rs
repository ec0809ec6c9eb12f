//! The JSON wire body of a batch submission.
//!
//! The encoder is specified character by character: `quoted` gives the JSON
//! string form of a text (with the escapes JSON requires), and
//! `request_json` gives the exact object text sent by `create`. The
//! executable functions are proved to produce precisely these sequences.

use vstd::prelude::*;
use vstd::string::*;
use crate::types::BatchRequest;

verus! {

/// The lower-case hexadecimal digit of a value below sixteen.
pub open spec fn hex_digit(n: nat) -> char {
    if n == 0 {
        '0'
    } else if n == 1 {
        '1'
    } else if n == 2 {
        '2'
    } else if n == 3 {
        '3'
    } else if n == 4 {
        '4'
    } else if n == 5 {
        '5'
    } else if n == 6 {
        '6'
    } else if n == 7 {
        '7'
    } else if n == 8 {
        '8'
    } else if n == 9 {
        '9'
    } else if n == 10 {
        'a'
    } else if n == 11 {
        'b'
    } else if n == 12 {
        'c'
    } else if n == 13 {
        'd'
    } else if n == 14 {
        'e'
    } else {
        'f'
    }
}

/// How one character appears inside a JSON string: quote, backslash and the
/// common control characters get two-character escapes, the remaining
/// control characters a `\u00..` escape, and every other character stands
/// as itself.
pub open spec fn escaped_char(c: char) -> Seq<char> {
    if c == '"' {
        seq!['\\', '"']
    } else if c == '\\' {
        seq!['\\', '\\']
    } else if c == '\n' {
        seq!['\\', 'n']
    } else if c == '\r' {
        seq!['\\', 'r']
    } else if c == '\t' {
        seq!['\\', 't']
    } else if (c as u32) < 32 {
        seq![
            '\\',
            'u',
            '0',
            '0',
            hex_digit(((c as u32) / 16) as nat),
            hex_digit(((c as u32) % 16) as nat),
        ]
    } else {
        seq![c]
    }
}

/// A text with every character escaped as JSON requires.
pub open spec fn escaped(s: Seq<char>) -> Seq<char>
    decreases s.len(),
{
    if s.len() == 0 {
        Seq::empty()
    } else {
        escaped(s.drop_last()) + escaped_char(s.last())
    }
}

/// The JSON string form of a text: escaped and wrapped in double quotes.
pub open spec fn quoted(s: Seq<char>) -> Seq<char> {
    seq!['"'] + escaped(s) + seq!['"']
}

/// One `"key":"value"` member of a JSON object.
pub open spec fn member_json(k: Seq<char>, v: Seq<char>) -> Seq<char> {
    quoted(k) + seq![':'] + quoted(v)
}

/// The members of the metadata object, in order, separated by commas.
pub open spec fn members_json(pairs: Seq<(String, String)>) -> Seq<char>
    decreases pairs.len(),
{
    if pairs.len() == 0 {
        Seq::empty()
    } else if pairs.len() == 1 {
        member_json(pairs[0].0@, pairs[0].1@)
    } else {
        members_json(pairs.drop_last()) + seq![','] + member_json(
            pairs.last().0@,
            pairs.last().1@,
        )
    }
}

/// The metadata pairs as one JSON object.
pub open spec fn metadata_json(pairs: Seq<(String, String)>) -> Seq<char> {
    seq!['{'] + members_json(pairs) + seq!['}']
}

/// The exact JSON object text submitted for a batch request. The metadata
/// member is present exactly when the request carries metadata.
pub open spec fn request_json(r: BatchRequest) -> Seq<char> {
    "{\"input_file_id\":"@ + quoted(r.input_file_id@) + ",\"endpoint\":"@ + quoted(r.endpoint@)
        + ",\"completion_window\":"@ + quoted(r.completion_window@) + (match r.metadata {
        Some(m) => ",\"metadata\":"@ + metadata_json(m@),
        None => Seq::<char>::empty(),
    }) + "}"@
}

/// The body sent by a cancellation: an empty JSON object.
pub open spec fn empty_json_object() -> Seq<char> {
    "{}"@
}

pub(crate) fn hex_digit_str(n: u8) -> (r: &'static str)
    requires
        n < 16,
    ensures
        r@ =~= seq![hex_digit(n as nat)],
{
    proof {
        reveal_strlit("0");
        reveal_strlit("1");
        reveal_strlit("2");
        reveal_strlit("3");
        reveal_strlit("4");
        reveal_strlit("5");
        reveal_strlit("6");
        reveal_strlit("7");
        reveal_strlit("8");
        reveal_strlit("9");
        reveal_strlit("a");
        reveal_strlit("b");
        reveal_strlit("c");
        reveal_strlit("d");
        reveal_strlit("e");
        reveal_strlit("f");
    }
    if n == 0 {
        "0"
    } else if n == 1 {
        "1"
    } else if n == 2 {
        "2"
    } else if n == 3 {
        "3"
    } else if n == 4 {
        "4"
    } else if n == 5 {
        "5"
    } else if n == 6 {
        "6"
    } else if n == 7 {
        "7"
    } else if n == 8 {
        "8"
    } else if n == 9 {
        "9"
    } else if n == 10 {
        "a"
    } else if n == 11 {
        "b"
    } else if n == 12 {
        "c"
    } else if n == 13 {
        "d"
    } else if n == 14 {
        "e"
    } else {
        "f"
    }
}

/// Produces the JSON string form of `s`: `quoted(s@)`.
pub fn json_quote(s: &str) -> (r: String)
    ensures
        r@ == quoted(s@),
{
    let mut r = String::new();
    r.append("\"");
    proof {
        reveal_strlit("\"");
        assert(r@ =~= seq!['"'] + escaped(s@.take(0)));
    }
    let n = s.unicode_len();
    for i in 0..n
        invariant
            n == s@.len(),
            r@ == seq!['"'] + escaped(s@.take(i as int)),
    {
        let c = s.get_char(i);
        if c == '"' {
            r.append("\\\"");
            proof {
                reveal_strlit("\\\"");
                assert("\\\""@ =~= escaped_char(c));
            }
        } else if c == '\\' {
            r.append("\\\\");
            proof {
                reveal_strlit("\\\\");
                assert("\\\\"@ =~= escaped_char(c));
            }
        } else if c == '\n' {
            r.append("\\n");
            proof {
                reveal_strlit("\\n");
                assert("\\n"@ =~= escaped_char(c));
            }
        } else if c == '\r' {
            r.append("\\r");
            proof {
                reveal_strlit("\\r");
                assert("\\r"@ =~= escaped_char(c));
            }
        } else if c == '\t' {
            r.append("\\t");
            proof {
                reveal_strlit("\\t");
                assert("\\t"@ =~= escaped_char(c));
            }
        } else if (c as u32) < 32 {
            let ghost before = r@;
            let v: u32 = c as u32;
            r.append("\\u00");
            let hi = hex_digit_str((v / 16) as u8);
            r.append(hi);
            let lo = hex_digit_str((v % 16) as u8);
            r.append(lo);
            proof {
                reveal_strlit("\\u00");
                assert(r@ =~= before + escaped_char(c));
            }
        } else {
            let piece = s.substring_char(i, i + 1);
            proof {
                assert(piece@ =~= escaped_char(c));
            }
            r.append(piece);
        }
        proof {
            assert(s@.take(i as int + 1).drop_last() =~= s@.take(i as int));
            assert(s@.take(i as int + 1).last() == c);
            assert(r@ =~= seq!['"'] + escaped(s@.take(i as int + 1)));
        }
    }
    proof {
        assert(s@.take(n as int) =~= s@);
    }
    r.append("\"");
    proof {
        assert(r@ =~= quoted(s@));
    }
    r
}

/// Produces the metadata pairs as one JSON object: `metadata_json(pairs@)`.
pub fn metadata_to_json(pairs: &Vec<(String, String)>) -> (r: String)
    ensures
        r@ == metadata_json(pairs@),
{
    let mut r = String::new();
    r.append("{");
    proof {
        reveal_strlit("{");
        assert(r@ =~= seq!['{'] + members_json(pairs@.take(0)));
    }
    for i in 0..pairs.len()
        invariant
            r@ == seq!['{'] + members_json(pairs@.take(i as int)),
    {
        if i != 0 {
            r.append(",");
            proof {
                reveal_strlit(",");
            }
        }
        let k = json_quote(pairs[i].0.as_str());
        r.append(k.as_str());
        r.append(":");
        let v = json_quote(pairs[i].1.as_str());
        r.append(v.as_str());
        proof {
            reveal_strlit(":");
            assert(":"@ =~= seq![':']);
            if i == 0 {
                assert(pairs@.take(1)[0] == pairs@[0]);
                assert(r@ =~= seq!['{'] + members_json(pairs@.take(i as int + 1)));
            } else {
                assert(pairs@.take(i as int + 1).drop_last() =~= pairs@.take(i as int));
                assert(pairs@.take(i as int + 1).last() == pairs@[i as int]);
                assert(r@ =~= seq!['{'] + members_json(pairs@.take(i as int + 1)));
            }
        }
    }
    proof {
        assert(pairs@.take(pairs@.len() as int) =~= pairs@);
    }
    r.append("}");
    proof {
        reveal_strlit("}");
        assert(r@ =~= metadata_json(pairs@));
    }
    r
}

/// Produces the exact wire body of a batch submission: `request_json(*r)`.
pub fn request_to_json(r: &BatchRequest) -> (out: String)
    ensures
        out@ == request_json(*r),
{
    let mut out = String::new();
    out.append("{\"input_file_id\":");
    let q = json_quote(r.input_file_id.as_str());
    out.append(q.as_str());
    out.append(",\"endpoint\":");
    let q = json_quote(r.endpoint.as_str());
    out.append(q.as_str());
    out.append(",\"completion_window\":");
    let q = json_quote(r.completion_window.as_str());
    out.append(q.as_str());
    match &r.metadata {
        Some(m) => {
            out.append(",\"metadata\":");
            let mj = metadata_to_json(m);
            out.append(mj.as_str());
        },
        None => {},
    }
    out.append("}");
    proof {
        assert(out@ =~= request_json(*r));
    }
    out
}

/// Produces the body of a cancellation: the empty JSON object.
pub fn empty_object_body() -> (r: String)
    ensures
        r@ == empty_json_object(),
{
    String::from_str("{}")
}

} // verus!
