//! URL encoding of the query pairs a `list` plan carries.
//!
//! `encoded_text` pins the percent-encoding character by character: an
//! unreserved character stands as itself, and every other character becomes
//! one `%xy` triple per byte of its UTF-8 form. `full_url` gives the exact
//! URL of a plan: its path, and `?k=v&...` exactly when the query is
//! non-empty — no pair is required.

use vstd::prelude::*;
use vstd::string::*;
use crate::json::{hex_digit, hex_digit_str};
use crate::plan::HttpRequest;

verus! {

/// The characters that stand for themselves in a URL component: ASCII
/// letters, digits, and `-`, `_`, `.`, `~`.
pub open spec fn unreserved(c: char) -> bool {
    let v = c as u32;
    (0x61 <= v <= 0x7a) || (0x41 <= v <= 0x5a) || (0x30 <= v <= 0x39) || c == '-' || c == '_'
        || c == '.' || c == '~'
}

/// One percent-encoded byte: `%` and two lower-case hexadecimal digits.
pub open spec fn percent_byte(b: u8) -> Seq<char> {
    seq!['%', hex_digit((b / 16) as nat), hex_digit((b % 16) as nat)]
}

/// How one character appears in an encoded component: itself when
/// unreserved, otherwise each byte of its UTF-8 form percent-encoded.
pub open spec fn encoded_char(c: char) -> Seq<char> {
    let v = c as u32;
    if unreserved(c) {
        seq![c]
    } else if v < 0x80 {
        percent_byte(v as u8)
    } else if v < 0x800 {
        percent_byte((0xc0 + v / 0x40) as u8) + percent_byte((0x80 + v % 0x40) as u8)
    } else if v < 0x10000 {
        percent_byte((0xe0 + v / 0x1000) as u8) + percent_byte((0x80 + (v / 0x40) % 0x40) as u8)
            + percent_byte((0x80 + v % 0x40) as u8)
    } else {
        percent_byte((0xf0 + v / 0x40000) as u8) + percent_byte((0x80 + (v / 0x1000) % 0x40) as u8)
            + percent_byte((0x80 + (v / 0x40) % 0x40) as u8) + percent_byte((0x80 + v % 0x40) as u8)
    }
}

/// A text with every character encoded as a URL component requires.
pub open spec fn encoded_text(s: Seq<char>) -> Seq<char>
    decreases s.len(),
{
    if s.len() == 0 {
        Seq::empty()
    } else {
        encoded_text(s.drop_last()) + encoded_char(s.last())
    }
}

/// One `key=value` pair of a query string, both sides encoded.
pub open spec fn pair_text(p: (String, String)) -> Seq<char> {
    encoded_text(p.0@) + seq!['='] + encoded_text(p.1@)
}

/// The pairs of a query string, in order, separated by `&`.
pub open spec fn query_text(pairs: Seq<(String, String)>) -> Seq<char>
    decreases pairs.len(),
{
    if pairs.len() == 0 {
        Seq::empty()
    } else if pairs.len() == 1 {
        pair_text(pairs[0])
    } else {
        query_text(pairs.drop_last()) + seq!['&'] + pair_text(pairs.last())
    }
}

/// The URL of a plan: its path alone for an empty query, otherwise the path,
/// `?`, and the encoded pairs.
pub open spec fn url_with_query(path: Seq<char>, pairs: Seq<(String, String)>) -> Seq<char> {
    if pairs.len() == 0 {
        path
    } else {
        path + seq!['?'] + query_text(pairs)
    }
}

fn append_percent_byte(out: &mut String, b: u8)
    ensures
        final(out)@ == old(out)@ + percent_byte(b),
{
    out.append("%");
    out.append(hex_digit_str(b / 16));
    out.append(hex_digit_str(b % 16));
    proof {
        reveal_strlit("%");
        assert(out@ =~= old(out)@ + percent_byte(b));
    }
}

/// Produces the URL-component form of `s`: `encoded_text(s@)`.
pub fn encode_component(s: &str) -> (r: String)
    ensures
        r@ == encoded_text(s@),
{
    let mut r = String::new();
    proof {
        assert(r@ =~= encoded_text(s@.take(0)));
    }
    let n = s.unicode_len();
    for i in 0..n
        invariant
            n == s@.len(),
            r@ == encoded_text(s@.take(i as int)),
    {
        let c = s.get_char(i);
        let v: u32 = c as u32;
        let is_plain = (0x61 <= v && v <= 0x7a) || (0x41 <= v && v <= 0x5a) || (0x30 <= v && v
            <= 0x39) || c == '-' || c == '_' || c == '.' || c == '~';
        if is_plain {
            let piece = s.substring_char(i, i + 1);
            proof {
                assert(piece@ =~= encoded_char(c));
            }
            r.append(piece);
        } else if v < 0x80 {
            append_percent_byte(&mut r, v as u8);
        } else if v < 0x800 {
            append_percent_byte(&mut r, (0xc0 + v / 0x40) as u8);
            append_percent_byte(&mut r, (0x80 + v % 0x40) as u8);
        } else if v < 0x10000 {
            append_percent_byte(&mut r, (0xe0 + v / 0x1000) as u8);
            append_percent_byte(&mut r, (0x80 + (v / 0x40) % 0x40) as u8);
            append_percent_byte(&mut r, (0x80 + v % 0x40) as u8);
        } else {
            append_percent_byte(&mut r, (0xf0 + v / 0x40000) as u8);
            append_percent_byte(&mut r, (0x80 + (v / 0x1000) % 0x40) as u8);
            append_percent_byte(&mut r, (0x80 + (v / 0x40) % 0x40) as u8);
            append_percent_byte(&mut r, (0x80 + v % 0x40) as u8);
        }
        proof {
            assert(s@.take(i as int + 1).drop_last() =~= s@.take(i as int));
            assert(s@.take(i as int + 1).last() == c);
            assert(r@ =~= encoded_text(s@.take(i as int + 1)));
        }
    }
    proof {
        assert(s@.take(n as int) =~= s@);
    }
    r
}

/// Produces the query string of the pairs: `query_text(pairs@)`. Any pairs
/// are accepted, the empty sequence included — no field is required.
pub fn encode_query(pairs: &Vec<(String, String)>) -> (r: String)
    ensures
        r@ == query_text(pairs@),
{
    let mut r = String::new();
    proof {
        assert(r@ =~= query_text(pairs@.take(0)));
    }
    for i in 0..pairs.len()
        invariant
            r@ == query_text(pairs@.take(i as int)),
    {
        if i != 0 {
            r.append("&");
            proof {
                reveal_strlit("&");
            }
        }
        let k = encode_component(pairs[i].0.as_str());
        r.append(k.as_str());
        r.append("=");
        let v = encode_component(pairs[i].1.as_str());
        r.append(v.as_str());
        proof {
            reveal_strlit("=");
            assert("="@ =~= seq!['=']);
            if i == 0 {
                assert(pairs@.take(1)[0] == pairs@[0]);
                assert(r@ =~= query_text(pairs@.take(i as int + 1)));
            } else {
                assert(pairs@.take(i as int + 1).drop_last() =~= pairs@.take(i as int));
                assert(pairs@.take(i as int + 1).last() == pairs@[i as int]);
                assert(r@ =~= query_text(pairs@.take(i as int + 1)));
            }
        }
    }
    proof {
        assert(pairs@.take(pairs@.len() as int) =~= pairs@);
    }
    r
}

/// Produces the exact URL a plan addresses: `url_with_query` of its path and
/// query.
pub fn full_url(plan: &HttpRequest) -> (r: String)
    ensures
        r@ == url_with_query(plan.path@, plan.query@),
{
    if plan.query.len() == 0 {
        return plan.path.clone();
    }
    let mut r = plan.path.clone();
    r.append("?");
    let q = encode_query(&plan.query);
    r.append(q.as_str());
    proof {
        reveal_strlit("?");
        assert(r@ =~= url_with_query(plan.path@, plan.query@));
    }
    r
}

} // verus!
