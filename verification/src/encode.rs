//! The cookie header value sent on every request: `"sessdata="` followed by
//! the percent-encoded session token, so that reserved characters of the
//! token never appear raw in the header.

use vstd::prelude::*;
use vstd::string::StringExecFns;
use vstd::utf8::is_ascii_chars;

verus! {

/// A character that percent-encoding passes through unchanged.
pub open spec fn is_unreserved_char(c: char) -> bool {
    ('0' <= c && c <= '9') || ('a' <= c && c <= 'z') || ('A' <= c && c <= 'Z') || c == '-' || c
        == '_' || c == '.' || c == '~'
}

/// The uppercase hexadecimal digit for a value below sixteen.
pub open spec fn hex_digit(d: int) -> char {
    if d == 0 {
        '0'
    } else if d == 1 {
        '1'
    } else if d == 2 {
        '2'
    } else if d == 3 {
        '3'
    } else if d == 4 {
        '4'
    } else if d == 5 {
        '5'
    } else if d == 6 {
        '6'
    } else if d == 7 {
        '7'
    } else if d == 8 {
        '8'
    } else if d == 9 {
        '9'
    } else if d == 10 {
        'A'
    } else if d == 11 {
        'B'
    } else if d == 12 {
        'C'
    } else if d == 13 {
        'D'
    } else if d == 14 {
        'E'
    } else {
        'F'
    }
}

/// The percent-encoding of one ASCII character: unreserved characters stand
/// as they are, every other one becomes `%` and two uppercase hex digits.
pub open spec fn encode_char_spec(c: char) -> Seq<char> {
    if is_unreserved_char(c) {
        seq![c]
    } else {
        seq!['%', hex_digit(c as int / 16), hex_digit(c as int % 16)]
    }
}

/// The percent-encoding of an ASCII string, character by character.
pub open spec fn encode_component_spec(s: Seq<char>) -> Seq<char>
    decreases s.len(),
{
    if s.len() == 0 {
        Seq::empty()
    } else {
        encode_char_spec(s[0]) + encode_component_spec(s.drop_first())
    }
}

/// Relies on urlencoding::encode: it percent-encodes every byte except the
/// ASCII alphanumerics and `-`, `_`, `.`, `~`, writing uppercase hex digits.
/// On ASCII input the bytes are the characters, so the result is exactly the
/// character-wise encoding stated below; of other input nothing is claimed.
#[verifier::external_body]
fn encode_component(s: &str) -> (r: String)
    ensures
        is_ascii_chars(s@) ==> r@ == encode_component_spec(s@),
{
    urlencoding::encode(s).into_owned()
}

/// The cookie header value for a session token: the fixed key name followed
/// by the percent-encoded token.
pub fn gen_cookie(sessdata: &str) -> (r: String)
    ensures
        is_ascii_chars(sessdata@) ==> r@ == "sessdata="@ + encode_component_spec(sessdata@),
{
    let mut s = String::from_str("sessdata=");
    let enc = encode_component(sessdata);
    s.append(enc.as_str());
    s
}

/// No character of an encoded token is a raw `=` or `&`: both are reserved,
/// so each of their occurrences has been turned into `%` and hex digits, and
/// neither `%` nor a hex digit nor an unreserved character is `=` or `&`.
pub proof fn lemma_encoded_token_has_no_separators(s: Seq<char>)
    ensures
        forall|i: int|
            0 <= i < encode_component_spec(s).len() ==> encode_component_spec(s)[i] != '='
                && encode_component_spec(s)[i] != '&',
    decreases s.len(),
{
    if s.len() > 0 {
        lemma_encoded_token_has_no_separators(s.drop_first());
        let e = encode_component_spec(s);
        let h = encode_char_spec(s[0]);
        let t = encode_component_spec(s.drop_first());
        assert forall|i: int| 0 <= i < e.len() implies e[i] != '=' && e[i] != '&' by {
            if i < h.len() {
                assert(e[i] == h[i]);
            } else {
                assert(e[i] == t[i - h.len()]);
            }
        }
    }
}

} // verus!
