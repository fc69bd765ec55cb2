//! Filename construction for downloaded segments: a display name is built as
//! `"{title} - {part} - {author}"` and every character the filesystem may
//! reject is replaced by a space.

use vstd::prelude::*;
use vstd::string::StrSliceExecFns;
use vstd::string::StringExecFns;

verus! {

/// The characters that are replaced before the name is used as a file name.
pub open spec fn is_reserved_char(c: char) -> bool {
    c == '\\' || c == '/' || c == '?' || c == '*' || c == '>' || c == '<' || c == '|' || c == ':'
}

/// One character of the sanitized name: reserved characters become a space,
/// every other character is kept.
pub open spec fn scrub_char(c: char) -> char {
    if is_reserved_char(c) {
        ' '
    } else {
        c
    }
}

/// The sanitized form of a name: the same characters, with each reserved one
/// replaced by a space.
pub open spec fn sanitize_spec(s: Seq<char>) -> Seq<char> {
    s.map_values(|c: char| scrub_char(c))
}

fn is_reserved(c: char) -> (r: bool)
    ensures
        r == is_reserved_char(c),
{
    c == '\\' || c == '/' || c == '?' || c == '*' || c == '>' || c == '<' || c == '|' || c == ':'
}

/// Relies on std's String::push: appends exactly the given character.
#[verifier::external_body]
pub(crate) fn push_char(s: &mut String, c: char)
    ensures
        final(s)@ == old(s)@ + seq![c],
{
    s.push(c);
}

/// Replaces every reserved character of `s` by a space and keeps the rest.
pub fn sanitize(s: &str) -> (r: String)
    ensures
        r@ == sanitize_spec(s@),
{
    let n = s.unicode_len();
    let mut out = String::new();
    let mut i: usize = 0;
    while i < n
        invariant
            n == s@.len(),
            i <= n,
            out@ == sanitize_spec(s@.take(i as int)),
        decreases n - i,
    {
        let c = s.get_char(i);
        if is_reserved(c) {
            push_char(&mut out, ' ');
        } else {
            push_char(&mut out, c);
        }
        i = i + 1;
        proof {
            assert(s@.take(i as int).map_values(|c: char| scrub_char(c)) =~= s@.take(
                i - 1,
            ).map_values(|c: char| scrub_char(c)) + seq![scrub_char(s@[i - 1])]);
        }
    }
    proof {
        assert(s@.take(n as int) =~= s@);
    }
    out
}

/// Applying the sanitization twice gives the same name as applying it once:
/// a space is never a reserved character, and kept characters are unchanged.
pub proof fn lemma_sanitize_idempotent(s: Seq<char>)
    ensures
        sanitize_spec(sanitize_spec(s)) == sanitize_spec(s),
{
    assert(sanitize_spec(sanitize_spec(s)) =~= sanitize_spec(s));
}

/// Builds the display name `"{title} - {part} - {author}"` and sanitizes it.
pub fn build_filename(title: &str, part: &str, author: &str) -> (r: String)
    ensures
        r@ == sanitize_spec(title@ + " - "@ + part@ + " - "@ + author@),
{
    let mut s = String::from_str(title);
    s.append(" - ");
    s.append(part);
    s.append(" - ");
    s.append(author);
    sanitize(s.as_str())
}

/// The path a segment is saved under: `"{dir}/{file_name}.aac"`.
pub fn output_path(dir: &str, file_name: &str) -> (r: String)
    ensures
        r@ == dir@ + "/"@ + file_name@ + ".aac"@,
{
    let mut s = String::from_str(dir);
    s.append("/");
    s.append(file_name);
    s.append(".aac");
    s
}

} // verus!
