//! Trusted access to serde_json: the platform answers every call with a JSON
//! document, and these are the only places where one is parsed or read.
//! What each extraction returns is a function of the response text alone, so
//! each result bears a name that the verified parsers' contracts speak of;
//! everything the pipeline decides on — defaults for absent fields, the
//! envelope verdict, the mapping into the library's types — is verified.

use vstd::prelude::*;

use crate::api::RawEntry;
use crate::api::RawSegment;

verus! {

/// Whether a text is a JSON document that serde_json::from_str accepts.
pub uninterp spec fn envelope_parses(s: Seq<char>) -> bool;

/// The top-level `code` field of the parsed text, when it is an integer.
pub uninterp spec fn envelope_code(s: Seq<char>) -> Option<i64>;

/// The top-level `message` field of the parsed text, when it is a string.
pub uninterp spec fn envelope_message(s: Seq<char>) -> Option<String>;

/// The entry fields under `data.medias` of the parsed text, in listing
/// order, when that is an array; `None` when the text does not parse or has
/// no such array.
pub uninterp spec fn page_medias(s: Seq<char>) -> Option<Seq<RawEntry>>;

/// The `data.has_more` field of the parsed text, when it is a boolean.
pub uninterp spec fn page_has_more(s: Seq<char>) -> Option<bool>;

/// The segment fields under `data` of the parsed text, in listing order,
/// when that is an array.
pub uninterp spec fn pagelist_segments(s: Seq<char>) -> Option<Seq<RawSegment>>;

/// The `baseUrl` fields of the tracks under `data.dash.audio` of the parsed
/// text, in track order, when that is an array.
pub uninterp spec fn playurl_audio(s: Seq<char>) -> Option<Seq<Option<String>>>;

/// Relies on serde_json::from_str and Value::get / as_i64 / as_str: whether
/// a text parses, and its top-level `code` and `message` fields, are
/// functions of the text alone.
#[verifier::external_body]
pub(crate) fn extract_envelope(body: &str) -> (r: Option<(Option<i64>, Option<String>)>)
    ensures
        r is Some <==> envelope_parses(body@),
        r matches Some(t) ==> t.0 == envelope_code(body@) && t.1 == envelope_message(body@),
{
    let v: serde_json::Value = match serde_json::from_str(body) {
        Ok(v) => v,
        Err(_) => return None,
    };
    Some((
        v.get("code").and_then(|c| c.as_i64()),
        v.get("message").and_then(|m| m.as_str()).map(|s| s.to_owned()),
    ))
}

/// Relies on serde_json::from_str and Value::get / as_array / as_str: the
/// entry fields (each possibly absent) under `data.medias` of a listing
/// body, functions of the text alone.
#[verifier::external_body]
pub(crate) fn extract_page_medias(body: &str) -> (r: Option<Vec<RawEntry>>)
    ensures
        r is Some <==> page_medias(body@) is Some,
        r matches Some(v) ==> page_medias(body@) == Some(v@),
{
    let v: serde_json::Value = serde_json::from_str(body).ok()?;
    let arr = v.get("data")?.get("medias")?.as_array()?;
    Some(arr.iter().map(|m| RawEntry {
        bvid: m.get("bvid").and_then(|x| x.as_str()).map(|s| s.to_owned()),
        title: m.get("title").and_then(|x| x.as_str()).map(|s| s.to_owned()),
        author: m.get("upper").and_then(|u| u.get("name")).and_then(|x| x.as_str()).map(|s| s.to_owned()),
    }).collect())
}

/// Relies on serde_json::from_str and Value::get / as_bool: the
/// `data.has_more` flag of a listing body, a function of the text alone.
#[verifier::external_body]
pub(crate) fn extract_page_has_more(body: &str) -> (r: Option<bool>)
    ensures
        r == page_has_more(body@),
{
    let v: serde_json::Value = serde_json::from_str(body).ok()?;
    v.get("data")?.get("has_more")?.as_bool()
}

/// Relies on serde_json::from_str and Value::get / as_array / as_i64 /
/// as_str: the segment fields (each possibly absent) under `data` of a
/// segment-listing body, functions of the text alone.
#[verifier::external_body]
pub(crate) fn extract_segments(body: &str) -> (r: Option<Vec<RawSegment>>)
    ensures
        r is Some <==> pagelist_segments(body@) is Some,
        r matches Some(v) ==> pagelist_segments(body@) == Some(v@),
{
    let v: serde_json::Value = serde_json::from_str(body).ok()?;
    let arr = v.get("data")?.as_array()?;
    Some(arr.iter().map(|p| RawSegment {
        cid: p.get("cid").and_then(|c| c.as_i64()),
        part: p.get("part").and_then(|s| s.as_str()).map(|s| s.to_owned()),
    }).collect())
}

/// Relies on serde_json::from_str and Value::get / as_array / as_str: the
/// `baseUrl` of each track under `data.dash.audio` of a stream-resolution
/// body, functions of the text alone.
#[verifier::external_body]
pub(crate) fn extract_audio_urls(body: &str) -> (r: Option<Vec<Option<String>>>)
    ensures
        r is Some <==> playurl_audio(body@) is Some,
        r matches Some(v) ==> playurl_audio(body@) == Some(v@),
{
    let v: serde_json::Value = serde_json::from_str(body).ok()?;
    let arr = v.get("data")?.get("dash")?.get("audio")?.as_array()?;
    Some(arr.iter().map(|t| t.get("baseUrl").and_then(|u| u.as_str()).map(|s| s.to_owned())).collect())
}

} // verus!
