//! The API client's computing half: the exact request URLs and headers of
//! the four platform calls, and the parsing of their JSON answers into plain
//! values. Only the top-level `code`/`message` envelope decides failure;
//! every missing payload field falls back to an empty default.

use vstd::prelude::*;
use vstd::string::StringExecFns;

use crate::errors::MyError;
use crate::json::envelope_code;
use crate::json::envelope_message;
use crate::json::envelope_parses;
use crate::json::extract_audio_urls;
use crate::json::extract_envelope;
use crate::json::extract_page_has_more;
use crate::json::extract_page_medias;
use crate::json::extract_segments;
use crate::json::page_has_more;
use crate::json::page_medias;
use crate::json::pagelist_segments;
use crate::json::playurl_audio;
use crate::numfmt::dec_signed_spec;
use crate::numfmt::dec_spec;

verus! {

/// One media item of a collection: its platform identifier, display title
/// and uploader name.
#[derive(Clone, Debug)]
pub struct CollectionEntry {
    pub bvid: String,
    pub title: String,
    pub author: String,
}

/// One playable sub-part of an entry: its identifier and display name.
#[derive(Clone, Debug)]
pub struct Segment {
    pub cid: i64,
    pub part: String,
}

/// One page of a collection listing: its entries and the platform's signal
/// whether more pages follow.
#[derive(Clone, Debug)]
pub struct PageResult {
    pub entries: Vec<CollectionEntry>,
    pub has_more: bool,
}

/// The fields of one listed entry as the platform sent them, each possibly
/// absent.
#[derive(Clone, Debug)]
pub struct RawEntry {
    pub bvid: Option<String>,
    pub title: Option<String>,
    pub author: Option<String>,
}

/// The fields of one listed segment as the platform sent them, each possibly
/// absent.
#[derive(Clone, Debug)]
pub struct RawSegment {
    pub cid: Option<i64>,
    pub part: Option<String>,
}

/// The number of entries requested per listing page.
pub const PAGE_SIZE: u64 = 20;

/// An absent envelope code counts as zero: success.
pub open spec fn code_or_zero(o: Option<i64>) -> i64 {
    match o {
        Some(c) => c,
        None => 0,
    }
}

/// The characters of a possibly absent string, empty when absent.
pub open spec fn str_view_or_empty(o: Option<String>) -> Seq<char> {
    match o {
        Some(s) => s@,
        None => Seq::empty(),
    }
}

/// An absent continuation flag ends the pagination.
pub open spec fn flag_or_false(o: Option<bool>) -> bool {
    match o {
        Some(b) => b,
        None => false,
    }
}

/// A possibly absent list, empty when absent.
pub open spec fn seq_or_empty<T>(o: Option<Seq<T>>) -> Seq<T> {
    match o {
        Some(s) => s,
        None => Seq::empty(),
    }
}

/// An entry equals a raw one with every absent field replaced by the empty
/// string.
pub open spec fn entry_matches_raw(e: CollectionEntry, raw: RawEntry) -> bool {
    &&& e.bvid@ == str_view_or_empty(raw.bvid)
    &&& e.title@ == str_view_or_empty(raw.title)
    &&& e.author@ == str_view_or_empty(raw.author)
}

/// A segment equals a raw one with an absent identifier replaced by zero and
/// an absent name by the empty string.
pub open spec fn segment_matches_raw(s: Segment, raw: RawSegment) -> bool {
    &&& s.cid == code_or_zero(raw.cid)
    &&& s.part@ == str_view_or_empty(raw.part)
}

/// The entries are the raw ones, in order, with their defaults applied.
pub open spec fn entries_match(es: Seq<CollectionEntry>, raws: Seq<RawEntry>) -> bool {
    &&& es.len() == raws.len()
    &&& forall|j: int| 0 <= j < es.len() ==> entry_matches_raw(#[trigger] es[j], raws[j])
}

/// The segments are the raw ones, in order, with their defaults applied.
pub open spec fn segments_match(ss: Seq<Segment>, raws: Seq<RawSegment>) -> bool {
    &&& ss.len() == raws.len()
    &&& forall|j: int| 0 <= j < ss.len() ==> segment_matches_raw(#[trigger] ss[j], raws[j])
}

/// The given string, or the empty string when none came.
pub fn string_or_empty(o: Option<String>) -> (r: String)
    ensures
        o matches Some(s) ==> r == s,
        o is None ==> r@ == Seq::<char>::empty(),
        r@ == str_view_or_empty(o),
{
    match o {
        Some(s) => s,
        None => String::new(),
    }
}

/// The given number, or zero when none came.
pub fn i64_or_zero(o: Option<i64>) -> (r: i64)
    ensures
        o matches Some(v) ==> r == v,
        o is None ==> r == 0,
        r == code_or_zero(o),
{
    match o {
        Some(v) => v,
        None => 0,
    }
}

/// The given flag, or false when none came.
pub fn bool_or_false(o: Option<bool>) -> (r: bool)
    ensures
        o matches Some(v) ==> r == v,
        o is None ==> r == false,
        r == flag_or_false(o),
{
    match o {
        Some(v) => v,
        None => false,
    }
}

/// An entry with every absent field replaced by the empty string.
pub fn entry_from_raw(raw: RawEntry) -> (r: CollectionEntry)
    ensures
        entry_matches_raw(r, raw),
        raw.bvid matches Some(s) ==> r.bvid == s,
        raw.title matches Some(s) ==> r.title == s,
        raw.author matches Some(s) ==> r.author == s,
{
    let bvid = string_or_empty(raw.bvid);
    let title = string_or_empty(raw.title);
    let author = string_or_empty(raw.author);
    CollectionEntry { bvid, title, author }
}

/// A segment with an absent identifier replaced by zero and an absent name
/// by the empty string.
pub fn segment_from_raw(raw: RawSegment) -> (r: Segment)
    ensures
        segment_matches_raw(r, raw),
        raw.cid matches Some(v) ==> r.cid == v,
        raw.part matches Some(s) ==> r.part == s,
{
    let cid = i64_or_zero(raw.cid);
    let part = string_or_empty(raw.part);
    Segment { cid, part }
}

/// A copy of an entry, equal to it field by field.
pub fn clone_entry(e: &CollectionEntry) -> (r: CollectionEntry)
    ensures
        r == *e,
{
    CollectionEntry { bvid: e.bvid.clone(), title: e.title.clone(), author: e.author.clone() }
}

/// The first of the resolved audio stream URLs, when any came.
pub fn pick_stream_url(urls: Vec<String>) -> (r: Option<String>)
    ensures
        urls@.len() == 0 ==> r is None,
        urls@.len() > 0 ==> (r matches Some(u) && u == urls@[0]),
{
    if urls.len() == 0 {
        None
    } else {
        Some(urls[0].clone())
    }
}

/// The listing URL of one page of a collection.
pub fn fav_list_url(fid: &str, pn: u64) -> (r: String)
    ensures
        r@ == "https://api.bilibili.com/x/v3/fav/resource/list?media_id="@ + fid@ + "&pn="@
            + dec_spec(pn as nat) + "&ps=20"@,
{
    let mut s = String::from_str("https://api.bilibili.com/x/v3/fav/resource/list?media_id=");
    s.append(fid);
    s.append("&pn=");
    let page = crate::numfmt::u64_to_string(pn);
    s.append(page.as_str());
    s.append("&ps=20");
    s
}

/// The URL that lists the segments of an entry.
pub fn pagelist_url(bvid: &str) -> (r: String)
    ensures
        r@ == "https://api.bilibili.com/x/player/pagelist?bvid="@ + bvid@,
{
    let mut s = String::from_str("https://api.bilibili.com/x/player/pagelist?bvid=");
    s.append(bvid);
    s
}

/// The URL that resolves the stream of one segment; the trailing format flag
/// asks for the richer multi-track descriptor.
pub fn playurl_url(bvid: &str, cid: i64) -> (r: String)
    ensures
        r@ == "https://api.bilibili.com/x/player/playurl?bvid="@ + bvid@ + "&cid="@
            + dec_signed_spec(cid as int) + "&fnval=16"@,
{
    let mut s = String::from_str("https://api.bilibili.com/x/player/playurl?bvid=");
    s.append(bvid);
    s.append("&cid=");
    let id = crate::numfmt::i64_to_string(cid);
    s.append(id.as_str());
    s.append("&fnval=16");
    s
}

/// The referer header value a download request must carry.
pub fn referer_value() -> (r: &'static str)
    ensures
        r@ == "https://www.bilibili.com"@,
{
    "https://www.bilibili.com"
}

/// The origin header value a download request must carry.
pub fn origin_value() -> (r: &'static str)
    ensures
        r@ == "https://www.bilibili.com"@,
{
    "https://www.bilibili.com"
}

/// The browser-like user agent a download request must carry.
pub fn user_agent_value() -> (r: &'static str)
    ensures
        r@
            == " Mozilla/5.0 (Windows NT 10.0; Win64; x64; rv:90.0) Gecko/20100101 Firefox/90.0"@,
{
    " Mozilla/5.0 (Windows NT 10.0; Win64; x64; rv:90.0) Gecko/20100101 Firefox/90.0"
}

fn transport_error(detail: &str) -> (r: MyError)
    ensures
        r matches MyError::ReqError(d) && d@ == detail@,
{
    MyError::ReqError(String::from_str(detail))
}

/// Decides a response's envelope: unparsable text is a transport-level
/// failure; a non-zero code (an absent one counts as zero) is a platform
/// error carrying exactly that code and the envelope's message, empty when
/// absent; everything else passes.
fn read_envelope(body: &str) -> (r: Result<(), MyError>)
    ensures
        r is Ok <==> (envelope_parses(body@) && code_or_zero(envelope_code(body@)) == 0),
        !envelope_parses(body@) ==> (r matches Err(MyError::ReqError(_))),
        envelope_parses(body@) && code_or_zero(envelope_code(body@)) != 0 ==> (r matches Err(MyError::BiliError(b)) && b.code == code_or_zero(envelope_code(body@)) && b.msg@ == str_view_or_empty(envelope_message(body@))),
{
    match extract_envelope(body) {
        None => Err(transport_error("the response is not valid JSON")),
        Some((code_field, message_field)) => {
            let code = i64_or_zero(code_field);
            let message = string_or_empty(message_field);
            crate::errors::check_envelope(code, message)
        },
    }
}

/// Parses one page of the collection listing. Unparsable text is a
/// transport-level failure; a non-zero envelope code is a platform error
/// carrying exactly that code and message; otherwise the page holds the
/// listed entries in order with absent fields defaulted, none when the
/// media list is absent, and the continuation flag, false when absent.
pub fn parse_fav_page(body: &str) -> (r: Result<PageResult, MyError>)
    ensures
        !envelope_parses(body@) ==> (r matches Err(MyError::ReqError(_))),
        envelope_parses(body@) && code_or_zero(envelope_code(body@)) != 0 ==> (r matches Err(MyError::BiliError(b)) && b.code == code_or_zero(envelope_code(body@)) && b.msg@ == str_view_or_empty(envelope_message(body@))),
        envelope_parses(body@) && code_or_zero(envelope_code(body@)) == 0 ==> (r matches Ok(p) && p.has_more == flag_or_false(page_has_more(body@)) && entries_match(p.entries@, seq_or_empty(page_medias(body@)))),
{
    match read_envelope(body) {
        Ok(()) => (),
        Err(e) => {
            return Err(e);
        },
    }
    let mut raws = match extract_page_medias(body) {
        Some(v) => v,
        None => Vec::new(),
    };
    let has_more = bool_or_false(extract_page_has_more(body));
    let ghost all = raws@;
    let mut entries: Vec<CollectionEntry> = Vec::new();
    while raws.len() > 0
        invariant
            entries@.len() + raws@.len() == all.len(),
            raws@ == all.subrange(entries@.len() as int, all.len() as int),
            forall|j: int| 0 <= j < entries@.len() ==> entry_matches_raw(#[trigger] entries@[j], all[j]),
        decreases raws@.len(),
    {
        let ghost k = entries@.len() as int;
        proof {
            assert(all.subrange(k, all.len() as int)[0] == all[k]);
            assert(all.subrange(k, all.len() as int).remove(0) =~= all.subrange(k + 1, all.len() as int));
        }
        let raw = raws.remove(0);
        entries.push(entry_from_raw(raw));
    }
    Ok(PageResult { entries, has_more })
}

/// Parses the segment listing of one entry. Unparsable text is a
/// transport-level failure; a non-zero envelope code is a platform error
/// carrying exactly that code and message; otherwise the result holds the
/// listed segments in order with absent fields defaulted, and none when the
/// segment list is absent.
pub fn parse_pagelist(body: &str) -> (r: Result<Vec<Segment>, MyError>)
    ensures
        !envelope_parses(body@) ==> (r matches Err(MyError::ReqError(_))),
        envelope_parses(body@) && code_or_zero(envelope_code(body@)) != 0 ==> (r matches Err(MyError::BiliError(b)) && b.code == code_or_zero(envelope_code(body@)) && b.msg@ == str_view_or_empty(envelope_message(body@))),
        envelope_parses(body@) && code_or_zero(envelope_code(body@)) == 0 ==> (r matches Ok(ss) && segments_match(ss@, seq_or_empty(pagelist_segments(body@)))),
{
    match read_envelope(body) {
        Ok(()) => (),
        Err(e) => {
            return Err(e);
        },
    }
    let mut raws = match extract_segments(body) {
        Some(v) => v,
        None => Vec::new(),
    };
    let ghost all = raws@;
    let mut segments: Vec<Segment> = Vec::new();
    while raws.len() > 0
        invariant
            segments@.len() + raws@.len() == all.len(),
            raws@ == all.subrange(segments@.len() as int, all.len() as int),
            forall|j: int| 0 <= j < segments@.len() ==> segment_matches_raw(#[trigger] segments@[j], all[j]),
        decreases raws@.len(),
    {
        let ghost k = segments@.len() as int;
        proof {
            assert(all.subrange(k, all.len() as int)[0] == all[k]);
            assert(all.subrange(k, all.len() as int).remove(0) =~= all.subrange(k + 1, all.len() as int));
        }
        let raw = raws.remove(0);
        segments.push(segment_from_raw(raw));
    }
    Ok(segments)
}

/// Parses a stream resolution. Unparsable text is a transport-level
/// failure; a non-zero envelope code is a platform error carrying exactly
/// that code and message; otherwise the result carries the first audio
/// track's URL (empty when the track has none), and no URL at all when
/// the track list is absent or empty — nothing to download.
pub fn parse_playurl(body: &str) -> (r: Result<Option<String>, MyError>)
    ensures
        !envelope_parses(body@) ==> (r matches Err(MyError::ReqError(_))),
        envelope_parses(body@) && code_or_zero(envelope_code(body@)) != 0 ==> (r matches Err(MyError::BiliError(b)) && b.code == code_or_zero(envelope_code(body@)) && b.msg@ == str_view_or_empty(envelope_message(body@))),
        envelope_parses(body@) && code_or_zero(envelope_code(body@)) == 0 ==> (r matches Ok(u) && (seq_or_empty(playurl_audio(body@)).len() == 0 ==> u is None) && (seq_or_empty(playurl_audio(body@)).len() > 0 ==> (u matches Some(s) && s@ == str_view_or_empty(seq_or_empty(playurl_audio(body@))[0])))),
{
    match read_envelope(body) {
        Ok(()) => (),
        Err(e) => {
            return Err(e);
        },
    }
    let mut tracks = match extract_audio_urls(body) {
        Some(v) => v,
        None => Vec::new(),
    };
    let ghost all = tracks@;
    let mut urls: Vec<String> = Vec::new();
    while tracks.len() > 0
        invariant
            urls@.len() + tracks@.len() == all.len(),
            tracks@ == all.subrange(urls@.len() as int, all.len() as int),
            forall|j: int| 0 <= j < urls@.len() ==> (#[trigger] urls@[j])@ == str_view_or_empty(all[j]),
        decreases tracks@.len(),
    {
        let ghost k = urls@.len() as int;
        proof {
            assert(all.subrange(k, all.len() as int)[0] == all[k]);
            assert(all.subrange(k, all.len() as int).remove(0) =~= all.subrange(k + 1, all.len() as int));
        }
        let track = tracks.remove(0);
        urls.push(string_or_empty(track));
    }
    Ok(pick_stream_url(urls))
}

} // verus!
