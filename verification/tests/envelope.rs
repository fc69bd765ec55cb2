use bili_music_download::api::parse_fav_page;
use bili_music_download::api::parse_pagelist;
use bili_music_download::api::parse_playurl;
use bili_music_download::errors::check_envelope;
use bili_music_download::errors::MyError;

#[test]
fn zero_code_passes() {
    assert!(check_envelope(0, String::from("ok")).is_ok());
}

#[test]
fn nonzero_code_carries_code_and_message() {
    let r = check_envelope(-400, String::from("请求错误"));
    match r {
        Err(MyError::BiliError(b)) => {
            assert_eq!(b.code, -400);
            assert_eq!(b.msg, "请求错误");
            assert_eq!(b.describe(), "-400:请求错误");
        }
        _ => panic!("expected a platform error"),
    }
}

#[test]
fn listing_error_code_surfaces() {
    let body = "{\"code\":-400,\"message\":\"请求错误\",\"data\":null}";
    match parse_fav_page(body) {
        Err(MyError::BiliError(b)) => {
            assert_eq!(b.code, -400);
            assert_eq!(b.msg, "请求错误");
        }
        _ => panic!("expected a platform error"),
    }
}

#[test]
fn pagelist_error_code_surfaces() {
    let body = "{\"code\":7,\"message\":\"oops\"}";
    match parse_pagelist(body) {
        Err(MyError::BiliError(b)) => {
            assert_eq!(b.code, 7);
            assert_eq!(b.msg, "oops");
        }
        _ => panic!("expected a platform error"),
    }
}

#[test]
fn playurl_error_code_surfaces() {
    let body = "{\"code\":-101,\"message\":\"账号未登录\"}";
    match parse_playurl(body) {
        Err(MyError::BiliError(b)) => {
            assert_eq!(b.code, -101);
            assert_eq!(b.msg, "账号未登录");
        }
        _ => panic!("expected a platform error"),
    }
}

#[test]
fn listing_page_is_read_with_entries_and_flag() {
    let body = "{\"code\":0,\"message\":\"0\",\"data\":{\"has_more\":true,\"medias\":[\
        {\"bvid\":\"BV1xx\",\"title\":\"song one\",\"upper\":{\"name\":\"alice\"}},\
        {\"bvid\":\"BV2yy\",\"title\":\"song two\",\"upper\":{\"name\":\"bob\"}}]}}";
    let page = parse_fav_page(body).unwrap();
    assert!(page.has_more);
    assert_eq!(page.entries.len(), 2);
    assert_eq!(page.entries[0].bvid, "BV1xx");
    assert_eq!(page.entries[0].title, "song one");
    assert_eq!(page.entries[0].author, "alice");
    assert_eq!(page.entries[1].bvid, "BV2yy");
}

#[test]
fn missing_entry_fields_default_to_empty() {
    let body = "{\"code\":0,\"data\":{\"medias\":[{\"title\":7}]}}";
    let page = parse_fav_page(body).unwrap();
    assert_eq!(page.entries.len(), 1);
    assert_eq!(page.entries[0].bvid, "");
    assert_eq!(page.entries[0].title, "");
    assert_eq!(page.entries[0].author, "");
    assert!(!page.has_more);
}

#[test]
fn missing_media_list_is_an_empty_page() {
    let body = "{\"code\":0,\"message\":\"0\",\"data\":{\"has_more\":false}}";
    let page = parse_fav_page(body).unwrap();
    assert_eq!(page.entries.len(), 0);
    assert!(!page.has_more);
}

#[test]
fn unparsable_listing_is_a_transport_failure() {
    match parse_fav_page("not json at all") {
        Err(MyError::ReqError(_)) => {}
        _ => panic!("expected a transport failure"),
    }
}

#[test]
fn unparsable_pagelist_is_a_transport_failure() {
    match parse_pagelist("{\"code\":") {
        Err(MyError::ReqError(_)) => {}
        _ => panic!("expected a transport failure"),
    }
}

#[test]
fn unparsable_playurl_is_a_transport_failure() {
    match parse_playurl("") {
        Err(MyError::ReqError(_)) => {}
        _ => panic!("expected a transport failure"),
    }
}

#[test]
fn missing_code_counts_as_success() {
    let page = parse_fav_page("{\"data\":{\"has_more\":false}}").unwrap();
    assert_eq!(page.entries.len(), 0);
}

#[test]
fn segments_are_read_in_order() {
    let body = "{\"code\":0,\"data\":[\
        {\"cid\":11,\"part\":\"first\"},{\"cid\":22,\"part\":\"second\"}]}";
    let segs = parse_pagelist(body).unwrap();
    assert_eq!(segs.len(), 2);
    assert_eq!(segs[0].cid, 11);
    assert_eq!(segs[0].part, "first");
    assert_eq!(segs[1].cid, 22);
    assert_eq!(segs[1].part, "second");
}

#[test]
fn missing_segment_fields_default() {
    let body = "{\"code\":0,\"data\":[{}]}";
    let segs = parse_pagelist(body).unwrap();
    assert_eq!(segs.len(), 1);
    assert_eq!(segs[0].cid, 0);
    assert_eq!(segs[0].part, "");
}

#[test]
fn missing_segment_list_means_no_segments() {
    let segs = parse_pagelist("{\"code\":0,\"message\":\"0\"}").unwrap();
    assert_eq!(segs.len(), 0);
}

#[test]
fn first_audio_url_is_picked() {
    let body = "{\"code\":0,\"data\":{\"dash\":{\"audio\":[\
        {\"baseUrl\":\"https://cdn.example/a1\"},{\"baseUrl\":\"https://cdn.example/a2\"}]}}}";
    assert_eq!(parse_playurl(body).unwrap(), Some(String::from("https://cdn.example/a1")));
}

#[test]
fn empty_audio_list_means_nothing_to_download() {
    let body = "{\"code\":0,\"data\":{\"dash\":{\"audio\":[]}}}";
    assert_eq!(parse_playurl(body).unwrap(), None);
}

#[test]
fn missing_audio_list_means_nothing_to_download() {
    let body = "{\"code\":0,\"data\":{}}";
    assert_eq!(parse_playurl(body).unwrap(), None);
}

#[test]
fn audio_track_without_url_defaults_to_empty() {
    let body = "{\"code\":0,\"data\":{\"dash\":{\"audio\":[{\"id\":3}]}}}";
    assert_eq!(parse_playurl(body).unwrap(), Some(String::new()));
}
