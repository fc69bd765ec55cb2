use bili_music_download::api::bool_or_false;
use bili_music_download::api::entry_from_raw;
use bili_music_download::api::i64_or_zero;
use bili_music_download::api::pick_stream_url;
use bili_music_download::api::segment_from_raw;
use bili_music_download::api::string_or_empty;
use bili_music_download::api::RawEntry;
use bili_music_download::api::RawSegment;
use bili_music_download::errors::file_create_error;
use bili_music_download::errors::file_write_error;
use bili_music_download::errors::MyError;
use bili_music_download::VideoInf;

#[test]
fn placeholder_names() {
    let v = VideoInf::default();
    assert_eq!(v.name, "What?");
    assert_eq!(v.author, "Who?");
}

#[test]
fn absent_fields_fall_back_to_defaults() {
    assert_eq!(string_or_empty(Some(String::from("x"))), "x");
    assert_eq!(string_or_empty(None), "");
    assert_eq!(i64_or_zero(Some(9)), 9);
    assert_eq!(i64_or_zero(None), 0);
    assert!(bool_or_false(Some(true)));
    assert!(!bool_or_false(None));
}

#[test]
fn raw_entry_defaults() {
    let e = entry_from_raw(RawEntry { bvid: None, title: Some(String::from("t")), author: None });
    assert_eq!(e.bvid, "");
    assert_eq!(e.title, "t");
    assert_eq!(e.author, "");
}

#[test]
fn raw_segment_defaults() {
    let s = segment_from_raw(RawSegment { cid: None, part: None });
    assert_eq!(s.cid, 0);
    assert_eq!(s.part, "");
    let s = segment_from_raw(RawSegment { cid: Some(5), part: Some(String::from("p")) });
    assert_eq!(s.cid, 5);
    assert_eq!(s.part, "p");
}

#[test]
fn stream_url_choice() {
    assert_eq!(pick_stream_url(vec![]), None);
    assert_eq!(
        pick_stream_url(vec![String::from("u1"), String::from("u2")]),
        Some(String::from("u1"))
    );
}

#[test]
fn local_write_failures_have_their_own_codes() {
    match file_create_error("denied") {
        MyError::BiliError(b) => {
            assert_eq!(b.code, -1);
            assert_eq!(b.msg, "文件创建失败：denied");
        }
        _ => panic!("expected a platform-style error"),
    }
    match file_write_error("disk full") {
        MyError::BiliError(b) => {
            assert_eq!(b.code, -2);
            assert_eq!(b.msg, "文件写入失败：disk full");
        }
        _ => panic!("expected a platform-style error"),
    }
}
