use bili_music_download::api::fav_list_url;
use bili_music_download::api::origin_value;
use bili_music_download::api::pagelist_url;
use bili_music_download::api::playurl_url;
use bili_music_download::api::referer_value;
use bili_music_download::api::user_agent_value;
use bili_music_download::api::PAGE_SIZE;
use bili_music_download::numfmt::i64_to_string;
use bili_music_download::numfmt::u64_to_string;

#[test]
fn listing_url_carries_collection_page_and_size() {
    assert_eq!(
        fav_list_url("53603453", 2),
        "https://api.bilibili.com/x/v3/fav/resource/list?media_id=53603453&pn=2&ps=20"
    );
    assert_eq!(PAGE_SIZE, 20);
}

#[test]
fn pagelist_url_carries_the_entry() {
    assert_eq!(
        pagelist_url("BV1xx411c7mD"),
        "https://api.bilibili.com/x/player/pagelist?bvid=BV1xx411c7mD"
    );
}

#[test]
fn playurl_url_asks_for_the_rich_format() {
    assert_eq!(
        playurl_url("BV1xx411c7mD", 1176840),
        "https://api.bilibili.com/x/player/playurl?bvid=BV1xx411c7mD&cid=1176840&fnval=16"
    );
}

#[test]
fn download_headers_point_at_the_platform() {
    assert_eq!(referer_value(), "https://www.bilibili.com");
    assert_eq!(origin_value(), "https://www.bilibili.com");
    assert!(user_agent_value().contains("Mozilla/5.0"));
    assert!(user_agent_value().contains("Firefox/90.0"));
}

#[test]
fn decimal_rendering_is_exact() {
    assert_eq!(u64_to_string(0), "0");
    assert_eq!(u64_to_string(7), "7");
    assert_eq!(u64_to_string(12345), "12345");
    assert_eq!(u64_to_string(u64::MAX), "18446744073709551615");
    assert_eq!(i64_to_string(-400), "-400");
    assert_eq!(i64_to_string(0), "0");
    assert_eq!(i64_to_string(i64::MIN), "-9223372036854775808");
    assert_eq!(i64_to_string(i64::MAX), "9223372036854775807");
}
