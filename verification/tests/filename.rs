use bili_music_download::sanitize::build_filename;
use bili_music_download::sanitize::output_path;
use bili_music_download::sanitize::sanitize;

#[test]
fn reserved_characters_become_spaces() {
    assert_eq!(build_filename("A/B", "P1", "C:D"), "A B - P1 - C D");
}

#[test]
fn every_reserved_character_is_replaced() {
    assert_eq!(sanitize("\\/?*><|:"), "        ");
    assert_eq!(sanitize("a\\b"), "a b");
    assert_eq!(sanitize("a/b"), "a b");
    assert_eq!(sanitize("a?b"), "a b");
    assert_eq!(sanitize("a*b"), "a b");
    assert_eq!(sanitize("a>b"), "a b");
    assert_eq!(sanitize("a<b"), "a b");
    assert_eq!(sanitize("a|b"), "a b");
    assert_eq!(sanitize("a:b"), "a b");
}

#[test]
fn ordinary_characters_are_kept() {
    assert_eq!(sanitize("plain name 123"), "plain name 123");
    assert_eq!(sanitize(""), "");
}

#[test]
fn sanitizing_twice_equals_once() {
    let once = sanitize("t/i:t*le?");
    let twice = sanitize(&once);
    assert_eq!(twice, once);
    let once = sanitize("already clean");
    assert_eq!(sanitize(&once), once);
}

#[test]
fn filename_joins_title_part_author() {
    assert_eq!(build_filename("song", "part one", "someone"), "song - part one - someone");
    assert_eq!(build_filename("", "", ""), " -  - ");
}

#[test]
fn path_appends_directory_and_extension() {
    assert_eq!(output_path("/tmp/out", "song - p - a"), "/tmp/out/song - p - a.aac");
    assert_eq!(output_path("", "n"), "/n.aac");
}
