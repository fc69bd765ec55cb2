use bili_music_download::api::CollectionEntry;
use bili_music_download::select::clear_selection;
use bili_music_download::select::invert_selection;
use bili_music_download::select::select_all;
use bili_music_download::select::selected_entries;
use bili_music_download::select::Check;
use bili_music_download::select::CheckMessage;

fn entry(bvid: &str) -> CollectionEntry {
    CollectionEntry {
        bvid: String::from(bvid),
        title: String::from("t"),
        author: String::from("a"),
    }
}

#[test]
fn a_new_mark_starts_selected() {
    let c = Check::new(String::from("song"));
    assert_eq!(c.title, "song");
    assert!(c.v);
}

#[test]
fn update_sets_the_mark() {
    let mut c = Check::new(String::from("song"));
    c.update(CheckMessage::Check(false));
    assert!(!c.v);
    c.update(CheckMessage::Check(true));
    assert!(c.v);
    assert_eq!(c.title, "song");
}

#[test]
fn whole_list_operations() {
    let mut marks = vec![
        Check::new(String::from("a")),
        Check::new(String::from("b")),
        Check::new(String::from("c")),
    ];
    marks[1].update(CheckMessage::Check(false));
    invert_selection(&mut marks);
    assert_eq!(marks.iter().map(|c| c.v).collect::<Vec<bool>>(), vec![false, true, false]);
    select_all(&mut marks);
    assert!(marks.iter().all(|c| c.v));
    clear_selection(&mut marks);
    assert!(marks.iter().all(|c| !c.v));
    assert_eq!(marks[2].title, "c");
}

#[test]
fn only_marked_entries_enter_the_batch() {
    let entries = vec![entry("b1"), entry("b2"), entry("b3")];
    let mut marks = vec![
        Check::new(String::from("1")),
        Check::new(String::from("2")),
        Check::new(String::from("3")),
    ];
    marks[1].update(CheckMessage::Check(false));
    let batch = selected_entries(&entries, &marks);
    let ids: Vec<&str> = batch.iter().map(|e| e.bvid.as_str()).collect();
    assert_eq!(ids, vec!["b1", "b3"]);

    clear_selection(&mut marks);
    assert_eq!(selected_entries(&entries, &marks).len(), 0);
    select_all(&mut marks);
    assert_eq!(selected_entries(&entries, &marks).len(), 3);
}
