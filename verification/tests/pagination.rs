use bili_music_download::api::CollectionEntry;
use bili_music_download::api::PageResult;
use bili_music_download::paginate::Paginator;

fn entry(bvid: &str) -> CollectionEntry {
    CollectionEntry {
        bvid: String::from(bvid),
        title: String::from("t"),
        author: String::from("a"),
    }
}

#[test]
fn pages_accumulate_in_order() {
    let mut p = Paginator::new();
    assert_eq!(p.page, 1);
    assert!(!p.done());
    p.step(PageResult { entries: vec![entry("b1"), entry("b2")], has_more: true });
    assert_eq!(p.page, 2);
    assert!(!p.done());
    p.step(PageResult { entries: vec![entry("b3")], has_more: false });
    assert_eq!(p.page, 3);
    assert!(p.done());
    let ids: Vec<&str> = p.entries.iter().map(|e| e.bvid.as_str()).collect();
    assert_eq!(ids, vec!["b1", "b2", "b3"]);
}

#[test]
fn empty_pages_still_advance() {
    let mut p = Paginator::new();
    p.step(PageResult { entries: vec![], has_more: true });
    p.step(PageResult { entries: vec![], has_more: false });
    assert_eq!(p.page, 3);
    assert_eq!(p.entries.len(), 0);
    assert!(p.done());
}

#[test]
fn always_more_never_finishes_within_a_bound() {
    // A platform that keeps answering `true` keeps the pagination going;
    // this test double bounds it at five pages and sees no terminal state.
    let mut p = Paginator::new();
    for i in 0..5u32 {
        assert!(!p.done());
        p.step(PageResult { entries: vec![entry(&format!("b{}", i))], has_more: true });
    }
    assert!(!p.done());
    assert_eq!(p.entries.len(), 5);
    assert_eq!(p.page, 6);
}
