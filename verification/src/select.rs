//! Selection of entries before a batch: each listed entry carries a mark,
//! the marks can be set, cleared or inverted together, and the batch is the
//! frozen list of the entries whose mark is set.

use vstd::prelude::*;

use crate::api::clone_entry;
use crate::api::CollectionEntry;

verus! {

/// A toggle of one listed entry's mark.
#[derive(Clone, Debug)]
pub enum CheckMessage {
    Check(bool),
}

/// One listed entry's title with its selection mark.
#[derive(Clone, Debug)]
pub struct Check {
    pub title: String,
    pub v: bool,
}

impl Check {
    /// A freshly listed entry starts selected.
    pub fn new(title: String) -> (r: Check)
        ensures
            r.title == title,
            r.v == true,
    {
        Check { title, v: true }
    }

    /// Applies a toggle: the mark becomes what the message carries.
    pub fn update(&mut self, message: CheckMessage)
        ensures
            final(self).title == old(self).title,
            message matches CheckMessage::Check(v) && final(self).v == v,
    {
        match message {
            CheckMessage::Check(v) => {
                self.v = v;
            },
        }
    }
}

/// Sets every mark.
pub fn select_all(list: &mut Vec<Check>)
    ensures
        final(list)@.len() == old(list)@.len(),
        forall|i: int|
            0 <= i < old(list)@.len() ==> final(list)@[i].v == true && final(list)@[i].title
                == old(list)@[i].title,
{
    let n = list.len();
    let mut i: usize = 0;
    while i < n
        invariant
            n == list@.len(),
            i <= n,
            list@.len() == old(list)@.len(),
            forall|j: int| 0 <= j < i ==> list@[j].v == true && list@[j].title == old(list)@[j].title,
            forall|j: int| i <= j < n ==> list@[j] == old(list)@[j],
        decreases n - i,
    {
        list[i].v = true;
        i = i + 1;
    }
}

/// Clears every mark.
pub fn clear_selection(list: &mut Vec<Check>)
    ensures
        final(list)@.len() == old(list)@.len(),
        forall|i: int|
            0 <= i < old(list)@.len() ==> final(list)@[i].v == false && final(list)@[i].title
                == old(list)@[i].title,
{
    let n = list.len();
    let mut i: usize = 0;
    while i < n
        invariant
            n == list@.len(),
            i <= n,
            list@.len() == old(list)@.len(),
            forall|j: int|
                0 <= j < i ==> list@[j].v == false && list@[j].title == old(list)@[j].title,
            forall|j: int| i <= j < n ==> list@[j] == old(list)@[j],
        decreases n - i,
    {
        list[i].v = false;
        i = i + 1;
    }
}

/// Inverts every mark.
pub fn invert_selection(list: &mut Vec<Check>)
    ensures
        final(list)@.len() == old(list)@.len(),
        forall|i: int|
            0 <= i < old(list)@.len() ==> final(list)@[i].v == !old(list)@[i].v && final(list)@[i].title == old(list)@[i].title,
{
    let n = list.len();
    let mut i: usize = 0;
    while i < n
        invariant
            n == list@.len(),
            i <= n,
            list@.len() == old(list)@.len(),
            forall|j: int|
                0 <= j < i ==> list@[j].v == !old(list)@[j].v && list@[j].title == old(list)@[j].title,
            forall|j: int| i <= j < n ==> list@[j] == old(list)@[j],
        decreases n - i,
    {
        let flipped = !list[i].v;
        list[i].v = flipped;
        i = i + 1;
    }
}

/// The entries whose mark is set, in listing order.
pub open spec fn selected_spec(entries: Seq<CollectionEntry>, marks: Seq<Check>) -> Seq<
    CollectionEntry,
>
    decreases entries.len(),
{
    if entries.len() == 0 {
        Seq::empty()
    } else {
        let front = selected_spec(entries.drop_last(), marks);
        if marks.len() >= entries.len() && marks[entries.len() - 1].v {
            front + seq![entries.last()]
        } else {
            front
        }
    }
}

/// The frozen batch: a copy of the entries whose mark is set, in listing
/// order.
pub fn selected_entries(entries: &Vec<CollectionEntry>, marks: &Vec<Check>) -> (r: Vec<
    CollectionEntry,
>)
    requires
        marks@.len() == entries@.len(),
    ensures
        r@ == selected_spec(entries@, marks@),
{
    let n = entries.len();
    let mut r: Vec<CollectionEntry> = Vec::new();
    let mut i: usize = 0;
    while i < n
        invariant
            n == entries@.len(),
            marks@.len() == entries@.len(),
            i <= n,
            r@ == selected_spec(entries@.take(i as int), marks@),
        decreases n - i,
    {
        if marks[i].v {
            r.push(clone_entry(&entries[i]));
        }
        i = i + 1;
        proof {
            assert(entries@.take(i as int).drop_last() =~= entries@.take(i - 1));
            assert(entries@.take(i as int).last() == entries@[i - 1]);
        }
    }
    proof {
        assert(entries@.take(n as int) =~= entries@);
    }
    r
}

} // verus!
