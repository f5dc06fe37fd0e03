//! What the store reports about the events that a message names. The store
//! itself is not part of this library.

use vstd::prelude::*;

verus! {

/// A stored event, as far as the stages need it.
#[derive(Clone, PartialEq, Eq, Debug)]
pub struct StoredEntry {
    pub id: String,
    pub author: String,
}

pub struct StoredView {
    pub id: Seq<char>,
    pub author: Seq<char>,
}

impl View for StoredEntry {
    type V = StoredView;

    open spec fn view(&self) -> StoredView {
        StoredView { id: self.id@, author: self.author@ }
    }
}

impl DeepView for StoredEntry {
    type V = StoredView;

    open spec fn deep_view(&self) -> StoredView {
        self@
    }
}

/// The answer of the store to the question which of the events that a message
/// names it holds: the event's own identifier and those in its `e` tags.
#[derive(Clone, PartialEq, Eq, Debug)]
pub enum StorageReport {
    /// The store holds exactly these of the events asked for.
    Known(Vec<StoredEntry>),
    /// The store did not answer, and may answer later.
    Unavailable,
    /// The store is broken.
    Failed,
}

pub enum StorageView {
    Known(Seq<StoredView>),
    Unavailable,
    Failed,
}

impl View for StorageReport {
    type V = StorageView;

    open spec fn view(&self) -> StorageView {
        match self {
            StorageReport::Known(entries) => StorageView::Known(entries.deep_view()),
            StorageReport::Unavailable => StorageView::Unavailable,
            StorageReport::Failed => StorageView::Failed,
        }
    }
}

/// The author of the stored event `id`, by the first entry that reports it.
pub open spec fn author_of(known: Seq<StoredView>, id: Seq<char>) -> Option<Seq<char>>
    decreases known.len(),
{
    if known.len() == 0 {
        None
    } else if known[0].id == id {
        Some(known[0].author)
    } else {
        author_of(known.skip(1), id)
    }
}

/// Looks up the author of the stored event `id`.
pub fn find_author<'a>(known: &'a Vec<StoredEntry>, id: &String) -> (author: Option<&'a String>)
    ensures
        author.deep_view() == author_of(known.deep_view(), id@),
{
    let mut i: usize = 0;
    assert(known.deep_view().skip(0) =~= known.deep_view());
    while i < known.len()
        invariant
            i <= known.len(),
            author_of(known.deep_view(), id@) == author_of(known.deep_view().skip(i as int), id@),
        decreases known.len() - i,
    {
        proof {
            let rest = known.deep_view().skip(i as int);
            assert(rest[0] == known[i as int]@);
            assert(rest.skip(1) =~= known.deep_view().skip(i as int + 1));
        }
        if known[i].id == *id {
            return Some(&known[i].author);
        }
        i += 1;
    }
    None
}

} // verus!
