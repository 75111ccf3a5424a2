use vstd::prelude::*;

verus! {

/// Key of a stored bookmark.
pub type BookmarkId = i32;

/// A bookmark: a URL with free-form metadata, tags and description. The id
/// is absent until the store has assigned one. `flags` is a bit field kept
/// for the caller; the store persists it and never looks at it.
#[derive(Debug, Clone, PartialEq, Eq)]
pub struct Bookmark {
    pub id: Option<BookmarkId>,
    pub url: String,
    pub metadata: String,
    pub tags: String,
    pub desc: String,
    pub(crate) flags: i32,
}

/// The mathematical value of a bookmark.
pub struct BookmarkView {
    pub id: Option<BookmarkId>,
    pub url: Seq<char>,
    pub metadata: Seq<char>,
    pub tags: Seq<char>,
    pub desc: Seq<char>,
    pub flags: i32,
}

impl View for Bookmark {
    type V = BookmarkView;

    open(crate) spec fn view(&self) -> BookmarkView {
        BookmarkView {
            id: self.id,
            url: self.url@,
            metadata: self.metadata@,
            tags: self.tags@,
            desc: self.desc@,
            flags: self.flags,
        }
    }
}

impl Bookmark {
    /// A bookmark with the given fields.
    pub fn new(
        id: Option<BookmarkId>,
        url: String,
        metadata: String,
        tags: String,
        desc: String,
        flags: i32,
    ) -> (bm: Bookmark)
        ensures
            bm@ == (BookmarkView {
                id,
                url: url@,
                metadata: metadata@,
                tags: tags@,
                desc: desc@,
                flags,
            }),
    {
        Bookmark { id, url, metadata, tags, desc, flags }
    }

    /// The bookmark's flags.
    pub fn flags(&self) -> (f: i32)
        ensures
            f == self@.flags,
    {
        self.flags
    }
}

} // verus!
