use vstd::prelude::*;

verus! {

/// The book that a recipe was taken from.
#[derive(Clone, Debug, PartialEq)]
pub struct BookSource {
    /// The authors of the book, in order; a single author is a list of one.
    pub authors: Vec<String>,
    /// The title of the book.
    pub title: String,
    /// The International Standard Book Number, where known.
    pub isbn: Option<String>,
    /// Whatever else is known of the book.
    pub notes: Option<String>,
}

/// What a `BookSource` holds.
pub struct BookSourceView {
    pub authors: Seq<Seq<char>>,
    pub title: Seq<char>,
    pub isbn: Option<Seq<char>>,
    pub notes: Option<Seq<char>>,
}

impl BookSourceView {
    /// A book without authors or title.
    pub open spec fn empty() -> BookSourceView {
        BookSourceView { authors: Seq::empty(), title: Seq::empty(), isbn: None, notes: None }
    }
}

impl View for BookSource {
    type V = BookSourceView;

    open spec fn view(&self) -> BookSourceView {
        BookSourceView {
            authors: self.authors.deep_view(),
            title: self.title@,
            isbn: self.isbn.deep_view(),
            notes: self.notes.deep_view(),
        }
    }
}

impl DeepView for BookSource {
    type V = BookSourceView;

    open spec fn deep_view(&self) -> BookSourceView {
        self@
    }
}

impl Default for BookSource {
    fn default() -> (b: BookSource)
        ensures
            b@ == BookSourceView::empty(),
    {
        let b = BookSource { authors: Vec::new(), title: String::new(), isbn: None, notes: None };
        assert(b.authors.deep_view() =~= Seq::<Seq<char>>::empty());
        b
    }
}

} // verus!
