use vstd::prelude::*;

use crate::domain::bookmark::{views, Bookmark, BookmarkView};
use crate::domain::bookmark_repository::BookmarkRepository;
use crate::domain::bookmark_search_engine::{
    BookmarkSearchEngine, BookmarkSearchEngineError, SearchFailure,
};
use crate::ports::search::simple::bookmark::SimpleSearchBookmark;
use crate::ports::search::simple::error::SimpleBookmarkSearchEngineError;
use crate::trusted::text::{contains, lowercase, occurs_in, to_lowercase};

verus! {

/// A name matches a term when the lowercase term is a contiguous part of the
/// lowercase name. The empty term is part of every name.
pub open spec fn matches(name: Seq<char>, term: Seq<char>) -> bool {
    term.len() == 0 || occurs_in(lowercase(term), lowercase(name))
}

/// The test that a term puts to each bookmark.
pub open spec fn matcher(term: Seq<char>) -> spec_fn(BookmarkView) -> bool {
    |bookmark: BookmarkView| matches(bookmark.name, term)
}

/// The bookmarks of a catalog that match a term, in catalog order.
pub open spec fn select(catalog: Seq<BookmarkView>, term: Seq<char>) -> Seq<BookmarkView> {
    catalog.filter(matcher(term))
}

/// Two terms differ at most in the case of their letters: they have the same
/// lowercase form, and either both are empty or neither is.
pub open spec fn same_ignoring_case(term: Seq<char>, other: Seq<char>) -> bool {
    lowercase(term) == lowercase(other) && (term.len() == 0 <==> other.len() == 0)
}

/// Search is insensitive to the case of the term: two terms that differ at
/// most in the case of their letters select the same bookmarks from every
/// catalog, in the same order.
pub proof fn select_ignores_case_of_term(
    catalog: Seq<BookmarkView>,
    term: Seq<char>,
    other: Seq<char>,
)
    requires
        same_ignoring_case(term, other),
    ensures
        select(catalog, term) == select(catalog, other),
{
    assert(matcher(term) =~= matcher(other));
}

/// Search is insensitive to the case of the names: whether a name matches a
/// term depends on the lowercase form of the name alone.
pub proof fn matches_ignores_case_of_name(name: Seq<char>, other: Seq<char>, term: Seq<char>)
    requires
        lowercase(name) == lowercase(other),
    ensures
        matches(name, term) == matches(other, term),
{
}

/// The empty term selects the whole catalog, in catalog order.
pub proof fn empty_term_selects_all(catalog: Seq<BookmarkView>)
    ensures
        select(catalog, Seq::<char>::empty()) == catalog,
    decreases catalog.len(),
{
    reveal(Seq::filter);
    let test = matcher(Seq::<char>::empty());
    if catalog.len() > 0 {
        empty_term_selects_all(catalog.drop_last());
        assert(test(catalog.last()));
        assert(catalog.drop_last().push(catalog.last()) =~= catalog);
    }
}

/// A search selects from the catalog and nothing else: every selected
/// bookmark is one of the catalog and matches the term.
pub proof fn selected_are_matches(catalog: Seq<BookmarkView>, term: Seq<char>, i: int)
    requires
        0 <= i < select(catalog, term).len(),
    ensures
        catalog.contains(select(catalog, term)[i]),
        matches(select(catalog, term)[i].name, term),
{
    let selected = select(catalog, term);
    catalog.lemma_filter_pred(matcher(term), i);
    assert(selected.contains(selected[i]));
    catalog.lemma_filter_contains_rev(matcher(term), selected[i]);
}

/// A search misses nothing: every bookmark of the catalog that matches the
/// term is selected.
pub proof fn matches_are_selected(catalog: Seq<BookmarkView>, term: Seq<char>, i: int)
    requires
        0 <= i < catalog.len(),
        matches(catalog[i].name, term),
    ensures
        select(catalog, term).contains(catalog[i]),
{
    catalog.lemma_filter_contains(matcher(term), i);
}

/// The engine that answers by a linear scan over a copy of the catalog.
pub struct SimpleBookmarkSearchEngine {
    data: Vec<SimpleSearchBookmark>,
}

/// The views of the engine's bookmarks, in the same order.
pub open spec fn kept_views(list: Seq<SimpleSearchBookmark>) -> Seq<BookmarkView> {
    list.map_values(|bookmark: SimpleSearchBookmark| bookmark@)
}

impl SimpleBookmarkSearchEngine {
    /// The catalog that the engine scans.
    pub closed spec fn catalog(&self) -> Seq<BookmarkView> {
        kept_views(self.data@)
    }

    /// The engine over a copy of everything the repository lists. A
    /// repository that cannot list gives no engine.
    pub fn new<BR: BookmarkRepository>(bookmark_repository: BR) -> (built: Result<
        SimpleBookmarkSearchEngine,
        SimpleBookmarkSearchEngineError,
    >)
        ensures
            match bookmark_repository.listing() {
                Ok(catalog) => built is Ok && built->Ok_0.catalog() == catalog,
                Err(failure) => built matches Err(
                    SimpleBookmarkSearchEngineError::PersistenceError(error),
                ) && error@ == failure,
            },
    {
        let bookmarks = match bookmark_repository.get_all() {
            Ok(bookmarks) => bookmarks,
            Err(error) => {
                return Err(SimpleBookmarkSearchEngineError::PersistenceError(error));
            },
        };
        let mut data: Vec<SimpleSearchBookmark> = Vec::new();
        let mut i: usize = 0;
        while i < bookmarks.len()
            invariant
                i <= bookmarks.len(),
                data.len() == i,
                forall|j: int| 0 <= j < i ==> (#[trigger] data@[j])@ == bookmarks@[j]@,
            decreases bookmarks.len() - i,
        {
            data.push(SimpleSearchBookmark::from(&bookmarks[i]));
            i += 1;
        }
        assert(kept_views(data@) =~= views(bookmarks@));
        Ok(SimpleBookmarkSearchEngine { data })
    }

    /// The engine over the given bookmarks, in their order.
    pub fn from_bookmarks(data: Vec<SimpleSearchBookmark>) -> (built: SimpleBookmarkSearchEngine)
        ensures
            built.catalog() == kept_views(data@),
    {
        SimpleBookmarkSearchEngine { data }
    }
}

impl BookmarkSearchEngine for SimpleBookmarkSearchEngine {
    /// The one outcome of a search: the matches, in catalog order. A scan
    /// has no query language and so no failure.
    open spec fn permits(&self, term: Seq<char>, outcome: Result<Seq<BookmarkView>, SearchFailure>) -> bool {
        outcome == Ok::<Seq<BookmarkView>, SearchFailure>(select(self.catalog(), term))
    }

    fn search(&self, term: String) -> (result: Result<Vec<Bookmark>, BookmarkSearchEngineError>)
        ensures
            result is Ok,
            term@.len() == 0 ==> views(result->Ok_0@) == self.catalog(),
    {
        let lowercase_term = to_lowercase(term.as_str());
        let every = term.as_str().is_empty();
        let ghost test = matcher(term@);
        let ghost catalog = self.catalog();
        let mut found: Vec<Bookmark> = Vec::new();
        let mut i: usize = 0;
        proof {
            reveal(Seq::filter);
            assert(catalog.take(0) =~= Seq::<BookmarkView>::empty());
        }
        while i < self.data.len()
            invariant
                i <= self.data.len(),
                catalog == kept_views(self.data@),
                test == matcher(term@),
                every == (term@.len() == 0),
                lowercase_term@ == lowercase(term@),
                views(found@) == catalog.take(i as int).filter(test),
            decreases self.data.len() - i,
        {
            let bookmark = &self.data[i];
            let lowercase_name = to_lowercase(bookmark.name().as_str());
            let keep = every || contains(lowercase_name.as_str(), lowercase_term.as_str());
            proof {
                let seen = catalog.take(i as int);
                assert(catalog.take(i as int + 1) =~= seen.push(catalog[i as int]));
                assert(keep == test(catalog[i as int]));
                seen.lemma_filter_push(catalog[i as int], test);
            }
            if keep {
                let ghost before = views(found@);
                found.push(Bookmark::from(bookmark.clone()));
                assert(views(found@) =~= before.push(catalog[i as int]));
            }
            i += 1;
        }
        proof {
            assert(catalog.take(i as int) =~= catalog);
            if term@.len() == 0 {
                assert(term@ =~= Seq::<char>::empty());
                empty_term_selects_all(catalog);
            }
        }
        Ok(found)
    }
}

/// A scan never fails and has one answer: whatever the term, be it a
/// malformed query of another engine, the outcome is the list of the
/// bookmarks whose names contain it.
pub proof fn scan_never_fails(
    engine: SimpleBookmarkSearchEngine,
    term: Seq<char>,
    outcome: Result<Seq<BookmarkView>, SearchFailure>,
    other: Result<Seq<BookmarkView>, SearchFailure>,
)
    requires
        engine.permits(term, outcome),
        engine.permits(term, other),
    ensures
        outcome is Ok,
        outcome == other,
{
}

/// Two terms that differ at most in the case of their letters have the same
/// outcome on the same engine.
pub proof fn scan_ignores_case_of_term(
    engine: SimpleBookmarkSearchEngine,
    term: Seq<char>,
    other: Seq<char>,
    outcome: Result<Seq<BookmarkView>, SearchFailure>,
)
    requires
        same_ignoring_case(term, other),
        engine.permits(term, outcome),
    ensures
        engine.permits(other, outcome),
{
    select_ignores_case_of_term(engine.catalog(), term, other);
}

/// The empty term has the whole catalog as its outcome, in catalog order.
pub proof fn scan_for_nothing_finds_all(engine: SimpleBookmarkSearchEngine)
    ensures
        engine.permits(Seq::<char>::empty(), Ok(engine.catalog())),
{
    empty_term_selects_all(engine.catalog());
}

} // verus!
