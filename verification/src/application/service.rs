use vstd::prelude::*;

use crate::application::error::ApplicationServiceError;
use crate::domain::bookmark::{texts, views, Bookmark, BookmarkView};
use crate::domain::bookmark_search_engine::{outcome_of, BookmarkSearchEngine, SearchFailure};

verus! {

/// The URLs of a list of bookmarks, in the same order.
pub open spec fn urls(matches: Seq<BookmarkView>) -> Seq<Seq<char>> {
    matches.map_values(|bookmark: BookmarkView| bookmark.url)
}

/// The names of a list of bookmarks, in the same order.
pub open spec fn names(matches: Seq<BookmarkView>) -> Seq<Seq<char>> {
    matches.map_values(|bookmark: BookmarkView| bookmark.name)
}

/// What `search` answers for an outcome of the engine: the URLs of the
/// matches, or the engine's failure unchanged.
pub open spec fn urls_of(outcome: Result<Seq<BookmarkView>, SearchFailure>) -> Result<
    Seq<Seq<char>>,
    SearchFailure,
> {
    match outcome {
        Ok(matches) => Ok(urls(matches)),
        Err(failure) => Err(failure),
    }
}

/// What `suggest` answers for an outcome of the engine: the names of the
/// matches, or the engine's failure unchanged.
pub open spec fn names_of(outcome: Result<Seq<BookmarkView>, SearchFailure>) -> Result<
    Seq<Seq<char>>,
    SearchFailure,
> {
    match outcome {
        Ok(matches) => Ok(names(matches)),
        Err(failure) => Err(failure),
    }
}

/// An answer of the service as a mathematical value.
pub open spec fn answer_of(result: Result<Vec<String>, ApplicationServiceError>) -> Result<
    Seq<Seq<char>>,
    SearchFailure,
> {
    match result {
        Ok(list) => Ok(texts(list@)),
        Err(error) => Err(error@),
    }
}

/// What the HTTP surface asks of the application. Both questions are put to
/// the same search: they differ in what is shown of a match, never in which
/// bookmarks match.
pub trait ApplicationService {
    /// The outcomes that the search behind the service may have for a term.
    spec fn permits(&self, term: Seq<char>, outcome: Result<Seq<BookmarkView>, SearchFailure>) -> bool;

    /// The URLs of the bookmarks that match the term, best first.
    fn search(&self, term: String) -> (result: Result<Vec<String>, ApplicationServiceError>)
        ensures
            exists|outcome: Result<Seq<BookmarkView>, SearchFailure>| #[trigger]
                self.permits(term@, outcome) && answer_of(result) == urls_of(outcome),
    ;

    /// The names of the bookmarks that match the term, best first.
    fn suggest(&self, term: String) -> (result: Result<Vec<String>, ApplicationServiceError>)
        ensures
            exists|outcome: Result<Seq<BookmarkView>, SearchFailure>| #[trigger]
                self.permits(term@, outcome) && answer_of(result) == names_of(outcome),
    ;
}

/// The application service over one search engine.
pub struct ApplicationServiceImpl<BSE: BookmarkSearchEngine> {
    bookmark_search_engine: BSE,
}

impl<BSE: BookmarkSearchEngine> ApplicationServiceImpl<BSE> {
    /// The engine that the service asks.
    pub closed spec fn engine(&self) -> BSE {
        self.bookmark_search_engine
    }

    /// The service over the engine.
    pub fn new(bookmark_search_engine: BSE) -> (service: ApplicationServiceImpl<BSE>)
        ensures
            service.engine() == bookmark_search_engine,
    {
        ApplicationServiceImpl { bookmark_search_engine }
    }
}

/// The URLs of the bookmarks, in the same order.
pub fn url_list(matches: &Vec<Bookmark>) -> (list: Vec<String>)
    ensures
        texts(list@) == urls(views(matches@)),
{
    let mut list: Vec<String> = Vec::new();
    let mut i: usize = 0;
    while i < matches.len()
        invariant
            i <= matches.len(),
            list.len() == i,
            forall|j: int| 0 <= j < i ==> (#[trigger] list@[j])@ == matches@[j]@.url,
        decreases matches.len() - i,
    {
        list.push(matches[i].url().clone());
        i += 1;
    }
    assert(texts(list@) =~= urls(views(matches@)));
    list
}

/// The names of the bookmarks, in the same order.
pub fn name_list(matches: &Vec<Bookmark>) -> (list: Vec<String>)
    ensures
        texts(list@) == names(views(matches@)),
{
    let mut list: Vec<String> = Vec::new();
    let mut i: usize = 0;
    while i < matches.len()
        invariant
            i <= matches.len(),
            list.len() == i,
            forall|j: int| 0 <= j < i ==> (#[trigger] list@[j])@ == matches@[j]@.name,
        decreases matches.len() - i,
    {
        list.push(matches[i].name().clone());
        i += 1;
    }
    assert(texts(list@) =~= names(views(matches@)));
    list
}

impl<BSE: BookmarkSearchEngine> ApplicationService for ApplicationServiceImpl<BSE> {
    open spec fn permits(&self, term: Seq<char>, outcome: Result<Seq<BookmarkView>, SearchFailure>) -> bool {
        self.engine().permits(term, outcome)
    }

    fn search(&self, term: String) -> (result: Result<Vec<String>, ApplicationServiceError>) {
        let ghost asked = term@;
        let found = self.bookmark_search_engine.search(term);
        let ghost outcome = outcome_of(found);
        let result = match found {
            Ok(matches) => Ok(url_list(&matches)),
            Err(cause) => Err(ApplicationServiceError::from(cause)),
        };
        assert(self.permits(asked, outcome) && answer_of(result) == urls_of(outcome));
        result
    }

    fn suggest(&self, term: String) -> (result: Result<Vec<String>, ApplicationServiceError>) {
        let ghost asked = term@;
        let found = self.bookmark_search_engine.search(term);
        let ghost outcome = outcome_of(found);
        let result = match found {
            Ok(matches) => Ok(name_list(&matches)),
            Err(cause) => Err(ApplicationServiceError::from(cause)),
        };
        assert(self.permits(asked, outcome) && answer_of(result) == names_of(outcome));
        result
    }
}

/// `search` and `suggest` never diverge in which bookmarks match: for one
/// outcome of the engine both answer, or both fail in the same way, and
/// the i-th URL and the i-th name are those of the same bookmark.
pub proof fn search_and_suggest_agree(outcome: Result<Seq<BookmarkView>, SearchFailure>)
    ensures
        match outcome {
            Ok(matches) => {
                &&& urls_of(outcome) matches Ok(found_urls)
                &&& names_of(outcome) matches Ok(found_names)
                &&& found_urls.len() == matches.len()
                &&& found_names.len() == matches.len()
                &&& forall|i: int|
                    0 <= i < matches.len() ==> found_urls[i] == (#[trigger] matches[i]).url
                        && found_names[i] == matches[i].name
            },
            Err(failure) => urls_of(outcome) == Err::<Seq<Seq<char>>, SearchFailure>(failure)
                && names_of(outcome) == Err::<Seq<Seq<char>>, SearchFailure>(failure),
        },
{
}

} // verus!
