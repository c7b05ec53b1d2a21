use vstd::prelude::*;
use vstd::string::*;

use crate::domain::bookmark::{views, Bookmark, BookmarkView};
use crate::trusted::ids::{format_id, id_text};

verus! {

/// Why a search gave no result list.
#[derive(Debug, PartialEq, Eq)]
pub enum BookmarkSearchEngineError {
    /// The term is not a query the engine understands.
    InvalidQuery,
    /// The engine surfaced an identifier that the repository does not hold.
    BookmarkNotFound(u128),
    /// Any other fault, with its description.
    Unexpected(String),
}

/// A search failure as a mathematical value.
pub enum SearchFailure {
    InvalidQuery,
    BookmarkNotFound(u128),
    Unexpected(Seq<char>),
}

impl View for BookmarkSearchEngineError {
    type V = SearchFailure;

    open spec fn view(&self) -> SearchFailure {
        match self {
            BookmarkSearchEngineError::InvalidQuery => SearchFailure::InvalidQuery,
            BookmarkSearchEngineError::BookmarkNotFound(id) => SearchFailure::BookmarkNotFound(*id),
            BookmarkSearchEngineError::Unexpected(description) => SearchFailure::Unexpected(
                description@,
            ),
        }
    }
}

impl SearchFailure {
    /// The text shown for the failure.
    pub open spec fn message(self) -> Seq<char> {
        match self {
            SearchFailure::InvalidQuery => "Invalid query was made to search engine"@,
            SearchFailure::BookmarkNotFound(id) => "Could not find Bookmark with id: "@ + id_text(
                id,
            ),
            SearchFailure::Unexpected(description) =>
                "Unexpected search engine error occurred: "@ + description,
        }
    }
}

impl BookmarkSearchEngineError {
    /// The text shown for the failure.
    pub fn message(&self) -> (text: String)
        ensures
            text@ == self@.message(),
    {
        match self {
            BookmarkSearchEngineError::InvalidQuery => String::from_str(
                "Invalid query was made to search engine",
            ),
            BookmarkSearchEngineError::BookmarkNotFound(id) => {
                let mut text = String::from_str("Could not find Bookmark with id: ");
                let id_part = format_id(*id);
                text.append(id_part.as_str());
                text
            },
            BookmarkSearchEngineError::Unexpected(description) => {
                let mut text = String::from_str("Unexpected search engine error occurred: ");
                text.append(description.as_str());
                text
            },
        }
    }
}

/// The outcome of a search as a mathematical value: the matches in rank
/// order, or the failure.
pub open spec fn outcome_of(result: Result<Vec<Bookmark>, BookmarkSearchEngineError>) -> Result<
    Seq<BookmarkView>,
    SearchFailure,
> {
    match result {
        Ok(matches) => Ok(views(matches@)),
        Err(error) => Err(error@),
    }
}

/// Ranked lookup of bookmarks by a term.
pub trait BookmarkSearchEngine {
    /// The outcomes that a search for `term` may have on this engine. An
    /// engine whose answer is a function of its snapshot and the term permits
    /// exactly one.
    spec fn permits(&self, term: Seq<char>, outcome: Result<Seq<BookmarkView>, SearchFailure>) -> bool;

    /// The bookmarks that match the term, best first.
    fn search(&self, term: String) -> (result: Result<Vec<Bookmark>, BookmarkSearchEngineError>)
        ensures
            self.permits(term@, outcome_of(result)),
    ;
}

} // verus!
