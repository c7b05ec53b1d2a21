use vstd::prelude::*;
use vstd::string::*;

use crate::domain::bookmark_repository::BookmarkRepositoryError;
use crate::domain::bookmark_search_engine::{BookmarkSearchEngineError, SearchFailure};

verus! {

/// Why the indexed engine could not be built or asked.
#[derive(Debug, PartialEq, Eq)]
pub enum TantivyBookmarkSearchEngineAdapterError {
    /// The engine was asked before it was built.
    NotInitialised,
    /// The index reported a fault; the text is its description.
    Tantivy(String),
    /// The term is no query; the text is the parser's description.
    QueryParse(String),
    /// A hit of the index carries no identifier.
    MissingRequiredField,
    /// The texts of one bookmark are more than a document of the index can
    /// hold.
    DocumentTooLarge,
    /// The repository does not hold a bookmark that the index surfaced.
    BookmarkNotFound(BookmarkRepositoryError),
    /// The repository failed in another way.
    BookmarkRepository(BookmarkRepositoryError),
}

impl TantivyBookmarkSearchEngineAdapterError {
    /// The text shown for the failure. A failure that wraps another shows
    /// the text of that one.
    pub open spec fn message_text(self) -> Seq<char> {
        match self {
            TantivyBookmarkSearchEngineAdapterError::NotInitialised =>
                "Search engine has not been initialised"@,
            TantivyBookmarkSearchEngineAdapterError::Tantivy(description) => description@,
            TantivyBookmarkSearchEngineAdapterError::QueryParse(description) => description@,
            TantivyBookmarkSearchEngineAdapterError::MissingRequiredField =>
                "Retrieved document is missing a required field"@,
            TantivyBookmarkSearchEngineAdapterError::DocumentTooLarge =>
                "Bookmark is too large to be indexed"@,
            TantivyBookmarkSearchEngineAdapterError::BookmarkNotFound(cause) => cause@.message(),
            TantivyBookmarkSearchEngineAdapterError::BookmarkRepository(cause) => cause@.message(),
        }
    }

    /// The failure as the domain sees it: a refused query is an invalid
    /// query, a bookmark that the repository lacks is not found under its
    /// identifier, and everything else is unexpected, under this failure's
    /// own text.
    pub open spec fn search_failure(self) -> SearchFailure {
        match self {
            TantivyBookmarkSearchEngineAdapterError::QueryParse(_) => SearchFailure::InvalidQuery,
            TantivyBookmarkSearchEngineAdapterError::BookmarkNotFound(
                BookmarkRepositoryError::BookmarkNotFound(id),
            ) => SearchFailure::BookmarkNotFound(id),
            _ => SearchFailure::Unexpected(self.message_text()),
        }
    }

    /// The text shown for the failure.
    pub fn message(&self) -> (text: String)
        ensures
            text@ == self.message_text(),
    {
        match self {
            TantivyBookmarkSearchEngineAdapterError::NotInitialised => String::from_str(
                "Search engine has not been initialised",
            ),
            TantivyBookmarkSearchEngineAdapterError::Tantivy(description) => description.clone(),
            TantivyBookmarkSearchEngineAdapterError::QueryParse(description) => description.clone(),
            TantivyBookmarkSearchEngineAdapterError::MissingRequiredField => String::from_str(
                "Retrieved document is missing a required field",
            ),
            TantivyBookmarkSearchEngineAdapterError::DocumentTooLarge => String::from_str(
                "Bookmark is too large to be indexed",
            ),
            TantivyBookmarkSearchEngineAdapterError::BookmarkNotFound(cause) => cause.message(),
            TantivyBookmarkSearchEngineAdapterError::BookmarkRepository(cause) => cause.message(),
        }
    }
}

impl vstd::std_specs::convert::FromSpecImpl<TantivyBookmarkSearchEngineAdapterError> for BookmarkSearchEngineError {
    /// The conversion builds the description anew, so its result is fixed by
    /// its view only.
    open spec fn obeys_from_spec() -> bool {
        false
    }

    open spec fn from_spec(err: TantivyBookmarkSearchEngineAdapterError) -> BookmarkSearchEngineError {
        choose|converted: BookmarkSearchEngineError| converted@ == err.search_failure()
    }
}

impl From<TantivyBookmarkSearchEngineAdapterError> for BookmarkSearchEngineError {
    /// The failure as the domain sees it.
    fn from(err: TantivyBookmarkSearchEngineAdapterError) -> (converted: BookmarkSearchEngineError)
        ensures
            converted@ == err.search_failure(),
    {
        match err {
            TantivyBookmarkSearchEngineAdapterError::QueryParse(_) => {
                BookmarkSearchEngineError::InvalidQuery
            },
            TantivyBookmarkSearchEngineAdapterError::BookmarkNotFound(
                BookmarkRepositoryError::BookmarkNotFound(id),
            ) => BookmarkSearchEngineError::BookmarkNotFound(id),
            TantivyBookmarkSearchEngineAdapterError::NotInitialised
            | TantivyBookmarkSearchEngineAdapterError::MissingRequiredField
            | TantivyBookmarkSearchEngineAdapterError::DocumentTooLarge
            | TantivyBookmarkSearchEngineAdapterError::BookmarkNotFound(
                BookmarkRepositoryError::Unexpected(_),
            )
            | TantivyBookmarkSearchEngineAdapterError::Tantivy(_)
            | TantivyBookmarkSearchEngineAdapterError::BookmarkRepository(_) => {
                BookmarkSearchEngineError::Unexpected(err.message())
            },
        }
    }
}

impl vstd::std_specs::convert::FromSpecImpl<BookmarkRepositoryError> for TantivyBookmarkSearchEngineAdapterError {
    open spec fn obeys_from_spec() -> bool {
        true
    }

    open spec fn from_spec(err: BookmarkRepositoryError) -> TantivyBookmarkSearchEngineAdapterError {
        match err {
            BookmarkRepositoryError::BookmarkNotFound(_) =>
                TantivyBookmarkSearchEngineAdapterError::BookmarkNotFound(err),
            BookmarkRepositoryError::Unexpected(_) =>
                TantivyBookmarkSearchEngineAdapterError::BookmarkRepository(err),
        }
    }
}

impl From<BookmarkRepositoryError> for TantivyBookmarkSearchEngineAdapterError {
    /// A failure of the repository while hits are resolved: a bookmark that
    /// is not found is kept apart from every other fault.
    fn from(err: BookmarkRepositoryError) -> (converted: TantivyBookmarkSearchEngineAdapterError) {
        match err {
            BookmarkRepositoryError::BookmarkNotFound(_) => {
                TantivyBookmarkSearchEngineAdapterError::BookmarkNotFound(err)
            },
            BookmarkRepositoryError::Unexpected(_) => {
                TantivyBookmarkSearchEngineAdapterError::BookmarkRepository(err)
            },
        }
    }
}

} // verus!
