use vstd::prelude::*;

use crate::domain::bookmark_search_engine::{BookmarkSearchEngineError, SearchFailure};

verus! {

/// Why the application service gave no answer. It keeps the kind of the
/// engine's failure as it is.
#[derive(Debug, PartialEq, Eq)]
pub enum ApplicationServiceError {
    /// The search engine failed.
    Search(BookmarkSearchEngineError),
}

impl View for ApplicationServiceError {
    type V = SearchFailure;

    open spec fn view(&self) -> SearchFailure {
        match self {
            ApplicationServiceError::Search(cause) => cause@,
        }
    }
}

impl ApplicationServiceError {
    /// The text shown for the failure: that of its cause.
    pub fn message(&self) -> (text: String)
        ensures
            text@ == self@.message(),
    {
        match self {
            ApplicationServiceError::Search(cause) => cause.message(),
        }
    }
}

impl vstd::std_specs::convert::FromSpecImpl<BookmarkSearchEngineError> for ApplicationServiceError {
    open spec fn obeys_from_spec() -> bool {
        true
    }

    open spec fn from_spec(cause: BookmarkSearchEngineError) -> ApplicationServiceError {
        ApplicationServiceError::Search(cause)
    }
}

impl From<BookmarkSearchEngineError> for ApplicationServiceError {
    /// The failure of the engine, wrapped and otherwise unchanged.
    fn from(cause: BookmarkSearchEngineError) -> (converted: ApplicationServiceError) {
        ApplicationServiceError::Search(cause)
    }
}

} // verus!
