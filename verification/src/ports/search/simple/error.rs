use vstd::prelude::*;
use vstd::string::*;

use crate::domain::bookmark_repository::BookmarkRepositoryError;

verus! {

/// Why the linear scan engine could not be built.
#[derive(Debug, PartialEq, Eq)]
pub enum SimpleBookmarkSearchEngineError {
    /// The repository could not list its bookmarks.
    PersistenceError(BookmarkRepositoryError),
    /// The content handed to the engine could not be read as bookmarks; the
    /// text says why.
    ParseConfigContent(String),
}

impl SimpleBookmarkSearchEngineError {
    /// The text shown for the failure.
    pub open spec fn message_text(self) -> Seq<char> {
        match self {
            SimpleBookmarkSearchEngineError::PersistenceError(_) =>
                "Failed to get bookmarks from persistence"@,
            SimpleBookmarkSearchEngineError::ParseConfigContent(_) =>
                "Failed to parse config content"@,
        }
    }

    /// The text shown for the failure.
    pub fn message(&self) -> (text: String)
        ensures
            text@ == self.message_text(),
    {
        match self {
            SimpleBookmarkSearchEngineError::PersistenceError(_) => String::from_str(
                "Failed to get bookmarks from persistence",
            ),
            SimpleBookmarkSearchEngineError::ParseConfigContent(_) => String::from_str(
                "Failed to parse config content",
            ),
        }
    }
}

} // verus!
