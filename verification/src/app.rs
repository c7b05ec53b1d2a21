use std::path::PathBuf;
use vstd::prelude::*;
use vstd::string::*;

use crate::domain::bookmark_repository::{BookmarkRepository, BookmarkRepositoryError};
use crate::ports::persistence::file_system_bookmark_repository_adapter::{
    all_valid, loaded_from, record_views, FileSystemBookmarkRepositoryAdapter,
    FileSystemBookmarkRepositoryAdapterError, StoreContent,
};
use crate::ports::search::indexed::error::TantivyBookmarkSearchEngineAdapterError;
use crate::ports::search::indexed::tantivy_bookmark_search_engine_adapter::TantivyBookmarkSearchEngineAdapter;

verus! {

/// The application: it knows where the catalog is stored and builds, from
/// what is found there, the search engine that serves every request.
pub struct App {
    search_engine_config_path: PathBuf,
}

/// What kept the application from starting.
#[derive(Debug, PartialEq, Eq)]
pub enum AppInitialisationCause {
    /// The repository could not list the catalog.
    Repository(BookmarkRepositoryError),
    /// The catalog could not be loaded.
    FileSystemRepository(FileSystemBookmarkRepositoryAdapterError),
    /// The index could not be built.
    SearchEngine(TantivyBookmarkSearchEngineAdapterError),
}

/// The application did not start.
#[derive(Debug, PartialEq, Eq)]
pub struct AppInitialisationError {
    cause: AppInitialisationCause,
}

impl AppInitialisationCause {
    /// The text shown for the cause: that of the failure it wraps.
    pub open spec fn message_text(self) -> Seq<char> {
        match self {
            AppInitialisationCause::Repository(error) => error@.message(),
            AppInitialisationCause::FileSystemRepository(error) => error.message_text(),
            AppInitialisationCause::SearchEngine(error) => error.message_text(),
        }
    }

    /// The text shown for the cause.
    pub fn message(&self) -> (text: String)
        ensures
            text@ == self.message_text(),
    {
        match self {
            AppInitialisationCause::Repository(error) => error.message(),
            AppInitialisationCause::FileSystemRepository(error) => error.message(),
            AppInitialisationCause::SearchEngine(error) => error.message(),
        }
    }
}

impl vstd::std_specs::convert::FromSpecImpl<BookmarkRepositoryError> for AppInitialisationCause {
    open spec fn obeys_from_spec() -> bool {
        true
    }

    open spec fn from_spec(error: BookmarkRepositoryError) -> AppInitialisationCause {
        AppInitialisationCause::Repository(error)
    }
}

impl From<BookmarkRepositoryError> for AppInitialisationCause {
    fn from(error: BookmarkRepositoryError) -> (cause: AppInitialisationCause) {
        AppInitialisationCause::Repository(error)
    }
}

impl vstd::std_specs::convert::FromSpecImpl<FileSystemBookmarkRepositoryAdapterError> for AppInitialisationCause {
    open spec fn obeys_from_spec() -> bool {
        true
    }

    open spec fn from_spec(error: FileSystemBookmarkRepositoryAdapterError) -> AppInitialisationCause {
        AppInitialisationCause::FileSystemRepository(error)
    }
}

impl From<FileSystemBookmarkRepositoryAdapterError> for AppInitialisationCause {
    fn from(error: FileSystemBookmarkRepositoryAdapterError) -> (cause: AppInitialisationCause) {
        AppInitialisationCause::FileSystemRepository(error)
    }
}

impl vstd::std_specs::convert::FromSpecImpl<TantivyBookmarkSearchEngineAdapterError> for AppInitialisationCause {
    open spec fn obeys_from_spec() -> bool {
        true
    }

    open spec fn from_spec(error: TantivyBookmarkSearchEngineAdapterError) -> AppInitialisationCause {
        AppInitialisationCause::SearchEngine(error)
    }
}

impl From<TantivyBookmarkSearchEngineAdapterError> for AppInitialisationCause {
    fn from(error: TantivyBookmarkSearchEngineAdapterError) -> (cause: AppInitialisationCause) {
        AppInitialisationCause::SearchEngine(error)
    }
}

impl AppInitialisationError {
    /// What kept the application from starting.
    pub closed spec fn cause(&self) -> AppInitialisationCause {
        self.cause
    }

    /// The text shown for the error.
    pub open spec fn message_text(&self) -> Seq<char> {
        "App failed to start: "@ + self.cause().message_text()
    }

    fn new(cause: AppInitialisationCause) -> (error: AppInitialisationError)
        ensures
            error.cause() == cause,
    {
        AppInitialisationError { cause }
    }

    /// What kept the application from starting.
    pub fn reason(&self) -> (cause: &AppInitialisationCause)
        ensures
            *cause == self.cause(),
    {
        &self.cause
    }

    /// The text shown for the error.
    pub fn message(&self) -> (text: String)
        ensures
            text@ == self.message_text(),
    {
        let mut text = String::from_str("App failed to start: ");
        let cause = self.cause.message();
        text.append(cause.as_str());
        text
    }
}

/// The error that reports a failure of one of the steps of the start.
fn map_initialisation_error_cause<C: Into<AppInitialisationCause>>(cause: C) -> (error:
    AppInitialisationError)
    ensures
        call_ensures(<C as Into<AppInitialisationCause>>::into, (cause,), error.cause()),
{
    AppInitialisationError::new(cause.into())
}

impl App {
    /// Where the catalog is stored.
    pub closed spec fn search_engine_config_path(&self) -> PathBuf {
        self.search_engine_config_path
    }

    /// The application for the catalog file at the path.
    pub fn new(search_engine_config_path: PathBuf) -> (app: App)
        ensures
            app.search_engine_config_path() == search_engine_config_path,
    {
        App { search_engine_config_path }
    }

    /// Where the catalog is stored.
    pub fn config_path(&self) -> (path: &PathBuf)
        ensures
            *path == self.search_engine_config_path(),
    {
        &self.search_engine_config_path
    }

    /// Builds the search engine from what was found in the catalog file:
    /// the repository is loaded, its bookmarks are indexed, and the engine
    /// that comes back holds both, the index built over exactly what the
    /// repository lists. The start fails, with the failure of the
    /// step as its cause, where the file could not be read, where its
    /// content does not meet the schema, where two bookmarks were given one
    /// identifier, where a bookmark is too large for the index, and where
    /// the index reports a fault.
    pub fn bookmark_search_engine(&self, content: StoreContent) -> (result: Result<
        TantivyBookmarkSearchEngineAdapter<FileSystemBookmarkRepositoryAdapter>,
        AppInitialisationError,
    >)
        ensures
            match result {
                Ok(engine) => {
                    &&& engine.in_step()
                    &&& engine.repository().store_file_path() == self.search_engine_config_path()
                    &&& content matches StoreContent::Records(records)
                    &&& all_valid(record_views(records@))
                    &&& loaded_from(engine.indexed(), record_views(records@))
                },
                Err(error) => match content {
                    StoreContent::Unreadable => error.cause()
                        == AppInitialisationCause::FileSystemRepository(
                        FileSystemBookmarkRepositoryAdapterError::ConfigError,
                    ),
                    StoreContent::Malformed => error.cause()
                        == AppInitialisationCause::FileSystemRepository(
                        FileSystemBookmarkRepositoryAdapterError::DeserializeError,
                    ),
                    StoreContent::Records(records) => if all_valid(record_views(records@)) {
                        ||| error.cause() == AppInitialisationCause::FileSystemRepository(
                            FileSystemBookmarkRepositoryAdapterError::IdentifierClash,
                        ) && records@.len() >= 2
                        ||| error.cause() matches AppInitialisationCause::SearchEngine(
                            TantivyBookmarkSearchEngineAdapterError::Tantivy(_),
                        )
                        ||| error.cause() == AppInitialisationCause::SearchEngine(
                            TantivyBookmarkSearchEngineAdapterError::DocumentTooLarge,
                        )
                    } else {
                        error.cause() == AppInitialisationCause::FileSystemRepository(
                            FileSystemBookmarkRepositoryAdapterError::DeserializeError,
                        )
                    },
                },
            },
    {
        let mut bookmark_repository = FileSystemBookmarkRepositoryAdapter::new(
            self.search_engine_config_path.clone(),
        );
        match bookmark_repository.initialise(content) {
            Ok(_) => {},
            Err(error) => {
                return Err(map_initialisation_error_cause(error));
            },
        }
        let bookmarks = match bookmark_repository.get_all() {
            Ok(bookmarks) => bookmarks,
            Err(error) => {
                return Err(map_initialisation_error_cause(error));
            },
        };
        let mut search_engine = TantivyBookmarkSearchEngineAdapter::new(bookmark_repository);
        match search_engine.initialise(bookmarks) {
            Ok(_) => {},
            Err(error) => {
                return Err(map_initialisation_error_cause(error));
            },
        }
        Ok(search_engine)
    }
}

} // verus!
