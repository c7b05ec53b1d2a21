use std::path::PathBuf;
use vstd::prelude::*;
use vstd::string::*;

use crate::domain::bookmark::{
    copy_optional_text, copy_texts, distinct_ids, views, Bookmark, BookmarkView,
};
use crate::domain::bookmark_repository::{
    lookup_in, BookmarkRepository, BookmarkRepositoryError, RepositoryFailure,
};
use crate::ports::persistence::catalog::{stored_views, Catalog};
use crate::ports::persistence::memory_bookmark::MemoryBookmark;
use crate::ports::persistence::persistence_bookmark::{PersistenceBookmark, RecordView};
use crate::trusted::ids::random_id;

verus! {

/// What was found where the catalog is stored.
pub enum StoreContent {
    /// The store could not be read.
    Unreadable,
    /// The store was read, but it is no list of records.
    Malformed,
    /// The records of the store, in their order.
    Records(Vec<PersistenceBookmark>),
}

/// Why the repository could not be loaded or asked.
#[derive(Debug, PartialEq, Eq)]
pub enum FileSystemBookmarkRepositoryAdapterError {
    /// The content of the store does not meet the schema of the catalog.
    DeserializeError,
    /// The store could not be read.
    ConfigError,
    /// The repository was asked before it was loaded.
    NotInitialised,
    /// Two bookmarks of one catalog were given the same identifier.
    IdentifierClash,
}

impl FileSystemBookmarkRepositoryAdapterError {
    /// The text shown for the failure.
    pub open spec fn message_text(self) -> Seq<char> {
        match self {
            FileSystemBookmarkRepositoryAdapterError::DeserializeError =>
                "Could not deserialize Bookmark"@,
            FileSystemBookmarkRepositoryAdapterError::ConfigError =>
                "Error with repository configuration"@,
            FileSystemBookmarkRepositoryAdapterError::NotInitialised =>
                "Repository has not been initialised"@,
            FileSystemBookmarkRepositoryAdapterError::IdentifierClash =>
                "Two bookmarks were given the same identifier"@,
        }
    }

    /// The text shown for the failure.
    pub fn message(&self) -> (text: String)
        ensures
            text@ == self.message_text(),
    {
        match self {
            FileSystemBookmarkRepositoryAdapterError::DeserializeError => String::from_str(
                "Could not deserialize Bookmark",
            ),
            FileSystemBookmarkRepositoryAdapterError::ConfigError => String::from_str(
                "Error with repository configuration",
            ),
            FileSystemBookmarkRepositoryAdapterError::NotInitialised => String::from_str(
                "Repository has not been initialised",
            ),
            FileSystemBookmarkRepositoryAdapterError::IdentifierClash => String::from_str(
                "Two bookmarks were given the same identifier",
            ),
        }
    }
}

impl vstd::std_specs::convert::FromSpecImpl<FileSystemBookmarkRepositoryAdapterError> for BookmarkRepositoryError {
    /// The conversion builds the description anew, so its result is fixed by
    /// its view only.
    open spec fn obeys_from_spec() -> bool {
        false
    }

    open spec fn from_spec(error: FileSystemBookmarkRepositoryAdapterError) -> BookmarkRepositoryError {
        choose|converted: BookmarkRepositoryError|
            converted@ == RepositoryFailure::Unexpected(error.message_text())
    }
}

impl From<FileSystemBookmarkRepositoryAdapterError> for BookmarkRepositoryError {
    /// Every fault of the adapter is an unexpected one to the domain, under
    /// the adapter's own description of it.
    fn from(error: FileSystemBookmarkRepositoryAdapterError) -> (converted: BookmarkRepositoryError)
        ensures
            converted@ == RepositoryFailure::Unexpected(error.message_text()),
    {
        match error {
            FileSystemBookmarkRepositoryAdapterError::DeserializeError
            | FileSystemBookmarkRepositoryAdapterError::NotInitialised
            | FileSystemBookmarkRepositoryAdapterError::ConfigError
            | FileSystemBookmarkRepositoryAdapterError::IdentifierClash => {
                BookmarkRepositoryError::Unexpected(error.message())
            },
        }
    }
}

/// The bookmark carries the content of the record.
pub open spec fn carries(bookmark: BookmarkView, record: RecordView) -> bool {
    &&& bookmark.url == record.url
    &&& bookmark.name == record.name
    &&& bookmark.description == record.description
    &&& bookmark.tags == record.tags
}

/// The views of a list of records, in the same order.
pub open spec fn record_views(records: Seq<PersistenceBookmark>) -> Seq<RecordView> {
    records.map_values(|record: PersistenceBookmark| record@)
}

/// Every record meets the schema of the catalog.
pub open spec fn all_valid(records: Seq<RecordView>) -> bool {
    forall|i: int| 0 <= i < records.len() ==> (#[trigger] records[i]).valid()
}

/// The catalog holds one bookmark for each record, in the order of the
/// records.
pub open spec fn loaded_from(catalog: Seq<BookmarkView>, records: Seq<RecordView>) -> bool {
    &&& catalog.len() == records.len()
    &&& forall|i: int| 0 <= i < catalog.len() ==> carries(#[trigger] catalog[i], records[i])
}

/// The bookmark for a record that meets the schema, under a fresh
/// identifier; `None` for a record that does not meet it.
pub fn from_persistence_bookmark(bookmark: &PersistenceBookmark) -> (stored: Option<MemoryBookmark>)
    ensures
        stored is Some <==> bookmark@.valid(),
        stored matches Some(stored) ==> carries(stored@, bookmark@),
{
    if bookmark.is_valid() {
        Some(
            MemoryBookmark::new(
                random_id(),
                bookmark.url().clone(),
                bookmark.name().clone(),
                copy_optional_text(bookmark.description()),
                copy_texts(bookmark.tags()),
            ),
        )
    } else {
        None
    }
}

/// The bookmarks for a list of records, in the same order; `None` when a
/// record does not meet the schema.
pub fn from_persistence_bookmarks(records: &Vec<PersistenceBookmark>) -> (stored: Option<
    Vec<MemoryBookmark>,
>)
    ensures
        stored is Some <==> all_valid(record_views(records@)),
        stored matches Some(list) ==> loaded_from(stored_views(list@), record_views(records@)),
{
    let mut list: Vec<MemoryBookmark> = Vec::new();
    let mut i: usize = 0;
    while i < records.len()
        invariant
            i <= records.len(),
            list.len() == i,
            forall|j: int| 0 <= j < i ==> (#[trigger] records@[j])@.valid(),
            forall|j: int| 0 <= j < i ==> carries((#[trigger] list@[j])@, records@[j]@),
        decreases records.len() - i,
    {
        match from_persistence_bookmark(&records[i]) {
            Some(bookmark) => {
                list.push(bookmark);
            },
            None => {
                assert(!record_views(records@)[i as int].valid());
                return None;
            },
        }
        i += 1;
    }
    proof {
        let views = record_views(records@);
        assert forall|j: int| 0 <= j < views.len() implies (#[trigger] views[j]).valid() by {
            assert(records@[j]@.valid());
        }
        let catalog = stored_views(list@);
        assert forall|j: int| 0 <= j < catalog.len() implies carries(
            #[trigger] catalog[j],
            views[j],
        ) by {
            assert(carries(list@[j]@, records@[j]@));
        }
    }
    Some(list)
}

/// The repository over one catalog file. It holds nothing until the content
/// of the file is handed to `initialise`, and one immutable catalog after.
pub struct FileSystemBookmarkRepositoryAdapter {
    store_file_path: PathBuf,
    inner: Option<Catalog>,
}

impl FileSystemBookmarkRepositoryAdapter {
    /// A repository for the file at the path, not loaded yet.
    pub fn new(store_file_path: PathBuf) -> (repository: FileSystemBookmarkRepositoryAdapter)
        ensures
            repository.store_file_path() == store_file_path,
            repository.catalog() is None,
    {
        FileSystemBookmarkRepositoryAdapter { store_file_path, inner: None }
    }

    /// Where the catalog is stored.
    pub closed spec fn store_file_path(&self) -> PathBuf {
        self.store_file_path
    }

    /// The catalog that was loaded, if one was.
    pub closed spec fn catalog(&self) -> Option<Seq<BookmarkView>> {
        match self.inner {
            Some(catalog) => if catalog.sound() {
                Some(catalog@)
            } else {
                None
            },
            None => None,
        }
    }

    /// A loaded catalog holds no identifier twice.
    pub proof fn catalog_is_distinct(&self)
        ensures
            self.catalog() matches Some(catalog) ==> distinct_ids(catalog),
    {
        if let Some(catalog) = self.inner {
            if catalog.sound() {
                catalog.sound_means_distinct();
            }
        }
    }

    /// Where the catalog is stored.
    pub fn path(&self) -> (path: &PathBuf)
        ensures
            *path == self.store_file_path(),
    {
        &self.store_file_path
    }

    fn inner(&self) -> (inner: Result<&Catalog, FileSystemBookmarkRepositoryAdapterError>)
        ensures
            match inner {
                Ok(catalog) => self.catalog() == Some(catalog@),
                Err(error) => self.catalog() is None
                    && error == FileSystemBookmarkRepositoryAdapterError::NotInitialised,
            },
    {
        match &self.inner {
            Some(catalog) => {
                proof {
                    use_type_invariant(catalog);
                }
                Ok(catalog)
            },
            None => Err(FileSystemBookmarkRepositoryAdapterError::NotInitialised),
        }
    }

    /// Loads the catalog from what was found in the store. An unreadable
    /// store is a `ConfigError`; content that is no list of records, or that
    /// holds a record with an empty name or a URL that is not absolute, is a
    /// `DeserializeError`. Each record becomes one bookmark under a fresh
    /// identifier; should two identifiers coincide, nothing is loaded. After
    /// a failure the repository is as it was.
    pub fn initialise(&mut self, content: StoreContent) -> (result: Result<
        (),
        FileSystemBookmarkRepositoryAdapterError,
    >)
        ensures
            final(self).store_file_path() == old(self).store_file_path(),
            result is Err ==> final(self).catalog() == old(self).catalog(),
            match content {
                StoreContent::Unreadable => result == Err::<
                    (),
                    FileSystemBookmarkRepositoryAdapterError,
                >(FileSystemBookmarkRepositoryAdapterError::ConfigError),
                StoreContent::Malformed => result == Err::<
                    (),
                    FileSystemBookmarkRepositoryAdapterError,
                >(FileSystemBookmarkRepositoryAdapterError::DeserializeError),
                StoreContent::Records(records) => match result {
                    Ok(_) => all_valid(record_views(records@)) && final(self).catalog() is Some
                        && loaded_from(final(self).catalog()->0, record_views(records@)),
                    Err(error) => if all_valid(record_views(records@)) {
                        error == FileSystemBookmarkRepositoryAdapterError::IdentifierClash
                            && records@.len() >= 2
                    } else {
                        error == FileSystemBookmarkRepositoryAdapterError::DeserializeError
                    },
                },
            },
    {
        let records = match content {
            StoreContent::Unreadable => {
                return Err(FileSystemBookmarkRepositoryAdapterError::ConfigError);
            },
            StoreContent::Malformed => {
                return Err(FileSystemBookmarkRepositoryAdapterError::DeserializeError);
            },
            StoreContent::Records(records) => records,
        };
        let bookmarks = match from_persistence_bookmarks(&records) {
            Some(bookmarks) => bookmarks,
            None => {
                return Err(FileSystemBookmarkRepositoryAdapterError::DeserializeError);
            },
        };
        match Catalog::collect(bookmarks) {
            Some(catalog) => {
                self.inner = Some(catalog);
                Ok(())
            },
            None => Err(FileSystemBookmarkRepositoryAdapterError::IdentifierClash),
        }
    }
}

impl BookmarkRepository for FileSystemBookmarkRepositoryAdapter {
    open spec fn listing(&self) -> Result<Seq<BookmarkView>, RepositoryFailure> {
        match self.catalog() {
            Some(catalog) => Ok(catalog),
            None => Err(
                RepositoryFailure::Unexpected(
                    FileSystemBookmarkRepositoryAdapterError::NotInitialised.message_text(),
                ),
            ),
        }
    }

    open spec fn lookup(&self, id: u128) -> Result<BookmarkView, RepositoryFailure> {
        match self.catalog() {
            Some(catalog) => lookup_in(catalog, id),
            None => Err(
                RepositoryFailure::Unexpected(
                    FileSystemBookmarkRepositoryAdapterError::NotInitialised.message_text(),
                ),
            ),
        }
    }

    proof fn lookup_agrees_with_listing(&self, id: u128) {
        self.catalog_is_distinct();
    }

    fn get_all(&self) -> (result: Result<Vec<Bookmark>, BookmarkRepositoryError>) {
        let catalog = match self.inner() {
            Ok(catalog) => catalog,
            Err(error) => {
                return Err(BookmarkRepositoryError::from(error));
            },
        };
        let mut list: Vec<Bookmark> = Vec::new();
        let mut i: usize = 0;
        while i < catalog.len()
            invariant
                i <= catalog@.len(),
                list.len() == i,
                forall|j: int| 0 <= j < i ==> (#[trigger] list@[j])@ == catalog@[j],
            decreases catalog@.len() - i,
        {
            list.push(catalog.at(i));
            i += 1;
        }
        assert(views(list@) =~= catalog@);
        Ok(list)
    }

    fn get(&self, id: u128) -> (result: Result<Bookmark, BookmarkRepositoryError>) {
        let catalog = match self.inner() {
            Ok(catalog) => catalog,
            Err(error) => {
                return Err(BookmarkRepositoryError::from(error));
            },
        };
        match catalog.find(id) {
            Some(bookmark) => Ok(bookmark),
            None => Err(BookmarkRepositoryError::BookmarkNotFound(id)),
        }
    }
}

} // verus!
