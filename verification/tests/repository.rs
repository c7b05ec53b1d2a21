use std::path::PathBuf;

use bookmarks::domain::bookmark::Bookmark;
use bookmarks::domain::bookmark_factory::{is_well_formed, BookmarkFactory, BookmarkFactoryImpl};
use bookmarks::domain::bookmark_repository::{BookmarkRepository, BookmarkRepositoryError};
use bookmarks::ports::persistence::catalog::Catalog;
use bookmarks::ports::persistence::file_system_bookmark_repository_adapter::{
    from_persistence_bookmark, from_persistence_bookmarks, FileSystemBookmarkRepositoryAdapter,
    FileSystemBookmarkRepositoryAdapterError, StoreContent,
};
use bookmarks::ports::persistence::memory_bookmark::MemoryBookmark;
use bookmarks::ports::persistence::persistence_bookmark::PersistenceBookmark;

fn stored_record(url: &str, name: &str) -> PersistenceBookmark {
    PersistenceBookmark::new(url.to_string(), name.to_string(), None, vec![])
}

fn stored_bookmark(id: u128, name: &str) -> MemoryBookmark {
    MemoryBookmark::new(id, "https://example.com".to_string(), name.to_string(), None, vec![])
}

fn fresh_repository() -> FileSystemBookmarkRepositoryAdapter {
    FileSystemBookmarkRepositoryAdapter::new(PathBuf::from("bookmarks.yaml"))
}

#[test]
fn repository_remembers_its_path() {
    let repository = fresh_repository();

    assert_eq!(repository.path(), &PathBuf::from("bookmarks.yaml"));
}

#[test]
fn repository_that_is_not_loaded_answers_unexpected() {
    let repository = fresh_repository();

    assert_eq!(
        repository.get_all().unwrap_err(),
        BookmarkRepositoryError::Unexpected("Repository has not been initialised".to_string())
    );
    assert_eq!(
        repository.get(1).unwrap_err(),
        BookmarkRepositoryError::Unexpected("Repository has not been initialised".to_string())
    );
}

#[test]
fn repository_reports_an_unreadable_store_as_config_error() {
    let mut repository = fresh_repository();

    let result = repository.initialise(StoreContent::Unreadable);

    assert_eq!(result, Err(FileSystemBookmarkRepositoryAdapterError::ConfigError));
    assert!(repository.get_all().is_err());
}

#[test]
fn repository_reports_malformed_content_as_deserialize_error() {
    let mut repository = fresh_repository();

    let result = repository.initialise(StoreContent::Malformed);

    assert_eq!(result, Err(FileSystemBookmarkRepositoryAdapterError::DeserializeError));
    assert!(repository.get_all().is_err());
}

#[test]
fn repository_refuses_a_record_with_an_empty_name() {
    let mut repository = fresh_repository();

    let result = repository.initialise(StoreContent::Records(vec![
        stored_record("https://a.example", "Alpha"),
        stored_record("https://b.example", ""),
    ]));

    assert_eq!(result, Err(FileSystemBookmarkRepositoryAdapterError::DeserializeError));
    assert!(repository.get_all().is_err());
}

#[test]
fn repository_refuses_a_record_whose_url_is_not_absolute() {
    for url in ["", "not a url", "/relative/path", "example.com/without-scheme", "//host/path"] {
        let mut repository = fresh_repository();

        let result =
            repository.initialise(StoreContent::Records(vec![stored_record(url, "Alpha")]));

        assert_eq!(result, Err(FileSystemBookmarkRepositoryAdapterError::DeserializeError));
    }
}

#[test]
fn repository_keeps_a_failed_load_from_replacing_the_catalog() {
    let mut repository = fresh_repository();
    repository
        .initialise(StoreContent::Records(vec![stored_record("https://a.example", "Alpha")]))
        .unwrap();

    let result = repository.initialise(StoreContent::Records(vec![stored_record("nonsense", "X")]));

    assert_eq!(result, Err(FileSystemBookmarkRepositoryAdapterError::DeserializeError));
    let all = repository.get_all().unwrap();
    assert_eq!(all.len(), 1);
    assert_eq!(all[0].name(), "Alpha");
}

#[test]
fn repository_lists_the_records_in_their_order() {
    let mut repository = fresh_repository();
    let names = ["Zulu", "Alpha", "Mike", "Bravo", "Yankee", "Charlie"];
    let records = names
        .iter()
        .map(|name| stored_record(&format!("https://{}.example", name), name))
        .collect();

    repository.initialise(StoreContent::Records(records)).unwrap();

    let all = repository.get_all().unwrap();
    let listed: Vec<&str> = all.iter().map(|bookmark| bookmark.name().as_str()).collect();
    assert_eq!(listed, names);
    let urls: Vec<&str> = all.iter().map(|bookmark| bookmark.url().as_str()).collect();
    assert_eq!(urls[0], "https://Zulu.example");
}

#[test]
fn repository_gives_every_bookmark_an_identifier_of_its_own() {
    let mut repository = fresh_repository();
    let records = (0..50)
        .map(|i| stored_record(&format!("https://example.com/{}", i), &format!("n{}", i)))
        .collect();

    repository.initialise(StoreContent::Records(records)).unwrap();

    let all = repository.get_all().unwrap();
    assert_eq!(all.len(), 50);
    for (i, one) in all.iter().enumerate() {
        for other in all.iter().skip(i + 1) {
            assert_ne!(one.id(), other.id());
        }
    }
}

#[test]
fn repository_finds_a_bookmark_by_its_identifier() {
    let mut repository = fresh_repository();
    repository
        .initialise(StoreContent::Records(vec![
            stored_record("https://a.example", "Alpha"),
            PersistenceBookmark::new(
                "https://b.example".to_string(),
                "Beta".to_string(),
                Some("second".to_string()),
                vec!["two".to_string(), "two".to_string()],
            ),
        ]))
        .unwrap();
    let all = repository.get_all().unwrap();

    let found = repository.get(all[1].id()).unwrap();

    assert_eq!(found.id(), all[1].id());
    assert_eq!(found.url(), "https://b.example");
    assert_eq!(found.name(), "Beta");
    assert_eq!(found.description(), Some(&"second".to_string()));
    assert_eq!(found.tags(), &vec!["two".to_string(), "two".to_string()]);
    assert_eq!(repository.get(all[0].id()).unwrap().name(), "Alpha");
}

#[test]
fn repository_reports_an_unknown_identifier_as_not_found() {
    let mut repository = fresh_repository();
    repository
        .initialise(StoreContent::Records(vec![stored_record("https://a.example", "Alpha")]))
        .unwrap();
    let held = repository.get_all().unwrap()[0].id();
    let unknown = held.wrapping_add(1);

    assert_eq!(
        repository.get(unknown).unwrap_err(),
        BookmarkRepositoryError::BookmarkNotFound(unknown)
    );
}

#[test]
fn repository_loads_an_empty_catalog() {
    let mut repository = fresh_repository();

    repository.initialise(StoreContent::Records(vec![])).unwrap();

    assert!(repository.get_all().unwrap().is_empty());
    assert_eq!(repository.get(5).unwrap_err(), BookmarkRepositoryError::BookmarkNotFound(5));
}

#[test]
fn catalog_refuses_two_bookmarks_under_one_identifier() {
    let collected = Catalog::collect(vec![
        stored_bookmark(1, "one"),
        stored_bookmark(2, "two"),
        stored_bookmark(1, "one again"),
    ]);

    assert!(collected.is_none());
}

#[test]
fn catalog_keeps_order_and_finds_by_identifier() {
    let catalog = Catalog::collect(vec![
        stored_bookmark(30, "thirty"),
        stored_bookmark(10, "ten"),
        stored_bookmark(20, "twenty"),
    ])
    .unwrap();

    assert_eq!(catalog.len(), 3);
    assert_eq!(catalog.at(0).name(), "thirty");
    assert_eq!(catalog.at(1).name(), "ten");
    assert_eq!(catalog.at(2).name(), "twenty");
    assert_eq!(catalog.find(10).unwrap().name(), "ten");
    assert_eq!(catalog.find(20).unwrap().id(), 20);
    assert!(catalog.find(40).is_none());
}

#[test]
fn record_becomes_a_bookmark_with_the_same_content() {
    let record = PersistenceBookmark::new(
        "https://b.example".to_string(),
        "Beta".to_string(),
        Some("second".to_string()),
        vec!["two".to_string()],
    );

    let stored = from_persistence_bookmark(&record).unwrap();
    let bookmark = Bookmark::from(&stored);

    assert_eq!(stored.url(), record.url());
    assert_eq!(stored.name(), record.name());
    assert_eq!(stored.description(), record.description());
    assert_eq!(stored.tags(), record.tags());
    assert_eq!(bookmark.id(), stored.id());
    assert_eq!(bookmark.url(), "https://b.example");
    assert_eq!(bookmark.name(), "Beta");
    assert_eq!(bookmark.description(), Some(&"second".to_string()));
    assert_eq!(bookmark.tags(), &vec!["two".to_string()]);
}

#[test]
fn record_that_breaks_the_schema_becomes_nothing() {
    assert!(from_persistence_bookmark(&stored_record("https://a.example", "")).is_none());
    assert!(from_persistence_bookmark(&stored_record("a.example", "Alpha")).is_none());
    assert!(!stored_record("a.example", "Alpha").is_valid());
    assert!(stored_record("https://a.example", "Alpha").is_valid());
    assert!(from_persistence_bookmarks(&vec![
        stored_record("https://a.example", "Alpha"),
        stored_record("a.example", "Alpha"),
    ])
    .is_none());
    assert_eq!(
        from_persistence_bookmarks(&vec![
            stored_record("https://a.example", "Alpha"),
            stored_record("https://b.example", "Beta"),
        ])
        .unwrap()
        .len(),
        2
    );
}

#[test]
fn url_validity_follows_the_url_parser() {
    let name = "n".to_string();
    assert!(is_well_formed(&"https://github.com".to_string(), &name));
    assert!(is_well_formed(&"http://localhost:8080/path?x=1#top".to_string(), &name));
    assert!(is_well_formed(&"mailto:someone@example.com".to_string(), &name));
    assert!(!is_well_formed(&"github.com".to_string(), &name));
    assert!(!is_well_formed(&"https://".to_string(), &name));
    assert!(!is_well_formed(&"https://github.com".to_string(), &String::new()));
}

#[test]
fn factory_makes_well_formed_bookmarks_only() {
    let factory = BookmarkFactoryImpl::new();

    let made = factory
        .create(
            "https://a.example".to_string(),
            "Alpha".to_string(),
            Some("first".to_string()),
            vec!["one".to_string()],
        )
        .unwrap();
    let other = factory
        .create("https://a.example".to_string(), "Alpha".to_string(), None, vec![])
        .unwrap();

    assert_eq!(made.url(), "https://a.example");
    assert_eq!(made.name(), "Alpha");
    assert_eq!(made.description(), Some(&"first".to_string()));
    assert_eq!(made.tags(), &vec!["one".to_string()]);
    assert_ne!(made.id(), other.id());
    assert!(factory.create("a.example".to_string(), "Alpha".to_string(), None, vec![]).is_none());
    assert!(factory.create("https://a.example".to_string(), String::new(), None, vec![]).is_none());
}

#[test]
fn bookmark_copy_is_equal_in_every_field() {
    let bookmark = Bookmark::new(
        9,
        "https://a.example".to_string(),
        "Alpha".to_string(),
        None,
        vec!["one".to_string(), "two".to_string()],
    );

    let copy = bookmark.clone();

    assert_eq!(copy.id(), 9);
    assert_eq!(copy.url(), bookmark.url());
    assert_eq!(copy.name(), bookmark.name());
    assert_eq!(copy.description(), None);
    assert_eq!(copy.tags(), bookmark.tags());
}

#[test]
fn repository_error_messages() {
    assert_eq!(
        BookmarkRepositoryError::BookmarkNotFound(42).message(),
        "Could not find Bookmark with id: 00000000-0000-0000-0000-00000000002a"
    );
    assert_eq!(
        BookmarkRepositoryError::BookmarkNotFound(0x0123456789abcdef_fedcba9876543210).message(),
        "Could not find Bookmark with id: 01234567-89ab-cdef-fedc-ba9876543210"
    );
    assert_eq!(
        BookmarkRepositoryError::Unexpected("disk on fire".to_string()).message(),
        "Unexpected persistence error occurred: disk on fire"
    );
    assert_eq!(
        FileSystemBookmarkRepositoryAdapterError::DeserializeError.message(),
        "Could not deserialize Bookmark"
    );
    assert_eq!(
        FileSystemBookmarkRepositoryAdapterError::ConfigError.message(),
        "Error with repository configuration"
    );
    assert_eq!(
        FileSystemBookmarkRepositoryAdapterError::NotInitialised.message(),
        "Repository has not been initialised"
    );
    assert_eq!(
        FileSystemBookmarkRepositoryAdapterError::IdentifierClash.message(),
        "Two bookmarks were given the same identifier"
    );
    assert_eq!(
        BookmarkRepositoryError::from(FileSystemBookmarkRepositoryAdapterError::ConfigError),
        BookmarkRepositoryError::Unexpected("Error with repository configuration".to_string())
    );
}
