use std::path::PathBuf;

use bookmarks::application::service::{ApplicationService, ApplicationServiceImpl};
use bookmarks::domain::bookmark_repository::{BookmarkRepository, BookmarkRepositoryError};
use bookmarks::domain::bookmark_search_engine::BookmarkSearchEngine;
use bookmarks::ports::http::search::handler;
use bookmarks::ports::http::suggestions::bookmarks_suggestions;
use bookmarks::ports::persistence::file_system_bookmark_repository_adapter::{
    FileSystemBookmarkRepositoryAdapterError, StoreContent,
};
use bookmarks::ports::persistence::persistence_bookmark::PersistenceBookmark;
use bookmarks::ports::search::indexed::error::TantivyBookmarkSearchEngineAdapterError;
use bookmarks::{App, AppInitialisationCause};

fn startup_record(url: &str, name: &str, tags: &[&str]) -> PersistenceBookmark {
    PersistenceBookmark::new(
        url.to_string(),
        name.to_string(),
        None,
        tags.iter().map(|tag| tag.to_string()).collect(),
    )
}

#[test]
fn app_remembers_where_the_catalog_is() {
    let app = App::new(PathBuf::from("/etc/bookmarks/catalog.yaml"));

    assert_eq!(app.config_path(), &PathBuf::from("/etc/bookmarks/catalog.yaml"));
}

#[test]
fn app_builds_an_engine_that_answers() {
    let app = App::new(PathBuf::from("catalog.yaml"));

    let engine = app
        .bookmark_search_engine(StoreContent::Records(vec![
            startup_record("https://github.com", "GitHub", &["code"]),
            startup_record("https://www.rust-lang.org", "Rust", &["language", "code"]),
        ]))
        .unwrap();

    let code = engine.search("code".to_string()).unwrap();
    let language = engine.search("LANGUAGE".to_string()).unwrap();
    assert_eq!(code.len(), 2);
    assert_eq!(language.len(), 1);
    assert_eq!(language[0].url(), "https://www.rust-lang.org");
    let service = ApplicationServiceImpl::new(engine);
    assert_eq!(service.search("github".to_string()).unwrap(), vec!["https://github.com"]);
    assert_eq!(service.suggest("github".to_string()).unwrap(), vec!["GitHub"]);
}

#[test]
fn app_hands_its_path_and_the_catalog_to_the_repository_of_the_engine() {
    let app = App::new(PathBuf::from("/srv/catalog.yaml"));

    let engine = app
        .bookmark_search_engine(StoreContent::Records(vec![
            startup_record("https://github.com", "GitHub", &["code"]),
            startup_record("https://www.rust-lang.org", "Rust", &[]),
        ]))
        .unwrap();

    assert!(engine.is_built());
    assert_eq!(engine.bookmark_repository().path(), &PathBuf::from("/srv/catalog.yaml"));
    let listed = engine.bookmark_repository().get_all().unwrap();
    assert_eq!(listed.len(), 2);
    assert_eq!(listed[0].name(), "GitHub");
    assert_eq!(listed[1].name(), "Rust");
}

#[test]
fn app_built_engine_never_answers_not_found() {
    let app = App::new(PathBuf::from("catalog.yaml"));
    let records = (0..25)
        .map(|i| {
            startup_record(
                &format!("https://example.com/{}", i),
                &format!("Page {}", i),
                &["common", if i % 2 == 0 { "even" } else { "odd" }],
            )
        })
        .collect();
    let service =
        ApplicationServiceImpl::new(app.bookmark_search_engine(StoreContent::Records(records)).unwrap());

    for term in ["common", "even", "odd", "page", "7", "even OR odd", "\"page 3\"", "", "none", "(", "x:y"] {
        let reply = handler(Some(term.to_string()), &service);
        let suggested = bookmarks_suggestions(Some(term.to_string()), &service);
        assert_ne!(reply.status, 404);
        assert_ne!(suggested.status, 404);
        assert!(reply.status == 200 || reply.status == 301 || reply.status == 400);
        assert_eq!(reply.status == 400, suggested.status == 400);
    }
}

#[test]
fn app_builds_an_engine_over_an_empty_catalog() {
    let app = App::new(PathBuf::from("catalog.yaml"));

    let engine = app.bookmark_search_engine(StoreContent::Records(vec![])).unwrap();

    assert!(engine.search("anything".to_string()).unwrap().is_empty());
    assert!(engine.search(String::new()).unwrap().is_empty());
}

#[test]
fn app_does_not_start_without_a_readable_catalog() {
    let app = App::new(PathBuf::from("catalog.yaml"));

    let error = app.bookmark_search_engine(StoreContent::Unreadable).err().unwrap();

    assert_eq!(
        error.reason(),
        &AppInitialisationCause::FileSystemRepository(
            FileSystemBookmarkRepositoryAdapterError::ConfigError
        )
    );
    assert_eq!(error.message(), "App failed to start: Error with repository configuration");
}

#[test]
fn app_does_not_start_on_malformed_content() {
    let app = App::new(PathBuf::from("catalog.yaml"));

    let error = app.bookmark_search_engine(StoreContent::Malformed).err().unwrap();

    assert_eq!(
        error.reason(),
        &AppInitialisationCause::FileSystemRepository(
            FileSystemBookmarkRepositoryAdapterError::DeserializeError
        )
    );
    assert_eq!(error.message(), "App failed to start: Could not deserialize Bookmark");
}

#[test]
fn app_does_not_start_on_a_record_that_breaks_the_schema() {
    let app = App::new(PathBuf::from("catalog.yaml"));

    let no_name = app
        .bookmark_search_engine(StoreContent::Records(vec![
            startup_record("https://github.com", "GitHub", &[]),
            startup_record("https://www.rust-lang.org", "", &[]),
        ]))
        .err()
        .unwrap();
    let no_url = app
        .bookmark_search_engine(StoreContent::Records(vec![startup_record(
            "www.rust-lang.org",
            "Rust",
            &[],
        )]))
        .err()
        .unwrap();

    assert_eq!(
        no_name.reason(),
        &AppInitialisationCause::FileSystemRepository(
            FileSystemBookmarkRepositoryAdapterError::DeserializeError
        )
    );
    assert_eq!(no_url.reason(), no_name.reason());
}

#[test]
fn app_start_causes_wrap_the_failure_of_each_step() {
    let repository =
        AppInitialisationCause::from(BookmarkRepositoryError::Unexpected("x".to_string()));
    let file_system =
        AppInitialisationCause::from(FileSystemBookmarkRepositoryAdapterError::IdentifierClash);
    let engine =
        AppInitialisationCause::from(TantivyBookmarkSearchEngineAdapterError::Tantivy("t".to_string()));

    assert_eq!(
        repository,
        AppInitialisationCause::Repository(BookmarkRepositoryError::Unexpected("x".to_string()))
    );
    assert_eq!(repository.message(), "Unexpected persistence error occurred: x");
    assert_eq!(file_system.message(), "Two bookmarks were given the same identifier");
    assert_eq!(engine.message(), "t");
}
