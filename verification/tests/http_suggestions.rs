use std::path::PathBuf;

use bookmarks::application::error::ApplicationServiceError;
use bookmarks::application::service::ApplicationServiceImpl;
use bookmarks::domain::bookmark_search_engine::BookmarkSearchEngineError;
use bookmarks::ports::http::reply::HttpReply;
use bookmarks::ports::http::suggestions::{
    bookmarks_suggestions, handler, reply_to_suggest, SuggestionResponse,
};
use bookmarks::ports::persistence::file_system_bookmark_repository_adapter::{
    FileSystemBookmarkRepositoryAdapter, StoreContent,
};
use bookmarks::ports::persistence::persistence_bookmark::PersistenceBookmark;
use bookmarks::ports::search::simple::simple_bookmark_search_engine_adapter::SimpleBookmarkSearchEngine;

fn suggestion_service(
    records: Vec<(&str, &str)>,
) -> ApplicationServiceImpl<SimpleBookmarkSearchEngine> {
    let mut repository = FileSystemBookmarkRepositoryAdapter::new(PathBuf::from("catalog.yaml"));
    repository
        .initialise(StoreContent::Records(
            records
                .into_iter()
                .map(|(url, name)| {
                    PersistenceBookmark::new(url.to_string(), name.to_string(), None, vec![])
                })
                .collect(),
        ))
        .unwrap();
    ApplicationServiceImpl::new(SimpleBookmarkSearchEngine::new(repository).unwrap())
}

#[test]
fn returns_open_search_compatible_response() {
    let suggestion_response =
        SuggestionResponse::new("query".to_string(), vec!["suggestion1".to_string()]);

    let serialized = suggestion_response.to_json().unwrap();

    assert_eq!(serialized, "[\"query\",[\"suggestion1\"]]".to_string());
}

#[test]
fn suggestions_for_rust_name_rustlang() {
    let service = suggestion_service(vec![("https://rustlang.org", "rustlang")]);

    let reply = bookmarks_suggestions(Some("rust".to_string()), &service);

    assert_eq!(
        reply,
        HttpReply {
            status: 200,
            location: None,
            content_type: Some("application/x-suggestions+json".to_string()),
            cache_control: Some("no-store".to_string()),
            body: "[\"rust\",[\"rustlang\"]]".to_string(),
        }
    );
}

#[test]
fn suggestions_without_a_match_are_an_empty_list() {
    let service = suggestion_service(vec![("https://rustlang.org", "rustlang")]);

    let reply = bookmarks_suggestions(Some("go".to_string()), &service);

    assert_eq!(reply.status, 200);
    assert_eq!(reply.body, "[\"go\",[]]");
}

#[test]
fn suggestions_come_in_catalog_order() {
    let service = suggestion_service(vec![
        ("https://github.com", "GitHub"),
        ("https://www.rust-lang.org", "Rust"),
        ("https://gitlab.com", "GitLab"),
    ]);

    let reply = bookmarks_suggestions(Some("git".to_string()), &service);

    assert_eq!(reply.body, "[\"git\",[\"GitHub\",\"GitLab\"]]");
}

#[test]
fn suggestions_escape_what_json_must_escape() {
    let response = SuggestionResponse::new(
        "say \"hi\"\\".to_string(),
        vec!["tab\there".to_string(), "line\nbreak".to_string(), "é".to_string()],
    );

    assert_eq!(
        response.to_json().unwrap(),
        "[\"say \\\"hi\\\"\\\\\",[\"tab\\there\",\"line\\nbreak\",\"é\"]]"
    );
}

#[test]
fn suggestions_without_the_parameter_are_a_bad_request() {
    let service = suggestion_service(vec![("https://rustlang.org", "rustlang")]);

    let before_caching = handler(None, &service);
    let reply = bookmarks_suggestions(None, &service);

    assert_eq!(
        before_caching,
        HttpReply {
            status: 400,
            location: None,
            content_type: None,
            cache_control: None,
            body: "No \"q\" param in query.".to_string(),
        }
    );
    assert_eq!(
        reply,
        HttpReply {
            status: 400,
            location: None,
            content_type: None,
            cache_control: Some("no-store".to_string()),
            body: "No \"q\" param in query.".to_string(),
        }
    );
}

#[test]
fn suggestions_handler_leaves_caching_to_the_caller() {
    let service = suggestion_service(vec![("https://rustlang.org", "rustlang")]);

    let reply = handler(Some("RUST".to_string()), &service);

    assert_eq!(reply.status, 200);
    assert_eq!(reply.cache_control, None);
    assert_eq!(reply.body, "[\"RUST\",[\"rustlang\"]]");
}

#[test]
fn suggestions_reply_for_each_kind_of_failure() {
    let invalid = reply_to_suggest(
        "t".to_string(),
        Err(ApplicationServiceError::Search(BookmarkSearchEngineError::InvalidQuery)),
    );
    let missing = reply_to_suggest(
        "t".to_string(),
        Err(ApplicationServiceError::Search(BookmarkSearchEngineError::BookmarkNotFound(3))),
    );
    let fault = reply_to_suggest(
        "t".to_string(),
        Err(ApplicationServiceError::Search(BookmarkSearchEngineError::Unexpected(
            "x".to_string(),
        ))),
    );

    assert_eq!(invalid.status, 400);
    assert_eq!(invalid.body, "Invalid query was made to search engine");
    assert_eq!(missing.status, 404);
    assert_eq!(
        missing.body,
        "Could not find Bookmark with id: 00000000-0000-0000-0000-000000000003"
    );
    assert_eq!(fault.status, 500);
    assert_eq!(fault.body, "Unexpected search engine error occurred: x");
    assert_eq!(fault.content_type, None);
}
