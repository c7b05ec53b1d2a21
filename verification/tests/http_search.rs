use std::path::PathBuf;

use bookmarks::application::error::ApplicationServiceError;
use bookmarks::application::service::{ApplicationService, ApplicationServiceImpl};
use bookmarks::domain::bookmark_search_engine::BookmarkSearchEngineError;
use bookmarks::ports::http::disable_caching::disable_caching;
use bookmarks::ports::http::reply::HttpReply;
use bookmarks::ports::http::search::{handler, join, reply_to_missing_query, reply_to_search};
use bookmarks::ports::http::search_error_handling::handle_search_error;
use bookmarks::ports::persistence::file_system_bookmark_repository_adapter::{
    FileSystemBookmarkRepositoryAdapter, StoreContent,
};
use bookmarks::ports::persistence::persistence_bookmark::PersistenceBookmark;
use bookmarks::ports::search::simple::simple_bookmark_search_engine_adapter::SimpleBookmarkSearchEngine;

fn search_service(
    records: Vec<(&str, &str)>,
) -> ApplicationServiceImpl<SimpleBookmarkSearchEngine> {
    let mut repository = FileSystemBookmarkRepositoryAdapter::new(PathBuf::from("catalog.yaml"));
    repository
        .initialise(StoreContent::Records(
            records
                .into_iter()
                .map(|(url, name)| {
                    PersistenceBookmark::new(url.to_string(), name.to_string(), None, vec![])
                })
                .collect(),
        ))
        .unwrap();
    ApplicationServiceImpl::new(SimpleBookmarkSearchEngine::new(repository).unwrap())
}

fn plain_reply(status: u16, body: &str) -> HttpReply {
    HttpReply {
        status,
        location: None,
        content_type: None,
        cache_control: Some("no-store".to_string()),
        body: body.to_string(),
    }
}

#[test]
fn search_with_one_match_redirects_to_its_url() {
    let service = search_service(vec![
        ("https://www.rust-lang.org", "Rust"),
        ("https://github.com", "GitHub"),
    ]);

    let reply = handler(Some("rust".to_string()), &service);

    assert_eq!(reply.status, 301);
    assert_eq!(reply.location, Some("https://www.rust-lang.org".to_string()));
    assert_eq!(reply.body, "");
    assert_eq!(reply.cache_control, Some("no-store".to_string()));
    assert_eq!(reply.content_type, None);
}

#[test]
fn search_with_two_matches_lists_their_urls() {
    let service = search_service(vec![("https://a", "a one"), ("https://b", "a two")]);

    let reply = handler(Some("a".to_string()), &service);

    assert_eq!(reply, plain_reply(200, "https://a, https://b"));
}

#[test]
fn search_without_a_match_answers_an_empty_body() {
    let service = search_service(vec![("https://a", "a one"), ("https://b", "a two")]);

    let reply = handler(Some("zzz".to_string()), &service);

    assert_eq!(reply, plain_reply(200, ""));
}

#[test]
fn search_without_the_parameter_is_a_bad_request() {
    let service = search_service(vec![("https://a", "a one")]);

    let reply = handler(None, &service);

    assert_eq!(reply, plain_reply(400, "No \"q\" param in query."));
    assert_eq!(reply_to_missing_query(), reply);
}

#[test]
fn search_for_the_empty_term_lists_everything() {
    let service = search_service(vec![
        ("https://a", "one"),
        ("https://b", "two"),
        ("https://c", "three"),
    ]);

    let reply = handler(Some(String::new()), &service);

    assert_eq!(reply, plain_reply(200, "https://a, https://b, https://c"));
}

#[test]
fn search_reply_for_each_answer() {
    assert_eq!(reply_to_search(Ok(vec![])), plain_reply(200, ""));
    assert_eq!(
        reply_to_search(Ok(vec!["https://only".to_string()])),
        HttpReply {
            status: 301,
            location: Some("https://only".to_string()),
            content_type: None,
            cache_control: Some("no-store".to_string()),
            body: String::new(),
        }
    );
    assert_eq!(
        reply_to_search(Ok(vec![
            "https://x".to_string(),
            "https://y".to_string(),
            "https://z".to_string()
        ])),
        plain_reply(200, "https://x, https://y, https://z")
    );
}

#[test]
fn search_reply_for_each_kind_of_failure() {
    assert_eq!(
        reply_to_search(Err(ApplicationServiceError::Search(
            BookmarkSearchEngineError::InvalidQuery
        ))),
        plain_reply(400, "Invalid query was made to search engine")
    );
    assert_eq!(
        reply_to_search(Err(ApplicationServiceError::Search(
            BookmarkSearchEngineError::BookmarkNotFound(255)
        ))),
        plain_reply(404, "Could not find Bookmark with id: 00000000-0000-0000-0000-0000000000ff")
    );
    assert_eq!(
        reply_to_search(Err(ApplicationServiceError::Search(
            BookmarkSearchEngineError::Unexpected("index is gone".to_string())
        ))),
        plain_reply(500, "Unexpected search engine error occurred: index is gone")
    );
}

#[test]
fn search_error_reply_carries_status_and_message() {
    let invalid = ApplicationServiceError::Search(BookmarkSearchEngineError::InvalidQuery);
    let missing = ApplicationServiceError::Search(BookmarkSearchEngineError::BookmarkNotFound(1));
    let fault =
        ApplicationServiceError::Search(BookmarkSearchEngineError::Unexpected("x".to_string()));

    assert_eq!(handle_search_error(&invalid).status, 400);
    assert_eq!(handle_search_error(&missing).status, 404);
    assert_eq!(handle_search_error(&fault).status, 500);
    assert_eq!(handle_search_error(&invalid).body, invalid.message());
    assert_eq!(handle_search_error(&missing).body, missing.message());
    assert_eq!(handle_search_error(&fault).body, fault.message());
    assert_eq!(handle_search_error(&fault).cache_control, Some("no-store".to_string()));
    assert_eq!(
        ApplicationServiceError::from(BookmarkSearchEngineError::InvalidQuery),
        invalid
    );
}

#[test]
fn join_puts_the_separator_between_texts() {
    assert_eq!(join(&vec![], ", "), "");
    assert_eq!(join(&vec!["a".to_string()], ", "), "a");
    assert_eq!(join(&vec!["a".to_string(), "b".to_string()], ", "), "a, b");
    assert_eq!(
        join(&vec!["a".to_string(), String::new(), "c".to_string()], "-"),
        "a--c"
    );
    assert_eq!(join(&vec![String::new(), String::new()], ", "), ", ");
}

#[test]
fn disable_caching_sets_the_header_and_nothing_else() {
    let reply = HttpReply {
        status: 200,
        location: Some("https://a".to_string()),
        content_type: Some("text/plain".to_string()),
        cache_control: Some("max-age=60".to_string()),
        body: "kept".to_string(),
    };

    let uncached = disable_caching(reply);

    assert_eq!(
        uncached,
        HttpReply {
            status: 200,
            location: Some("https://a".to_string()),
            content_type: Some("text/plain".to_string()),
            cache_control: Some("no-store".to_string()),
            body: "kept".to_string(),
        }
    );
}

#[test]
fn service_search_and_suggest_show_the_same_matches() {
    let service = search_service(vec![
        ("https://github.com", "GitHub"),
        ("https://www.rust-lang.org", "Rust"),
        ("https://gitlab.com", "GitLab"),
    ]);

    let urls = service.search("GIT".to_string()).unwrap();
    let names = service.suggest("GIT".to_string()).unwrap();

    assert_eq!(urls, vec!["https://github.com", "https://gitlab.com"]);
    assert_eq!(names, vec!["GitHub", "GitLab"]);
}
