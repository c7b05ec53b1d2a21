//! What holds of the two endpoints when the indexed engine answers them.

use vstd::prelude::*;

use crate::application::service::{names_of, urls_of};
use crate::domain::bookmark::BookmarkView;
use crate::domain::bookmark_repository::BookmarkRepository;
use crate::domain::bookmark_search_engine::{BookmarkSearchEngine, SearchFailure};
use crate::ports::http::reply::{BAD_REQUEST, NOT_FOUND};
use crate::ports::http::search::search_reply;
use crate::ports::http::suggestions::suggestions_reply;
use crate::ports::search::indexed::document::{bookmark_fields, default_search_fields};
use crate::ports::search::indexed::tantivy_bookmark_search_engine_adapter::{
    in_step_never_loses_a_bookmark, TantivyBookmarkSearchEngineAdapter,
};
use crate::trusted::index::accepted_query;

verus! {

/// An engine whose index was built over exactly the catalog of its
/// repository, as the application builds it, never makes an endpoint
/// answer that a bookmark was not found: whatever the term, neither reply
/// is a 404.
pub proof fn in_step_is_never_not_found<BR: BookmarkRepository>(
    engine: TantivyBookmarkSearchEngineAdapter<BR>,
    term: Seq<char>,
    outcome: Result<Seq<BookmarkView>, SearchFailure>,
)
    requires
        engine.in_step(),
        engine.permits(term, outcome),
    ensures
        search_reply(urls_of(outcome)).status != NOT_FOUND,
        suggestions_reply(term, names_of(outcome)).status != NOT_FOUND,
{
    in_step_never_loses_a_bookmark(engine, term, outcome);
}

/// A term that the parser of the index does not accept makes both
/// endpoints answer a 400, with the message of an invalid query as the
/// body.
pub proof fn refused_query_is_a_bad_request<BR: BookmarkRepository>(
    engine: TantivyBookmarkSearchEngineAdapter<BR>,
    term: Seq<char>,
    outcome: Result<Seq<BookmarkView>, SearchFailure>,
)
    requires
        engine.is_initialised(),
        term.len() > 0,
        !accepted_query(bookmark_fields(), default_search_fields(), term),
        engine.permits(term, outcome),
    ensures
        search_reply(urls_of(outcome)).status == BAD_REQUEST,
        suggestions_reply(term, names_of(outcome)).status == BAD_REQUEST,
        search_reply(urls_of(outcome)).body == SearchFailure::InvalidQuery.message(),
{
}

} // verus!
