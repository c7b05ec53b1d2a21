use vstd::prelude::*;
use vstd::string::*;

use crate::application::error::ApplicationServiceError;
use crate::domain::bookmark_search_engine::{BookmarkSearchEngineError, SearchFailure};
use crate::ports::http::reply::{
    HttpReply, ReplyView, BAD_REQUEST, INTERNAL_SERVER_ERROR, NOT_FOUND,
};

verus! {

/// The status that stands for a kind of failure: a query that cannot be
/// understood is the client's fault, a bookmark that is gone is not found,
/// and everything else is a fault of the server.
pub open spec fn failure_status(failure: SearchFailure) -> u16 {
    match failure {
        SearchFailure::InvalidQuery => BAD_REQUEST,
        SearchFailure::BookmarkNotFound(_) => NOT_FOUND,
        SearchFailure::Unexpected(_) => INTERNAL_SERVER_ERROR,
    }
}

/// The reply to a failed search: the status of its kind, its message as the
/// body, never cached.
pub open spec fn failure_reply(failure: SearchFailure) -> ReplyView {
    ReplyView::uncached_text(failure_status(failure), failure.message())
}

/// The reply to a failed search.
pub fn handle_search_error(err: &ApplicationServiceError) -> (reply: HttpReply)
    ensures
        reply@ == failure_reply(err@),
{
    let status = match err {
        ApplicationServiceError::Search(cause) => match cause {
            BookmarkSearchEngineError::InvalidQuery => BAD_REQUEST,
            BookmarkSearchEngineError::BookmarkNotFound(_) => NOT_FOUND,
            BookmarkSearchEngineError::Unexpected(_) => INTERNAL_SERVER_ERROR,
        },
    };
    HttpReply {
        status,
        location: None,
        content_type: None,
        cache_control: Some(String::from_str("no-store")),
        body: err.message(),
    }
}

} // verus!
