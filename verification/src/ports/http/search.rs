use vstd::prelude::*;
use vstd::string::*;

use crate::application::error::ApplicationServiceError;
use crate::application::service::{answer_of, urls_of, ApplicationService};
use crate::domain::bookmark::{texts, BookmarkView};
use crate::domain::bookmark_search_engine::SearchFailure;
use crate::ports::http::reply::{HttpReply, ReplyView, BAD_REQUEST, MOVED_PERMANENTLY, OK};
use crate::ports::http::search_error_handling::{failure_reply, handle_search_error};

verus! {

/// The texts one after the other, with the separator between each two.
pub open spec fn joined(parts: Seq<Seq<char>>, separator: Seq<char>) -> Seq<char>
    decreases parts.len(),
{
    if parts.len() == 0 {
        Seq::empty()
    } else if parts.len() == 1 {
        parts[0]
    } else {
        joined(parts.drop_last(), separator) + separator + parts.last()
    }
}

/// The texts one after the other, with the separator between each two.
pub fn join(parts: &Vec<String>, separator: &str) -> (text: String)
    ensures
        text@ == joined(texts(parts@), separator@),
{
    let mut text = String::new();
    let mut i: usize = 0;
    while i < parts.len()
        invariant
            i <= parts.len(),
            text@ == joined(texts(parts@).take(i as int), separator@),
        decreases parts.len() - i,
    {
        proof {
            let seen = texts(parts@).take(i as int);
            let grown = texts(parts@).take(i as int + 1);
            assert(grown.drop_last() =~= seen);
            assert(grown.last() == parts@[i as int]@);
            if i == 0 {
                assert(seen.len() == 0);
                assert(Seq::<char>::empty() + parts@[0]@ =~= parts@[0]@);
            }
        }
        if i > 0 {
            text.append(separator);
        }
        text.append(parts[i].as_str());
        i += 1;
    }
    assert(texts(parts@).take(i as int) =~= texts(parts@));
    text
}

/// The reply to a request that names no term.
pub open spec fn missing_query_reply() -> ReplyView {
    ReplyView::uncached_text(BAD_REQUEST, "No \"q\" param in query."@)
}

/// The reply that sends the client to an address.
pub open spec fn redirect_reply(target: Seq<char>) -> ReplyView {
    ReplyView {
        status: MOVED_PERMANENTLY,
        location: Some(target),
        content_type: None,
        cache_control: Some("no-store"@),
        body: Seq::empty(),
    }
}

/// The reply to a search that the service has answered: one URL redirects
/// to it; none or several are listed in the body, separated by a comma and
/// a space; a failure is reported under the status of its kind. No reply is
/// cached.
pub open spec fn search_reply(answer: Result<Seq<Seq<char>>, SearchFailure>) -> ReplyView {
    match answer {
        Ok(found) => if found.len() == 1 {
            redirect_reply(found[0])
        } else {
            ReplyView::uncached_text(OK, joined(found, ", "@))
        },
        Err(failure) => failure_reply(failure),
    }
}

/// The reply to a request that names no term.
pub fn reply_to_missing_query() -> (reply: HttpReply)
    ensures
        reply@ == missing_query_reply(),
{
    HttpReply {
        status: BAD_REQUEST,
        location: None,
        content_type: None,
        cache_control: Some(String::from_str("no-store")),
        body: String::from_str("No \"q\" param in query."),
    }
}

/// The reply to a search that the service has answered.
pub fn reply_to_search(answer: Result<Vec<String>, ApplicationServiceError>) -> (reply: HttpReply)
    ensures
        reply@ == search_reply(answer_of(answer)),
{
    match answer {
        Ok(found) => {
            if found.len() == 1 {
                return HttpReply {
                    status: MOVED_PERMANENTLY,
                    location: Some(found[0].clone()),
                    content_type: None,
                    cache_control: Some(String::from_str("no-store")),
                    body: String::new(),
                };
            }
            HttpReply {
                status: OK,
                location: None,
                content_type: None,
                cache_control: Some(String::from_str("no-store")),
                body: join(&found, ", "),
            }
        },
        Err(err) => handle_search_error(&err),
    }
}

/// Answers `GET /search`: `p` is the value of the parameter `q`, if the
/// request has one. Without it the reply is a 400; with it the term is put
/// to the service and the reply follows from the answer.
pub fn handler<AS: ApplicationService>(p: Option<String>, application_service: &AS) -> (reply:
    HttpReply)
    ensures
        reply@.uncached(),
        match p {
            Some(term) => exists|outcome: Result<Seq<BookmarkView>, SearchFailure>| #[trigger]
                application_service.permits(term@, outcome) && reply@ == search_reply(
                    urls_of(outcome),
                ),
            None => reply@ == missing_query_reply(),
        },
{
    match p {
        Some(term) => reply_to_search(application_service.search(term)),
        None => reply_to_missing_query(),
    }
}

} // verus!
