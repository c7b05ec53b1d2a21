use vstd::prelude::*;
use vstd::string::*;

use crate::application::error::ApplicationServiceError;
use crate::application::service::{answer_of, names_of, ApplicationService};
use crate::domain::bookmark::{texts, BookmarkView};
use crate::domain::bookmark_search_engine::SearchFailure;
use crate::ports::http::disable_caching::disable_caching;
use crate::ports::http::reply::{HttpReply, ReplyView, BAD_REQUEST, INTERNAL_SERVER_ERROR, OK};
use crate::ports::http::search_error_handling::{failure_reply, handle_search_error};
use crate::trusted::json::{json_array_text, to_json_array};

verus! {

/// What is suggested for a query: the query itself and the names that
/// complete it.
pub struct SuggestionResponse {
    query: String,
    suggestions: Vec<String>,
}

/// One element of the body: a text, or a list of texts.
pub enum StringOrStrings {
    String(String),
    Strings(Vec<String>),
}

/// An element of the body as a mathematical value.
pub enum JsonItem {
    Text(Seq<char>),
    List(Seq<Seq<char>>),
}

impl View for StringOrStrings {
    type V = JsonItem;

    open spec fn view(&self) -> JsonItem {
        match self {
            StringOrStrings::String(text) => JsonItem::Text(text@),
            StringOrStrings::Strings(list) => JsonItem::List(texts(list@)),
        }
    }
}

/// The views of a list of elements, in the same order.
pub open spec fn item_views(items: Seq<StringOrStrings>) -> Seq<JsonItem> {
    items.map_values(|item: StringOrStrings| item@)
}

/// The body of a suggestions reply: the elements of the array that is sent.
pub struct SuggestionResponseBody {
    inner: Vec<StringOrStrings>,
}

impl View for SuggestionResponseBody {
    type V = Seq<JsonItem>;

    closed spec fn view(&self) -> Seq<JsonItem> {
        item_views(self.inner@)
    }
}

/// The two elements that are sent for a query and its suggestions: first
/// the query, then the list.
pub open spec fn suggestion_items(query: Seq<char>, suggestions: Seq<Seq<char>>) -> Seq<JsonItem> {
    seq![JsonItem::Text(query), JsonItem::List(suggestions)]
}

impl SuggestionResponse {
    /// The query that the suggestions are for.
    pub closed spec fn query(&self) -> Seq<char> {
        self.query@
    }

    /// The suggested names, best first.
    pub closed spec fn suggestions(&self) -> Seq<Seq<char>> {
        texts(self.suggestions@)
    }

    /// The response for a query and the names suggested for it.
    pub fn new(query: String, suggestions: Vec<String>) -> (response: SuggestionResponse)
        ensures
            response.query() == query@,
            response.suggestions() == texts(suggestions@),
    {
        SuggestionResponse { query, suggestions }
    }

    /// The JSON text that is sent for the response: the array of the query
    /// and the list of suggestions.
    pub fn to_json(self) -> (encoded: Result<String, serde_json::Error>)
        ensures
            match encoded {
                Ok(text) => json_array_text(suggestion_items(self.query(), self.suggestions()))
                    == Some(text@),
                Err(_) => json_array_text(suggestion_items(self.query(), self.suggestions()))
                    is None,
            },
    {
        let body = SuggestionResponseBody::from(self);
        to_json_array(&body.inner)
    }
}

impl vstd::std_specs::convert::FromSpecImpl<SuggestionResponse> for SuggestionResponseBody {
    /// The conversion builds a list anew, so its result is fixed by its view
    /// only.
    open spec fn obeys_from_spec() -> bool {
        false
    }

    open spec fn from_spec(response: SuggestionResponse) -> SuggestionResponseBody {
        choose|body: SuggestionResponseBody|
            body@ == suggestion_items(response.query(), response.suggestions())
    }
}

impl From<SuggestionResponse> for SuggestionResponseBody {
    /// The body of a response: the query first, then the suggestions.
    fn from(response: SuggestionResponse) -> (body: SuggestionResponseBody)
        ensures
            body@ == suggestion_items(response.query(), response.suggestions()),
    {
        let mut inner: Vec<StringOrStrings> = Vec::new();
        inner.push(StringOrStrings::String(response.query));
        inner.push(StringOrStrings::Strings(response.suggestions));
        assert(item_views(inner@) =~= suggestion_items(response.query(), response.suggestions()));
        SuggestionResponseBody { inner }
    }
}

/// The reply that carries suggestions: the JSON text under the media type
/// of the suggestions protocol.
pub open spec fn suggestions_found_reply(body: Seq<char>) -> ReplyView {
    ReplyView {
        status: OK,
        location: None,
        content_type: Some("application/x-suggestions+json"@),
        cache_control: None,
        body,
    }
}

/// The reply where the suggestions could not be put into JSON.
pub open spec fn encoding_failed_reply() -> ReplyView {
    ReplyView {
        status: INTERNAL_SERVER_ERROR,
        location: None,
        content_type: None,
        cache_control: None,
        body: "Could not encode the suggestions"@,
    }
}

/// The reply to a request that names no term, before caching is dealt with.
pub open spec fn missing_query_reply() -> ReplyView {
    ReplyView {
        status: BAD_REQUEST,
        location: None,
        content_type: None,
        cache_control: None,
        body: "No \"q\" param in query."@,
    }
}

/// The reply to a request for suggestions that the service has answered,
/// before caching is dealt with: the names are sent with the term as the
/// array `[term, [name, ...]]`; a failure is reported under the status of
/// its kind.
pub open spec fn suggestions_reply(
    term: Seq<char>,
    answer: Result<Seq<Seq<char>>, SearchFailure>,
) -> ReplyView {
    match answer {
        Ok(found) => match json_array_text(suggestion_items(term, found)) {
            Some(body) => suggestions_found_reply(body),
            None => encoding_failed_reply(),
        },
        Err(failure) => failure_reply(failure),
    }
}

/// The reply to a request for suggestions that the service has answered.
pub fn reply_to_suggest(term: String, answer: Result<Vec<String>, ApplicationServiceError>) -> (reply:
    HttpReply)
    ensures
        reply@ == suggestions_reply(term@, answer_of(answer)),
{
    match answer {
        Ok(found) => {
            let body = SuggestionResponse::new(term, found);
            match body.to_json() {
                Ok(text) => HttpReply {
                    status: OK,
                    location: None,
                    content_type: Some(String::from_str("application/x-suggestions+json")),
                    cache_control: None,
                    body: text,
                },
                Err(_) => HttpReply {
                    status: INTERNAL_SERVER_ERROR,
                    location: None,
                    content_type: None,
                    cache_control: None,
                    body: String::from_str("Could not encode the suggestions"),
                },
            }
        },
        Err(err) => handle_search_error(&err),
    }
}

/// Answers `GET /suggestions`, before caching is dealt with: `p` is the
/// value of the parameter `q`, if the request has one.
pub fn handler<AS: ApplicationService>(p: Option<String>, application_service: &AS) -> (reply:
    HttpReply)
    ensures
        match p {
            Some(term) => exists|outcome: Result<Seq<BookmarkView>, SearchFailure>| #[trigger]
                application_service.permits(term@, outcome) && reply@ == suggestions_reply(
                    term@,
                    names_of(outcome),
                ),
            None => reply@ == missing_query_reply(),
        },
{
    match p {
        Some(term) => {
            let answer = application_service.suggest(term.clone());
            reply_to_suggest(term, answer)
        },
        None => HttpReply {
            status: BAD_REQUEST,
            location: None,
            content_type: None,
            cache_control: None,
            body: String::from_str("No \"q\" param in query."),
        },
    }
}

/// Answers `GET /suggestions`: the reply of `handler`, never cached.
pub fn bookmarks_suggestions<AS: ApplicationService>(
    p: Option<String>,
    application_service: &AS,
) -> (reply: HttpReply)
    ensures
        reply@.uncached(),
        match p {
            Some(term) => exists|outcome: Result<Seq<BookmarkView>, SearchFailure>| #[trigger]
                application_service.permits(term@, outcome) && reply@ == (ReplyView {
                    cache_control: Some("no-store"@),
                    ..suggestions_reply(term@, names_of(outcome))
                }),
            None => reply@ == (ReplyView {
                cache_control: Some("no-store"@),
                ..missing_query_reply()
            }),
        },
{
    disable_caching(handler(p, application_service))
}

} // verus!
