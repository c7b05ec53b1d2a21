use vstd::prelude::*;
use vstd::string::*;

use crate::ports::http::reply::{HttpReply, ReplyView};

verus! {

/// The reply with its `Cache-Control` header set to `no-store`, whatever it
/// was, and nothing else changed.
pub fn disable_caching(response: HttpReply) -> (uncached: HttpReply)
    ensures
        uncached@ == (ReplyView { cache_control: Some("no-store"@), ..response@ }),
        uncached@.uncached(),
{
    HttpReply {
        status: response.status,
        location: response.location,
        content_type: response.content_type,
        cache_control: Some(String::from_str("no-store")),
        body: response.body,
    }
}

} // verus!
