use vstd::prelude::*;

use crate::domain::bookmark::optional_text;

verus! {

/// Status of a reply that carries what was asked for.
pub const OK: u16 = 200;

/// Status of a reply that sends the client to another address for good.
pub const MOVED_PERMANENTLY: u16 = 301;

/// Status of a reply to a request that cannot be understood.
pub const BAD_REQUEST: u16 = 400;

/// Status of a reply about something that is not there.
pub const NOT_FOUND: u16 = 404;

/// Status of a reply after a fault on the server's side.
pub const INTERNAL_SERVER_ERROR: u16 = 500;

/// One HTTP reply: its status, the three headers the endpoints set, and its
/// body.
#[derive(Debug, PartialEq, Eq)]
pub struct HttpReply {
    pub status: u16,
    /// The `Location` header.
    pub location: Option<String>,
    /// The `Content-Type` header.
    pub content_type: Option<String>,
    /// The `Cache-Control` header.
    pub cache_control: Option<String>,
    pub body: String,
}

/// A reply as a mathematical value.
pub struct ReplyView {
    pub status: u16,
    pub location: Option<Seq<char>>,
    pub content_type: Option<Seq<char>>,
    pub cache_control: Option<Seq<char>>,
    pub body: Seq<char>,
}

impl View for HttpReply {
    type V = ReplyView;

    open spec fn view(&self) -> ReplyView {
        ReplyView {
            status: self.status,
            location: optional_text(self.location),
            content_type: optional_text(self.content_type),
            cache_control: optional_text(self.cache_control),
            body: self.body@,
        }
    }
}

impl ReplyView {
    /// The reply tells every cache not to keep it.
    pub open spec fn uncached(self) -> bool {
        self.cache_control == Some("no-store"@)
    }

    /// A reply of the given status with a text as its body and no header
    /// but the one that forbids caching.
    pub open spec fn uncached_text(status: u16, body: Seq<char>) -> ReplyView {
        ReplyView {
            status,
            location: None,
            content_type: None,
            cache_control: Some("no-store"@),
            body,
        }
    }
}

} // verus!
