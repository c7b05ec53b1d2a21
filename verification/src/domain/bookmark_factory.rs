use vstd::prelude::*;

use crate::domain::bookmark::{optional_text, texts, well_formed, Bookmark};
use crate::trusted::ids::random_id;
use crate::trusted::links::parses_as_url;

verus! {

/// Makes new bookmarks, each under an identifier of its own.
pub trait BookmarkFactory {
    /// A bookmark with the given content, if that content is well formed:
    /// the name not empty, the URL absolute. Its identifier is chosen by the
    /// factory.
    fn create(
        &self,
        url: String,
        name: String,
        description: Option<String>,
        tags: Vec<String>,
    ) -> (created: Option<Bookmark>)
        ensures
            created is Some <==> well_formed(url@, name@),
            created matches Some(bookmark) ==> {
                &&& bookmark@.url == url@
                &&& bookmark@.name == name@
                &&& bookmark@.description == optional_text(description)
                &&& bookmark@.tags == texts(tags@)
            },
    ;
}

/// The factory that draws identifiers at random.
pub struct BookmarkFactoryImpl;

impl BookmarkFactoryImpl {
    /// The factory. It keeps no state.
    pub fn new() -> (factory: BookmarkFactoryImpl)
        ensures
            factory == BookmarkFactoryImpl,
    {
        BookmarkFactoryImpl
    }
}

/// Whether a name and a URL may stand in a bookmark.
pub fn is_well_formed(url: &String, name: &String) -> (valid: bool)
    ensures
        valid == well_formed(url@, name@),
{
    !name.as_str().is_empty() && parses_as_url(url.as_str())
}

impl BookmarkFactory for BookmarkFactoryImpl {
    fn create(
        &self,
        url: String,
        name: String,
        description: Option<String>,
        tags: Vec<String>,
    ) -> (created: Option<Bookmark>) {
        if is_well_formed(&url, &name) {
            Some(Bookmark::new(random_id(), url, name, description, tags))
        } else {
            None
        }
    }
}

} // verus!
