use vstd::prelude::*;

use crate::domain::bookmark::{
    copy_optional_text, copy_texts, optional_text, texts, well_formed, Bookmark, BookmarkView,
};
use crate::trusted::links::is_absolute_url;

verus! {

/// A bookmark as the repository keeps it in memory.
#[derive(Debug)]
pub struct MemoryBookmark {
    id: u128,
    url: String,
    name: String,
    description: Option<String>,
    tags: Vec<String>,
}

impl View for MemoryBookmark {
    type V = BookmarkView;

    closed spec fn view(&self) -> BookmarkView {
        BookmarkView {
            id: self.id,
            url: self.url@,
            name: self.name@,
            description: optional_text(self.description),
            tags: texts(self.tags@),
        }
    }
}

impl MemoryBookmark {
    /// The name is not empty and the URL is an absolute one.
    #[verifier::type_invariant]
    spec fn holds_invariant(self) -> bool {
        well_formed(self.url@, self.name@)
    }

    /// A stored bookmark with the given content. The name must not be empty and the URL
    /// must be an absolute one.
    pub fn new(
        id: u128,
        url: String,
        name: String,
        description: Option<String>,
        tags: Vec<String>,
    ) -> (bookmark: MemoryBookmark)
        requires
            well_formed(url@, name@),
        ensures
            bookmark@ == (BookmarkView {
                id,
                url: url@,
                name: name@,
                description: optional_text(description),
                tags: texts(tags@),
            }),
    {
        MemoryBookmark { id, url, name, description, tags }
    }

    /// The identifier, unique within the catalog.
    pub fn id(&self) -> (id: u128)
        ensures
            id == self@.id,
    {
        self.id
    }

    /// The address that the bookmark leads to.
    pub fn url(&self) -> (url: &String)
        ensures
            url@ == self@.url,
            is_absolute_url(url@),
    {
        proof {
            use_type_invariant(self);
        }
        &self.url
    }

    /// The name that the bookmark is shown and found under.
    pub fn name(&self) -> (name: &String)
        ensures
            name@ == self@.name,
            name@.len() > 0,
    {
        proof {
            use_type_invariant(self);
        }
        &self.name
    }

    /// The free text that describes the bookmark, if there is one.
    pub fn description(&self) -> (description: Option<&String>)
        ensures
            description is Some == self@.description is Some,
            description is Some ==> description->0@ == self@.description->0,
    {
        self.description.as_ref()
    }

    /// The tags of the bookmark. A tag may occur more than once.
    pub fn tags(&self) -> (tags: &Vec<String>)
        ensures
            texts(tags@) == self@.tags,
    {
        &self.tags
    }
}

impl vstd::std_specs::convert::FromSpecImpl<&MemoryBookmark> for Bookmark {
    /// The conversion copies the texts, so its result is fixed by its view
    /// only.
    open spec fn obeys_from_spec() -> bool {
        false
    }

    open spec fn from_spec(bookmark: &MemoryBookmark) -> Bookmark {
        choose|converted: Bookmark| converted@ == bookmark@
    }
}

impl From<&MemoryBookmark> for Bookmark {
    /// The bookmark of the domain with the same content.
    fn from(bookmark: &MemoryBookmark) -> (converted: Bookmark)
        ensures
            converted@ == bookmark@,
    {
        Bookmark::new(
            bookmark.id(),
            bookmark.url().clone(),
            bookmark.name().clone(),
            copy_optional_text(bookmark.description()),
            copy_texts(bookmark.tags()),
        )
    }
}

} // verus!
