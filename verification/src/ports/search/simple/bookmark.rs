use vstd::prelude::*;

use crate::domain::bookmark::{
    copy_optional_text, copy_texts, optional_text, texts, well_formed, Bookmark, BookmarkView,
};
use crate::trusted::links::is_absolute_url;

verus! {

/// A bookmark as the linear scan engine keeps it.
#[derive(Debug)]
pub struct SimpleSearchBookmark {
    id: u128,
    url: String,
    name: String,
    description: Option<String>,
    tags: Vec<String>,
}

impl View for SimpleSearchBookmark {
    type V = BookmarkView;

    closed spec fn view(&self) -> BookmarkView {
        BookmarkView {
            id: self.id,
            url: self.url@,
            name: self.name@,
            description: optional_text(self.description),
            tags: texts(self.tags@),
        }
    }
}

impl Clone for SimpleSearchBookmark {
    /// A bookmark equal to this one in every field.
    fn clone(&self) -> (copy: SimpleSearchBookmark)
        ensures
            copy@ == self@,
    {
        proof {
            use_type_invariant(self);
        }
        SimpleSearchBookmark {
            id: self.id,
            url: self.url.clone(),
            name: self.name.clone(),
            description: copy_optional_text(self.description.as_ref()),
            tags: copy_texts(&self.tags),
        }
    }
}

impl SimpleSearchBookmark {
    /// The name is not empty and the URL is an absolute one.
    #[verifier::type_invariant]
    spec fn holds_invariant(self) -> bool {
        well_formed(self.url@, self.name@)
    }

    /// A bookmark of the engine with the given content. The name must not be empty and the URL
    /// must be an absolute one.
    pub fn new(
        id: u128,
        url: String,
        name: String,
        description: Option<String>,
        tags: Vec<String>,
    ) -> (bookmark: SimpleSearchBookmark)
        requires
            well_formed(url@, name@),
        ensures
            bookmark@ == (BookmarkView {
                id,
                url: url@,
                name: name@,
                description: optional_text(description),
                tags: texts(tags@),
            }),
    {
        SimpleSearchBookmark { id, url, name, description, tags }
    }

    /// The identifier, unique within the catalog.
    pub fn id(&self) -> (id: u128)
        ensures
            id == self@.id,
    {
        self.id
    }

    /// The address that the bookmark leads to.
    pub fn url(&self) -> (url: &String)
        ensures
            url@ == self@.url,
            is_absolute_url(url@),
    {
        proof {
            use_type_invariant(self);
        }
        &self.url
    }

    /// The name that the bookmark is shown and found under.
    pub fn name(&self) -> (name: &String)
        ensures
            name@ == self@.name,
            name@.len() > 0,
    {
        proof {
            use_type_invariant(self);
        }
        &self.name
    }

    /// The free text that describes the bookmark, if there is one.
    pub fn description(&self) -> (description: Option<&String>)
        ensures
            description is Some == self@.description is Some,
            description is Some ==> description->0@ == self@.description->0,
    {
        match &self.description {
            Some(description) => Some(description),
            None => None,
        }
    }

    /// The tags of the bookmark. A tag may occur more than once.
    pub fn tags(&self) -> (tags: &Vec<String>)
        ensures
            texts(tags@) == self@.tags,
    {
        &self.tags
    }
}

impl vstd::std_specs::convert::FromSpecImpl<&Bookmark> for SimpleSearchBookmark {
    /// The conversion copies the texts, so its result is fixed by its view
    /// only.
    open spec fn obeys_from_spec() -> bool {
        false
    }

    open spec fn from_spec(bookmark: &Bookmark) -> SimpleSearchBookmark {
        choose|converted: SimpleSearchBookmark| converted@ == bookmark@
    }
}

impl From<&Bookmark> for SimpleSearchBookmark {
    /// The engine's copy of a bookmark.
    fn from(bookmark: &Bookmark) -> (converted: SimpleSearchBookmark)
        ensures
            converted@ == bookmark@,
    {
        SimpleSearchBookmark::new(
            bookmark.id(),
            bookmark.url().clone(),
            bookmark.name().clone(),
            copy_optional_text(bookmark.description()),
            copy_texts(bookmark.tags()),
        )
    }
}

impl vstd::std_specs::convert::FromSpecImpl<SimpleSearchBookmark> for Bookmark {
    /// The conversion copies the texts, so its result is fixed by its view
    /// only.
    open spec fn obeys_from_spec() -> bool {
        false
    }

    open spec fn from_spec(bookmark: SimpleSearchBookmark) -> Bookmark {
        choose|converted: Bookmark| converted@ == bookmark@
    }
}

impl From<SimpleSearchBookmark> for Bookmark {
    /// The bookmark of the domain with the same content.
    fn from(bookmark: SimpleSearchBookmark) -> (converted: Bookmark)
        ensures
            converted@ == bookmark@,
    {
        Bookmark::new(
            bookmark.id(),
            bookmark.url().clone(),
            bookmark.name().clone(),
            copy_optional_text(bookmark.description()),
            copy_texts(bookmark.tags()),
        )
    }
}

} // verus!
