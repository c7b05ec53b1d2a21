use vstd::prelude::*;

use crate::domain::bookmark::{optional_text, texts, well_formed};
use crate::domain::bookmark_factory::is_well_formed;

verus! {

/// One record of the catalog file, as it was read: nothing is known of its
/// URL and its name yet.
#[derive(Debug)]
pub struct PersistenceBookmark {
    url: String,
    name: String,
    description: Option<String>,
    tags: Vec<String>,
}

/// A record as a mathematical value.
pub struct RecordView {
    pub url: Seq<char>,
    pub name: Seq<char>,
    pub description: Option<Seq<char>>,
    pub tags: Seq<Seq<char>>,
}

impl RecordView {
    /// The record may become a bookmark: its name is not empty and its URL
    /// is an absolute one.
    pub open spec fn valid(self) -> bool {
        well_formed(self.url, self.name)
    }
}

impl View for PersistenceBookmark {
    type V = RecordView;

    closed spec fn view(&self) -> RecordView {
        RecordView {
            url: self.url@,
            name: self.name@,
            description: optional_text(self.description),
            tags: texts(self.tags@),
        }
    }
}

impl PersistenceBookmark {
    /// A record with the given content, whatever it is.
    pub fn new(url: String, name: String, description: Option<String>, tags: Vec<String>) -> (record:
        PersistenceBookmark)
        ensures
            record@ == (RecordView {
                url: url@,
                name: name@,
                description: optional_text(description),
                tags: texts(tags@),
            }),
    {
        PersistenceBookmark { url, name, description, tags }
    }

    /// The address that the bookmark leads to.
    pub fn url(&self) -> (url: &String)
        ensures
            url@ == self@.url,
    {
        &self.url
    }

    /// The name that the bookmark is shown and found under.
    pub fn name(&self) -> (name: &String)
        ensures
            name@ == self@.name,
    {
        &self.name
    }

    /// The free text that describes the bookmark, if there is one.
    pub fn description(&self) -> (description: Option<&String>)
        ensures
            description is Some == self@.description is Some,
            description is Some ==> description->0@ == self@.description->0,
    {
        self.description.as_ref()
    }

    /// The tags of the bookmark. A tag may occur more than once.
    pub fn tags(&self) -> (tags: &Vec<String>)
        ensures
            texts(tags@) == self@.tags,
    {
        &self.tags
    }

    /// Whether the record meets the schema of the catalog.
    pub fn is_valid(&self) -> (valid: bool)
        ensures
            valid == self@.valid(),
    {
        is_well_formed(&self.url, &self.name)
    }
}

} // verus!
