use vstd::prelude::*;

use crate::trusted::links::is_absolute_url;

verus! {

/// What a bookmark is, as a mathematical value.
pub struct BookmarkView {
    pub id: u128,
    pub url: Seq<char>,
    pub name: Seq<char>,
    pub description: Option<Seq<char>>,
    pub tags: Seq<Seq<char>>,
}

/// The views of a list of texts.
pub open spec fn texts(list: Seq<String>) -> Seq<Seq<char>> {
    list.map_values(|text: String| text@)
}

/// The view of an optional text.
pub open spec fn optional_text(text: Option<String>) -> Option<Seq<char>> {
    match text {
        Some(text) => Some(text@),
        None => None,
    }
}

/// What every bookmark satisfies: its name is not empty and its URL is an
/// absolute, well-formed one.
pub open spec fn well_formed(url: Seq<char>, name: Seq<char>) -> bool {
    name.len() > 0 && is_absolute_url(url)
}

/// The views of a list of bookmarks, in the same order.
pub open spec fn views(list: Seq<Bookmark>) -> Seq<BookmarkView> {
    list.map_values(|bookmark: Bookmark| bookmark@)
}

/// Some entry of the catalog carries the identifier.
pub open spec fn holds(catalog: Seq<BookmarkView>, id: u128) -> bool {
    exists|i: int| 0 <= i < catalog.len() && (#[trigger] catalog[i]).id == id
}

/// The entry of the catalog that carries the identifier.
pub open spec fn entry(catalog: Seq<BookmarkView>, id: u128) -> BookmarkView {
    catalog[choose|i: int| 0 <= i < catalog.len() && (#[trigger] catalog[i]).id == id]
}

/// No two entries of the catalog carry the same identifier.
pub open spec fn distinct_ids(catalog: Seq<BookmarkView>) -> bool {
    forall|i: int, j: int|
        0 <= i < j < catalog.len() ==> (#[trigger] catalog[i]).id != (#[trigger] catalog[j]).id
}

/// A copy of a list of texts.
pub fn copy_texts(list: &Vec<String>) -> (copy: Vec<String>)
    ensures
        texts(copy@) == texts(list@),
{
    let mut copy: Vec<String> = Vec::new();
    let mut i: usize = 0;
    while i < list.len()
        invariant
            i <= list.len(),
            copy.len() == i,
            forall|j: int| 0 <= j < i ==> copy@[j]@ == list@[j]@,
        decreases list.len() - i,
    {
        copy.push(list[i].clone());
        i += 1;
    }
    assert(texts(copy@) =~= texts(list@));
    copy
}

/// A copy of an optional text.
pub fn copy_optional_text(text: Option<&String>) -> (copy: Option<String>)
    ensures
        copy is Some == text is Some,
        copy is Some ==> copy->0@ == text->0@,
{
    match text {
        Some(text) => Some(text.clone()),
        None => None,
    }
}

/// In a catalog of distinct identifiers, the entry that carries the
/// identifier of an entry is that entry.
pub proof fn entry_of_own_id(catalog: Seq<BookmarkView>, i: int)
    requires
        distinct_ids(catalog),
        0 <= i < catalog.len(),
    ensures
        holds(catalog, catalog[i].id),
        entry(catalog, catalog[i].id) == catalog[i],
{
    let id = catalog[i].id;
    let chosen = choose|k: int| 0 <= k < catalog.len() && (#[trigger] catalog[k]).id == id;
    if chosen < i {
        assert(catalog[chosen].id != catalog[i].id);
    } else if i < chosen {
        assert(catalog[i].id != catalog[chosen].id);
    }
}

/// An entry that a catalog holds under an identifier carries it.
pub proof fn entry_carries_id(catalog: Seq<BookmarkView>, id: u128)
    requires
        holds(catalog, id),
    ensures
        catalog.contains(entry(catalog, id)),
        entry(catalog, id).id == id,
{
    let chosen = choose|k: int| 0 <= k < catalog.len() && (#[trigger] catalog[k]).id == id;
    assert(catalog[chosen] == entry(catalog, id));
}

/// One saved link.
#[derive(Debug)]
pub struct Bookmark {
    id: u128,
    url: String,
    name: String,
    description: Option<String>,
    tags: Vec<String>,
}

impl View for Bookmark {
    type V = BookmarkView;

    closed spec fn view(&self) -> BookmarkView {
        BookmarkView {
            id: self.id,
            url: self.url@,
            name: self.name@,
            description: optional_text(self.description),
            tags: texts(self.tags@),
        }
    }
}

impl Clone for Bookmark {
    /// A bookmark equal to this one in every field.
    fn clone(&self) -> (copy: Bookmark)
        ensures
            copy@ == self@,
    {
        proof {
            use_type_invariant(self);
        }
        Bookmark {
            id: self.id,
            url: self.url.clone(),
            name: self.name.clone(),
            description: copy_optional_text(self.description.as_ref()),
            tags: copy_texts(&self.tags),
        }
    }
}

impl Bookmark {
    /// The name is not empty and the URL is an absolute one.
    #[verifier::type_invariant]
    spec fn holds_invariant(self) -> bool {
        well_formed(self.url@, self.name@)
    }

    /// A bookmark with the given content. The name must not be empty and the URL
    /// must be an absolute one.
    pub fn new(
        id: u128,
        url: String,
        name: String,
        description: Option<String>,
        tags: Vec<String>,
    ) -> (bookmark: Bookmark)
        requires
            well_formed(url@, name@),
        ensures
            bookmark@ == (BookmarkView {
                id,
                url: url@,
                name: name@,
                description: optional_text(description),
                tags: texts(tags@),
            }),
    {
        Bookmark { id, url, name, description, tags }
    }

    /// The identifier, unique within the catalog.
    pub fn id(&self) -> (id: u128)
        ensures
            id == self@.id,
    {
        self.id
    }

    /// The address that the bookmark leads to.
    pub fn url(&self) -> (url: &String)
        ensures
            url@ == self@.url,
            is_absolute_url(url@),
    {
        proof {
            use_type_invariant(self);
        }
        &self.url
    }

    /// The name that the bookmark is shown and found under.
    pub fn name(&self) -> (name: &String)
        ensures
            name@ == self@.name,
            name@.len() > 0,
    {
        proof {
            use_type_invariant(self);
        }
        &self.name
    }

    /// The free text that describes the bookmark, if there is one.
    pub fn description(&self) -> (description: Option<&String>)
        ensures
            description is Some == self@.description is Some,
            description is Some ==> description->0@ == self@.description->0,
    {
        self.description.as_ref()
    }

    /// The tags of the bookmark. A tag may occur more than once.
    pub fn tags(&self) -> (tags: &Vec<String>)
        ensures
            texts(tags@) == self@.tags,
    {
        &self.tags
    }
}

} // verus!
