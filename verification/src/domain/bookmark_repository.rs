use vstd::prelude::*;
use vstd::string::*;

use crate::domain::bookmark::{distinct_ids, entry, holds, views, Bookmark, BookmarkView};
use crate::trusted::ids::{format_id, id_text};

verus! {

/// Why a repository could not answer.
#[derive(Debug, PartialEq, Eq)]
pub enum BookmarkRepositoryError {
    /// No bookmark carries the identifier.
    BookmarkNotFound(u128),
    /// Any other fault, with its description.
    Unexpected(String),
}

/// A repository failure as a mathematical value.
pub enum RepositoryFailure {
    BookmarkNotFound(u128),
    Unexpected(Seq<char>),
}

impl View for BookmarkRepositoryError {
    type V = RepositoryFailure;

    open spec fn view(&self) -> RepositoryFailure {
        match self {
            BookmarkRepositoryError::BookmarkNotFound(id) => RepositoryFailure::BookmarkNotFound(
                *id,
            ),
            BookmarkRepositoryError::Unexpected(description) => RepositoryFailure::Unexpected(
                description@,
            ),
        }
    }
}

impl RepositoryFailure {
    /// The text shown for the failure.
    pub open spec fn message(self) -> Seq<char> {
        match self {
            RepositoryFailure::BookmarkNotFound(id) => "Could not find Bookmark with id: "@
                + id_text(id),
            RepositoryFailure::Unexpected(description) =>
                "Unexpected persistence error occurred: "@ + description,
        }
    }
}

impl BookmarkRepositoryError {
    /// The text shown for the failure.
    pub fn message(&self) -> (text: String)
        ensures
            text@ == self@.message(),
    {
        match self {
            BookmarkRepositoryError::BookmarkNotFound(id) => {
                let mut text = String::from_str("Could not find Bookmark with id: ");
                let id_part = format_id(*id);
                text.append(id_part.as_str());
                text
            },
            BookmarkRepositoryError::Unexpected(description) => {
                let mut text = String::from_str("Unexpected persistence error occurred: ");
                text.append(description.as_str());
                text
            },
        }
    }
}

/// The outcome of listing a repository, as a mathematical value.
pub open spec fn listing_of(
    result: Result<Vec<Bookmark>, BookmarkRepositoryError>,
) -> Result<Seq<BookmarkView>, RepositoryFailure> {
    match result {
        Ok(list) => Ok(views(list@)),
        Err(error) => Err(error@),
    }
}

/// The outcome of one lookup, as a mathematical value.
pub open spec fn lookup_of(result: Result<Bookmark, BookmarkRepositoryError>) -> Result<
    BookmarkView,
    RepositoryFailure,
> {
    match result {
        Ok(bookmark) => Ok(bookmark@),
        Err(error) => Err(error@),
    }
}

/// What a lookup in a listed catalog gives.
pub open spec fn lookup_in(catalog: Seq<BookmarkView>, id: u128) -> Result<
    BookmarkView,
    RepositoryFailure,
> {
    if holds(catalog, id) {
        Ok(entry(catalog, id))
    } else {
        Err(RepositoryFailure::BookmarkNotFound(id))
    }
}

/// Where the catalog lives. A repository answers from one snapshot: what it
/// lists and what it finds by identifier never disagree.
pub trait BookmarkRepository {
    /// What listing the repository gives.
    spec fn listing(&self) -> Result<Seq<BookmarkView>, RepositoryFailure>;

    /// What looking up one identifier gives.
    spec fn lookup(&self, id: u128) -> Result<BookmarkView, RepositoryFailure>;

    /// A listed catalog has distinct identifiers, and a lookup finds exactly
    /// its entries; a repository that cannot list cannot find either, and
    /// says both with a fault other than `BookmarkNotFound`.
    proof fn lookup_agrees_with_listing(&self, id: u128)
        ensures
            match self.listing() {
                Ok(catalog) => distinct_ids(catalog) && self.lookup(id) == lookup_in(catalog, id),
                Err(failure) => failure is Unexpected && self.lookup(id) is Err && self.lookup(
                    id,
                )->Err_0 is Unexpected,
            },
    ;

    /// Every bookmark, in catalog order.
    fn get_all(&self) -> (result: Result<Vec<Bookmark>, BookmarkRepositoryError>)
        ensures
            listing_of(result) == self.listing(),
    ;

    /// The bookmark that carries the identifier.
    fn get(&self, id: u128) -> (result: Result<Bookmark, BookmarkRepositoryError>)
        ensures
            lookup_of(result) == self.lookup(id),
    ;
}

} // verus!
