use std::collections::HashMap;
use vstd::prelude::*;

use crate::domain::bookmark::{distinct_ids, entry, holds, Bookmark, BookmarkView};
use crate::ports::persistence::memory_bookmark::MemoryBookmark;

verus! {

broadcast use vstd::std_specs::hash::group_hash_axioms;

/// The views of a list of stored bookmarks, in the same order.
pub open spec fn stored_views(list: Seq<MemoryBookmark>) -> Seq<BookmarkView> {
    list.map_values(|bookmark: MemoryBookmark| bookmark@)
}

/// The bookmarks of one snapshot, in the order of the catalog file, with an
/// index from identifier to position. No identifier occurs twice.
pub struct Catalog {
    entries: Vec<MemoryBookmark>,
    positions: HashMap<u128, usize>,
}

impl View for Catalog {
    type V = Seq<BookmarkView>;

    closed spec fn view(&self) -> Seq<BookmarkView> {
        stored_views(self.entries@)
    }
}

/// The index maps exactly the identifiers of the entries, each to the
/// position of its entry.
spec fn indexed(entries: Seq<MemoryBookmark>, positions: Map<u128, usize>) -> bool {
    &&& forall|i: int|
        0 <= i < entries.len() ==> positions.contains_key((#[trigger] entries[i])@.id)
            && positions[entries[i]@.id] == i
    &&& forall|id: u128| #[trigger]
        positions.contains_key(id) ==> positions[id] < entries.len()
            && entries[positions[id] as int]@.id == id
}

proof fn indexed_entries_are_distinct(entries: Seq<MemoryBookmark>, positions: Map<u128, usize>)
    requires
        indexed(entries, positions),
    ensures
        distinct_ids(stored_views(entries)),
        forall|id: u128|
            holds(stored_views(entries), id) <==> #[trigger] positions.contains_key(id),
        forall|id: u128| #[trigger]
            positions.contains_key(id) ==> entry(stored_views(entries), id)
                == entries[positions[id] as int]@,
{
    let catalog = stored_views(entries);
    assert forall|i: int, j: int| 0 <= i < j < catalog.len() implies (#[trigger] catalog[i]).id
        != (#[trigger] catalog[j]).id by {
        assert(positions[entries[i]@.id] == i);
        assert(positions[entries[j]@.id] == j);
    }
    assert forall|id: u128| holds(catalog, id) <==> #[trigger] positions.contains_key(id) by {
        if holds(catalog, id) {
            let i = choose|i: int| 0 <= i < catalog.len() && (#[trigger] catalog[i]).id == id;
            assert(positions.contains_key(entries[i]@.id));
        }
        if positions.contains_key(id) {
            assert(catalog[positions[id] as int].id == id);
        }
    }
    assert forall|id: u128| #[trigger] positions.contains_key(id) implies entry(catalog, id)
        == entries[positions[id] as int]@ by {
        assert(catalog[positions[id] as int].id == id);
        let i = choose|i: int| 0 <= i < catalog.len() && (#[trigger] catalog[i]).id == id;
        assert(positions[entries[i]@.id] == i);
    }
}

impl Catalog {
    /// Every value of this type is indexed as its invariant says.
    #[verifier::type_invariant]
    pub closed spec fn sound(self) -> bool {
        indexed(self.entries@, self.positions@)
    }

    /// A sound catalog holds no identifier twice.
    pub proof fn sound_means_distinct(self)
        requires
            self.sound(),
        ensures
            distinct_ids(self@),
    {
        indexed_entries_are_distinct(self.entries@, self.positions@);
    }

    /// The catalog of the given bookmarks in their order, unless two of them
    /// carry the same identifier.
    pub fn collect(bookmarks: Vec<MemoryBookmark>) -> (collected: Option<Catalog>)
        ensures
            collected is Some <==> distinct_ids(stored_views(bookmarks@)),
            collected matches Some(catalog) ==> catalog@ == stored_views(bookmarks@)
                && catalog.sound(),
    {
        let mut positions: HashMap<u128, usize> = HashMap::new();
        let mut i: usize = 0;
        while i < bookmarks.len()
            invariant
                i <= bookmarks.len(),
                indexed(bookmarks@.take(i as int), positions@),
            decreases bookmarks.len() - i,
        {
            let id = bookmarks[i].id();
            if positions.contains_key(&id) {
                proof {
                    let earlier = positions@[id] as int;
                    let catalog = stored_views(bookmarks@);
                    assert(bookmarks@.take(i as int)[earlier]@.id == id);
                    assert(catalog[earlier].id == catalog[i as int].id);
                }
                return None;
            }
            let ghost before = positions@;
            positions.insert(id, i);
            proof {
                let grown = bookmarks@.take(i as int + 1);
                assert forall|k: int| 0 <= k < grown.len() implies positions@.contains_key(
                    (#[trigger] grown[k])@.id,
                ) && positions@[grown[k]@.id] == k by {
                    if k < i {
                        assert(bookmarks@.take(i as int)[k] == grown[k]);
                        assert(before.contains_key(grown[k]@.id));
                    }
                }
                assert forall|other: u128| #[trigger]
                    positions@.contains_key(other) implies positions@[other] < grown.len()
                    && grown[positions@[other] as int]@.id == other by {
                    if other != id {
                        assert(before.contains_key(other));
                        assert(bookmarks@.take(i as int)[before[other] as int]
                            == grown[before[other] as int]);
                    }
                }
            }
            i += 1;
        }
        proof {
            assert(bookmarks@.take(i as int) =~= bookmarks@);
            indexed_entries_are_distinct(bookmarks@, positions@);
        }
        Some(Catalog { entries: bookmarks, positions })
    }

    /// How many bookmarks the catalog holds.
    pub fn len(&self) -> (len: usize)
        ensures
            len == self@.len(),
    {
        self.entries.len()
    }

    /// The bookmark at a position of the catalog.
    pub fn at(&self, position: usize) -> (bookmark: Bookmark)
        requires
            position < self@.len(),
        ensures
            bookmark@ == self@[position as int],
    {
        Bookmark::from(&self.entries[position])
    }

    /// The bookmark that carries the identifier, if the catalog holds one.
    pub fn find(&self, id: u128) -> (found: Option<Bookmark>)
        ensures
            found is Some <==> holds(self@, id),
            found matches Some(bookmark) ==> bookmark@ == entry(self@, id),
    {
        proof {
            use_type_invariant(self);
            indexed_entries_are_distinct(self.entries@, self.positions@);
        }
        match self.positions.get(&id) {
            Some(position) => Some(Bookmark::from(&self.entries[*position])),
            None => None,
        }
    }
}

} // verus!
