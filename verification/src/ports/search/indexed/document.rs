use vstd::prelude::*;
use vstd::slice::*;

use crate::domain::bookmark::{texts, Bookmark, BookmarkView};
use crate::trusted::ids::{format_id, id_text, parse_id, parsed_id};
use crate::trusted::index::{
    add_text, all_text, document_values, field_names, get_field, is_stored, new_document,
    schema_fields, stored_len, stored_size, stored_values, value_views, FieldKind,
};

verus! {

/// The handles of the four fields of a bookmark's document.
pub struct BookmarkDocumentFields {
    pub id: u32,
    pub name: u32,
    pub description: u32,
    pub tags: u32,
}

/// The names of the fields of the index, in the order of their handles.
pub open spec fn bookmark_field_names() -> Seq<Seq<char>> {
    seq!["id"@, "name"@, "description"@, "tags"@]
}

/// The fields of the index: the identifier is kept to be read back and is
/// not searched; name, description and tags are searched and not kept.
pub open spec fn bookmark_fields() -> Seq<(Seq<char>, FieldKind)> {
    seq![
        ("id"@, FieldKind::Stored),
        ("name"@, FieldKind::Text),
        ("description"@, FieldKind::Text),
        ("tags"@, FieldKind::Text),
    ]
}

/// The handles of the fields in an index of these fields: their positions.
pub open spec fn handles() -> BookmarkDocumentFields {
    BookmarkDocumentFields { id: 0, name: 1, description: 2, tags: 3 }
}

/// The fields by which a term is searched where it names none: name,
/// description and tags, the description counting twice.
pub open spec fn default_search_fields() -> Seq<u32> {
    seq![1u32, 2u32, 2u32, 3u32]
}

/// The four names differ from one another, and each may name a field.
pub proof fn field_names_are_distinct()
    ensures
        "id"@.len() == 2,
        "name"@.len() == 4,
        "description"@.len() == 11,
        "tags"@.len() == 4,
        "id"@[0] == 'i',
        "name"@[0] == 'n',
        "description"@[0] == 'd',
        "tags"@[0] == 't',
{
    reveal_strlit("id");
    reveal_strlit("name");
    reveal_strlit("description");
    reveal_strlit("tags");
}

impl BookmarkDocumentFields {
    /// Every handle is below the number of fields.
    pub open spec fn within(self, count: nat) -> bool {
        self.id < count && self.name < count && self.description < count && self.tags < count
    }

    /// The four handles as given.
    pub fn new(id: u32, name: u32, description: u32, tags: u32) -> (fields: BookmarkDocumentFields)
        ensures
            fields == (BookmarkDocumentFields { id, name, description, tags }),
    {
        BookmarkDocumentFields { id, name, description, tags }
    }

    /// The handles are those of the four fields in a schema of these names.
    pub open spec fn found_in(self, names: Seq<Seq<char>>) -> bool {
        &&& self.within(names.len())
        &&& names[self.id as int] == "id"@
        &&& names[self.name as int] == "name"@
        &&& names[self.description as int] == "description"@
        &&& names[self.tags as int] == "tags"@
    }

    /// The handles under which a schema knows the four fields, or the fault
    /// of the schema where it lacks one of them.
    pub(crate) fn from(schema: &tantivy::schema::Schema) -> (found: Result<
        BookmarkDocumentFields,
        tantivy::TantivyError,
    >)
        ensures
            match found {
                Ok(fields) => fields.found_in(field_names(schema_fields(*schema))),
                Err(_) => {
                    let names = field_names(schema_fields(*schema));
                    !names.contains("id"@) || !names.contains("name"@) || !names.contains(
                        "description"@,
                    ) || !names.contains("tags"@)
                },
            },
    {
        let id = match get_field(schema, "id") {
            Ok(field) => field,
            Err(fault) => {
                return Err(fault);
            },
        };
        let name = match get_field(schema, "name") {
            Ok(field) => field,
            Err(fault) => {
                return Err(fault);
            },
        };
        let description = match get_field(schema, "description") {
            Ok(field) => field,
            Err(fault) => {
                return Err(fault);
            },
        };
        let tags = match get_field(schema, "tags") {
            Ok(field) => field,
            Err(fault) => {
                return Err(fault);
            },
        };
        Ok(BookmarkDocumentFields::new(id, name, description, tags))
    }
}

/// In the schema of the four names, the handles of the fields are their
/// positions: 0 for the identifier, then name, description and tags.
pub proof fn handles_are_positions(fields: BookmarkDocumentFields)
    requires
        fields.found_in(bookmark_field_names()),
    ensures
        fields == handles(),
{
    field_names_are_distinct();
    let names = bookmark_field_names();
    assert(names[0] == "id"@ && names[1] == "name"@ && names[2] == "description"@ && names[3]
        == "tags"@);
    reveal_strlit("id");
    reveal_strlit("name");
    reveal_strlit("description");
    reveal_strlit("tags");
    assert("name"@[0] != "tags"@[0]);
}

/// The most that the texts of one document may take, in bytes.
pub const DOCUMENT_LIMIT: usize = 0xFFFF_FFFF;

/// The values that the tags of a bookmark give: one for each tag, in their
/// order, all under the same field.
pub open spec fn tag_values(field: u32, tags: Seq<Seq<char>>) -> Seq<(u32, Option<Seq<char>>)> {
    tags.map_values(|tag: Seq<char>| (field, Some(tag)))
}

/// The values that stand before the tags: the identifier in its hyphenated
/// form, the name, and the description where there is one.
pub open spec fn leading_values(fields: BookmarkDocumentFields, bookmark: BookmarkView) -> Seq<
    (u32, Option<Seq<char>>),
> {
    let first = seq![(fields.id, Some(id_text(bookmark.id))), (fields.name, Some(bookmark.name))];
    match bookmark.description {
        Some(description) => first.push((fields.description, Some(description))),
        None => first,
    }
}

/// The document that a bookmark is indexed as.
pub open spec fn document_of(fields: BookmarkDocumentFields, bookmark: BookmarkView) -> Seq<
    (u32, Option<Seq<char>>),
> {
    leading_values(fields, bookmark) + tag_values(fields.tags, bookmark.tags)
}

/// The documents that a list of bookmarks is indexed as, in the same order.
pub open spec fn documents_of(fields: BookmarkDocumentFields, bookmarks: Seq<BookmarkView>) -> Seq<
    Seq<(u32, Option<Seq<char>>)>,
> {
    bookmarks.map_values(|bookmark: BookmarkView| document_of(fields, bookmark))
}

/// The texts of the bookmark are few enough for one document.
pub open spec fn fits(fields: BookmarkDocumentFields, bookmark: BookmarkView) -> bool {
    stored_size(document_of(fields, bookmark)) <= DOCUMENT_LIMIT
}

/// The first values of a list take no more than the whole list.
pub proof fn stored_size_of_prefix(values: Seq<(u32, Option<Seq<char>>)>, n: int)
    requires
        0 <= n <= values.len(),
    ensures
        stored_size(values.take(n)) <= stored_size(values),
    decreases values.len(),
{
    if n == values.len() {
        assert(values.take(n) =~= values);
    } else {
        stored_size_of_prefix(values.drop_last(), n);
        assert(values.drop_last().take(n) =~= values.take(n));
    }
}

/// A text more takes its own bytes more.
pub proof fn stored_size_of_push(values: Seq<(u32, Option<Seq<char>>)>, field: u32, text: Seq<char>)
    ensures
        stored_size(values.push((field, Some(text)))) == stored_size(values) + stored_len(text),
{
    assert(values.push((field, Some(text))).drop_last() =~= values);
}

/// Adds a text to a document that holds `used` bytes, if the document has
/// room for it.
fn add_value(document: &mut tantivy::TantivyDocument, used: &mut usize, field: u32, text: &str) -> (added:
    bool)
    requires
        field <= 0xFFFF,
        all_text(document_values(*old(document))),
        *old(used) == stored_size(document_values(*old(document))),
        *old(used) <= DOCUMENT_LIMIT,
    ensures
        added == (stored_size(document_values(*old(document))) + stored_len(text@)
            <= DOCUMENT_LIMIT),
        added ==> document_values(*final(document)) == document_values(*old(document)).push(
            (field, Some(text@)),
        ),
        !added ==> document_values(*final(document)) == document_values(*old(document)),
        all_text(document_values(*final(document))),
        *final(used) == stored_size(document_values(*final(document))),
        *final(used) <= DOCUMENT_LIMIT,
{
    let room = DOCUMENT_LIMIT - *used;
    let length = text.as_bytes().len();
    if room < 5 || length > room - 5 {
        return false;
    }
    let ghost before = document_values(*document);
    add_text(document, field, text);
    *used = *used + length + 5;
    proof {
        stored_size_of_push(before, field, text@);
    }
    true
}

/// The document that a bookmark is indexed as: its identifier in
/// hyphenated form, its name, its description if it has one, and each of its
/// tags as a value of its own. There is none where the texts are more than
/// a document can hold.
pub fn bookmark_document(fields: &BookmarkDocumentFields, bookmark: &Bookmark) -> (built: Option<
    tantivy::TantivyDocument,
>)
    requires
        fields.within(0x1_0000),
    ensures
        built is Some <==> fits(*fields, bookmark@),
        built matches Some(document) ==> document_values(document) == document_of(
            *fields,
            bookmark@,
        ),
        built is Some ==> parsed_id(id_text(bookmark@.id)) == Some(bookmark@.id),
{
    let ghost leading = leading_values(*fields, bookmark@);
    let ghost whole = document_of(*fields, bookmark@);
    let mut document = new_document();
    let mut used: usize = 0;
    proof {
        assert(whole.take(0) =~= document_values(document));
    }
    let id_part = format_id(bookmark.id());
    if !add_value(&mut document, &mut used, fields.id, id_part.as_str()) {
        proof {
            assert(whole.take(1) =~= whole.take(0).push((fields.id, Some(id_part@))));
            stored_size_of_push(whole.take(0), fields.id, id_part@);
            stored_size_of_prefix(whole, 1);
        }
        return None;
    }
    assert(document_values(document) =~= whole.take(1));
    if !add_value(&mut document, &mut used, fields.name, bookmark.name().as_str()) {
        proof {
            assert(whole.take(2) =~= whole.take(1).push((fields.name, Some(bookmark@.name))));
            stored_size_of_push(whole.take(1), fields.name, bookmark@.name);
            stored_size_of_prefix(whole, 2);
        }
        return None;
    }
    assert(document_values(document) =~= whole.take(2));
    match bookmark.description() {
        Some(description) => {
            if !add_value(&mut document, &mut used, fields.description, description.as_str()) {
                proof {
                    assert(whole.take(3) =~= whole.take(2).push(
                        (fields.description, Some(description@)),
                    ));
                    stored_size_of_push(whole.take(2), fields.description, description@);
                    stored_size_of_prefix(whole, 3);
                }
                return None;
            }
            assert(document_values(document) =~= whole.take(3));
        },
        None => {},
    }
    assert(document_values(document) =~= whole.take(leading.len() as int));
    let tags = bookmark.tags();
    let mut i: usize = 0;
    while i < tags.len()
        invariant
            i <= tags.len(),
            fields.within(0x1_0000),
            texts(tags@) == bookmark@.tags,
            leading == leading_values(*fields, bookmark@),
            whole == document_of(*fields, bookmark@),
            document_values(document) == whole.take(leading.len() + i),
            all_text(document_values(document)),
            used == stored_size(document_values(document)),
            used <= DOCUMENT_LIMIT,
        decreases tags.len() - i,
    {
        let ghost next = leading.len() + i;
        proof {
            assert(bookmark@.tags[i as int] == tags@[i as int]@);
            assert(whole[next] == (fields.tags, Some(tags@[i as int]@)));
            assert(whole.take(next + 1) =~= whole.take(next).push(
                (fields.tags, Some(tags@[i as int]@)),
            ));
        }
        if !add_value(&mut document, &mut used, fields.tags, tags[i].as_str()) {
            proof {
                stored_size_of_push(whole.take(next), fields.tags, tags@[i as int]@);
                stored_size_of_prefix(whole, next + 1);
            }
            return None;
        }
        i += 1;
    }
    assert(whole.take(leading.len() + i) =~= whole);
    Some(document)
}

/// Of the document of a bookmark, an index of the four fields gives back
/// the identifier and nothing else.
pub proof fn only_the_identifier_is_stored(bookmark: BookmarkView)
    ensures
        stored_values(bookmark_fields(), document_of(handles(), bookmark)) == seq![
            (0u32, Some(id_text(bookmark.id))),
        ],
{
    let kept = |value: (u32, Option<Seq<char>>)| is_stored(bookmark_fields(), value.0);
    let leading = leading_values(handles(), bookmark);
    let tags = tag_values(3u32, bookmark.tags);
    let id_value = (0u32, Some(id_text(bookmark.id)));
    let name_value = (1u32, Some(bookmark.name));
    assert(kept(id_value));
    assert(!kept(name_value));
    assert(bookmark_fields()[3].1 is Text);
    assert(tags.all(|value: (u32, Option<Seq<char>>)| !kept(value))) by {
        assert forall|i: int| 0 <= i < tags.len() implies !kept(#[trigger] tags[i]) by {
            assert(tags[i].0 == 3u32);
        }
    }
    tags.lemma_all_neg_filter_empty(kept);
    let first = seq![id_value, name_value];
    assert(first.filter(kept) =~= seq![id_value]) by {
        reveal_with_fuel(Seq::filter, 3);
        assert(first.drop_last() =~= seq![id_value]);
        assert(seq![id_value].drop_last() =~= Seq::<(u32, Option<Seq<char>>)>::empty());
    }
    assert(leading.filter(kept) =~= seq![id_value]) by {
        match bookmark.description {
            Some(description) => {
                let value = (2u32, Some(description));
                assert(!kept(value));
                assert(leading == first.push(value));
                first.lemma_filter_push(value, kept);
            },
            None => {},
        }
    }
    Seq::filter_distributes_over_add(leading, tags, kept);
    assert(leading.filter(kept) + tags.filter(kept) =~= seq![id_value]);
}

/// Of the values that an index gives back for the document of a bookmark,
/// the identifier that they carry is what the text of the bookmark's
/// identifier denotes.
pub proof fn stored_values_carry_the_identifier(bookmark: BookmarkView)
    ensures
        identifier_among(stored_values(bookmark_fields(), document_of(handles(), bookmark)))
            == parsed_id(id_text(bookmark.id)),
{
    only_the_identifier_is_stored(bookmark);
    let values = seq![(0u32, Some(id_text(bookmark.id)))];
    reveal_with_fuel(identifier_among, 2);
    assert(values.drop_first() =~= Seq::<(u32, Option<Seq<char>>)>::empty());
}

/// The identifier that the values of a hit carry: that of the first text
/// among them that denotes one.
pub open spec fn identifier_among(values: Seq<(u32, Option<Seq<char>>)>) -> Option<u128>
    decreases values.len(),
{
    if values.len() == 0 {
        None
    } else {
        match values.first().1 {
            Some(text) => match parsed_id(text) {
                Some(id) => Some(id),
                None => identifier_among(values.drop_first()),
            },
            None => identifier_among(values.drop_first()),
        }
    }
}

/// The identifier that the values of a hit carry.
pub fn hit_identifier(values: &Vec<(u32, Option<String>)>) -> (id: Option<u128>)
    ensures
        id == identifier_among(value_views(values@)),
{
    let ghost all = value_views(values@);
    let mut i: usize = 0;
    assert(all.skip(0) =~= all);
    while i < values.len()
        invariant
            i <= values.len(),
            all == value_views(values@),
            identifier_among(all) == identifier_among(all.skip(i as int)),
        decreases values.len() - i,
    {
        proof {
            let rest = all.skip(i as int);
            assert(rest.first() == all[i as int]);
            assert(rest.drop_first() =~= all.skip(i as int + 1));
        }
        match &values[i].1 {
            Some(text) => {
                match parse_id(text.as_str()) {
                    Some(id) => {
                        return Some(id);
                    },
                    None => {},
                }
            },
            None => {},
        }
        i += 1;
    }
    assert(all.skip(i as int).len() == 0);
    None
}

} // verus!
