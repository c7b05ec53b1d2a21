use tantivy::schema::Value;

use bookmarks::domain::bookmark::Bookmark;
use bookmarks::ports::search::indexed::document::{bookmark_document, BookmarkDocumentFields};

fn document_values_of(document: &tantivy::TantivyDocument) -> Vec<(u32, String)> {
    document
        .field_values()
        .map(|(field, value)| (field.field_id(), value.as_str().unwrap().to_string()))
        .collect()
}

#[test]
fn document_holds_identifier_name_description_and_each_tag() {
    let fields = BookmarkDocumentFields::new(0, 1, 2, 3);
    let bookmark = Bookmark::new(
        0x0123456789abcdef_fedcba9876543210,
        "https://github.com/BurntSushi/ripgrep".to_string(),
        "ripgrep".to_string(),
        Some("Recursively searches directories".to_string()),
        vec!["cli".to_string(), "search".to_string(), "cli".to_string()],
    );

    let document = bookmark_document(&fields, &bookmark).unwrap();

    assert_eq!(
        document_values_of(&document),
        vec![
            (0, "01234567-89ab-cdef-fedc-ba9876543210".to_string()),
            (1, "ripgrep".to_string()),
            (2, "Recursively searches directories".to_string()),
            (3, "cli".to_string()),
            (3, "search".to_string()),
            (3, "cli".to_string()),
        ]
    );
}

#[test]
fn document_without_description_and_tags_holds_two_values() {
    let fields = BookmarkDocumentFields::new(4, 7, 5, 6);
    let bookmark = Bookmark::new(
        1,
        "https://www.rust-lang.org".to_string(),
        "Rust".to_string(),
        None,
        vec![],
    );

    let document = bookmark_document(&fields, &bookmark).unwrap();

    assert_eq!(
        document_values_of(&document),
        vec![
            (4, "00000000-0000-0000-0000-000000000001".to_string()),
            (7, "Rust".to_string()),
        ]
    );
}

#[test]
fn document_does_not_hold_the_url() {
    let fields = BookmarkDocumentFields::new(0, 1, 2, 3);
    let bookmark = Bookmark::new(
        2,
        "https://unique-host.example".to_string(),
        "Name".to_string(),
        Some("Description".to_string()),
        vec!["tag".to_string()],
    );

    let document = bookmark_document(&fields, &bookmark).unwrap();

    assert!(document_values_of(&document)
        .iter()
        .all(|(_, text)| !text.contains("unique-host")));
}
