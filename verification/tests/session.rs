use exif_session::codec::{extract_from_bytes, CodecError, TagEntry};
use exif_session::collection::{Direction, DirectoryError};
use exif_session::dictionary::TagDictionary;
use exif_session::session::{EditError, EditRequest, MetadataSession};

/// A minimal little-endian TIFF whose primary IFD holds two ASCII tags:
/// ImageDescription = "test" and Make = "acme".
fn tiff_with_two_tags() -> Vec<u8> {
    let mut bytes: Vec<u8> = Vec::new();
    bytes.extend_from_slice(b"II"); // little-endian
    bytes.extend_from_slice(&42u16.to_le_bytes());
    bytes.extend_from_slice(&8u32.to_le_bytes()); // IFD offset
    bytes.extend_from_slice(&2u16.to_le_bytes()); // two entries
    // ImageDescription (0x010e), ASCII, 5 bytes at offset 38
    bytes.extend_from_slice(&0x010eu16.to_le_bytes());
    bytes.extend_from_slice(&2u16.to_le_bytes());
    bytes.extend_from_slice(&5u32.to_le_bytes());
    bytes.extend_from_slice(&38u32.to_le_bytes());
    // Make (0x010f), ASCII, 5 bytes at offset 43
    bytes.extend_from_slice(&0x010fu16.to_le_bytes());
    bytes.extend_from_slice(&2u16.to_le_bytes());
    bytes.extend_from_slice(&5u32.to_le_bytes());
    bytes.extend_from_slice(&43u32.to_le_bytes());
    bytes.extend_from_slice(&0u32.to_le_bytes()); // no next IFD
    bytes.extend_from_slice(b"test\0");
    bytes.extend_from_slice(b"acme\0");
    bytes
}

fn names(table: &Vec<TagEntry>) -> Vec<String> {
    table.iter().map(|e| e.name.clone()).collect()
}

fn browsing_session(paths: &[&str]) -> MetadataSession {
    let mut s = MetadataSession::new(TagDictionary::empty());
    let listing: Vec<String> = paths.iter().map(|p| p.to_string()).collect();
    s.open_directory(Ok(listing)).unwrap();
    s
}

#[test]
fn extraction_fills_the_table_in_container_order() {
    let data = tiff_with_two_tags();
    let table = extract_from_bytes(&data).unwrap();
    assert_eq!(names(&table), vec!["ImageDescription", "Make"]);
    assert_eq!(table[0].value, "\"test\"");
    assert_eq!(table[0].display_value, "\"test\"");
    assert_eq!(table[1].value, "\"acme\"");
}

#[test]
fn unparseable_bytes_are_a_recoverable_error() {
    assert_eq!(
        extract_from_bytes(b"not an image at all").unwrap_err(),
        CodecError::Unparseable
    );
}

#[test]
fn display_value_is_capped_at_fifty_characters() {
    let long: String = "x".repeat(60);
    let e = TagEntry::new("Exif.Image.Model".to_string(), long.clone());
    assert_eq!(e.value, long);
    assert_eq!(e.display_value.chars().count(), 50);
    assert_eq!(e.display_value, "x".repeat(50));
    let short = TagEntry::new("Exif.Image.Make".to_string(), "acme".to_string());
    assert_eq!(short.display_value, "acme");
}

#[test]
fn open_directory_extract_and_navigate() {
    let mut s = browsing_session(&["a.jpg", "b.png"]);
    assert_eq!(s.current(), Some("a.jpg".to_string()));
    assert!(s.table().is_empty());

    let path = s.current().unwrap();
    s.commit_extraction(&path, Some(&tiff_with_two_tags()));
    assert_eq!(names(s.table()), vec!["ImageDescription", "Make"]);

    let next = s.navigate(Direction::Next).unwrap();
    assert_eq!(next, "b.png");
    assert!(s.table().is_empty());
}

#[test]
fn stale_extraction_is_discarded() {
    let mut s = browsing_session(&["a.jpg", "b.png"]);
    let old_path = s.current().unwrap();
    let new_path = s.navigate(Direction::Next).unwrap();
    s.commit_extraction(&new_path, Some(&tiff_with_two_tags()));
    let table_before: Vec<String> = names(s.table());
    // a late-arriving extraction for the path navigated away from
    s.commit_extraction(&old_path, None);
    assert_eq!(names(s.table()), table_before);
}

#[test]
fn unreadable_or_unparseable_image_gives_empty_table() {
    let mut s = browsing_session(&["a.jpg"]);
    let path = s.current().unwrap();
    s.commit_extraction(&path, None);
    assert!(s.table().is_empty());
    s.commit_extraction(&path, Some(b"garbage"));
    assert!(s.table().is_empty());
}

#[test]
fn failed_directory_listing_keeps_the_session_state() {
    let mut s = browsing_session(&["a.jpg"]);
    let r = s.open_directory(Err(DirectoryError::Unreadable));
    assert_eq!(r, Err(DirectoryError::Unreadable));
    assert_eq!(s.current(), Some("a.jpg".to_string()));
    assert_eq!(s.collection_len(), 1);
}

#[test]
fn navigate_on_empty_session_is_noop() {
    let mut s = MetadataSession::new(TagDictionary::empty());
    assert_eq!(s.navigate(Direction::Next), None);
    assert_eq!(s.navigate(Direction::Previous), None);
    assert_eq!(s.current(), None);
    assert!(s.table().is_empty());
    let mut opened = browsing_session(&["nothing.txt"]);
    assert_eq!(opened.collection_len(), 0);
    assert_eq!(opened.navigate(Direction::Next), None);
    assert!(opened.table().is_empty());
}

#[test]
fn empty_fields_are_rejected_before_any_file_access() {
    let s = browsing_session(&["a.jpg"]);
    let no_name = EditRequest { tag_name: "".to_string(), value: "1".to_string() };
    assert_eq!(s.submit_edit(&no_name), Err(EditError::EmptyField));
    let no_value = EditRequest { tag_name: "Exif.Image.Make".to_string(), value: "".to_string() };
    assert_eq!(s.submit_edit(&no_value), Err(EditError::EmptyField));
}

#[test]
fn edit_without_an_active_file_is_rejected() {
    let s = MetadataSession::new(TagDictionary::empty());
    let req = EditRequest { tag_name: "Exif.Image.Make".to_string(), value: "acme".to_string() };
    assert_eq!(s.submit_edit(&req), Err(EditError::NoActiveFile));
}

#[test]
fn submit_edit_resolves_the_current_path() {
    let s = browsing_session(&["a.jpg", "b.png"]);
    let req = EditRequest { tag_name: "Exif.Image.Make".to_string(), value: "acme".to_string() };
    assert_eq!(s.submit_edit(&req), Ok("a.jpg".to_string()));
}

#[test]
fn failed_write_leaves_the_table_untouched() {
    let mut s = browsing_session(&["a.jpg"]);
    let path = s.current().unwrap();
    s.commit_extraction(&path, Some(&tiff_with_two_tags()));
    let before = names(s.table());
    let r = s.commit_edit(&path, Err(CodecError::WriteFailed));
    assert_eq!(r, Err(CodecError::WriteFailed));
    assert_eq!(names(s.table()), before);
}

#[test]
fn successful_write_triggers_reextraction_of_the_same_path() {
    let mut s = browsing_session(&["a.jpg"]);
    let path = s.current().unwrap();
    s.commit_extraction(&path, Some(&tiff_with_two_tags()));
    let r = s.commit_edit(&path, Ok(()));
    assert_eq!(r, Ok(Some("a.jpg".to_string())));
    assert!(s.table().is_empty());
    s.commit_extraction(&path, Some(&tiff_with_two_tags()));
    assert_eq!(names(s.table()), vec!["ImageDescription", "Make"]);
}

#[test]
fn write_outcome_for_a_stale_path_changes_nothing() {
    let mut s = browsing_session(&["a.jpg", "b.png"]);
    let old_path = s.current().unwrap();
    let new_path = s.navigate(Direction::Next).unwrap();
    s.commit_extraction(&new_path, Some(&tiff_with_two_tags()));
    let before = names(s.table());
    let r = s.commit_edit(&old_path, Ok(()));
    assert_eq!(r, Ok(None));
    assert_eq!(names(s.table()), before);
}

#[test]
fn session_exposes_its_dictionary() {
    let d = TagDictionary::load_from_source(Some(r#"[{"tag": "Exif.Image.Make"}]"#));
    let s = MetadataSession::new(d);
    assert!(s.dictionary().contains("Exif.Image.Make"));
    assert_eq!(s.dictionary().suggest("Exif.").len(), 1);
}
