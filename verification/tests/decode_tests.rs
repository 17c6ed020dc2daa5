use iphoto_catalog::decode::{
    decode_album, decode_key_list, decode_library, decode_master, decode_text, decode_u64,
};
use iphoto_catalog::error::{DecodeError, FieldName};
use iphoto_catalog::time::TimeInterval;
use iphoto_catalog::value::Value;

fn entry(key: &str, v: Value) -> (String, Value) {
    (key.to_string(), v)
}

fn text(s: &str) -> Value {
    Value::Text(s.to_string())
}

fn zero_interval() -> Value {
    Value::Real(TimeInterval { whole: 0, frac_nanos: 0 })
}

fn album_node() -> Value {
    Value::Dictionary(vec![
        entry("AlbumId", Value::Integer(1)),
        entry("AlbumName", text(" Trip/2020 ")),
        entry("KeyList", Value::Sequence(vec![text("k1")])),
    ])
}

fn master_node() -> Value {
    Value::Dictionary(vec![
        entry("ImagePath", text("/photos/a.jpg")),
        entry("DateAsTimerIntervalGMT", zero_interval()),
        entry("ModDateAsTimerInterval", zero_interval()),
        entry("Caption", text("")),
        entry("Comment", text("")),
    ])
}

fn library_node() -> Value {
    Value::Dictionary(vec![
        entry("Application Version", text("9.6")),
        entry("Archive Path", text("/photos/library")),
        entry("ArchiveId", text("A1")),
        entry("Major Version", Value::Integer(2)),
        entry("Minor Version", Value::Integer(0)),
        entry("List of Albums", Value::Sequence(vec![album_node()])),
        entry("Master Image List", Value::Dictionary(vec![entry("k1", master_node())])),
    ])
}

#[test]
fn minimal_library_decodes() {
    let lib = decode_library(&library_node()).unwrap();
    assert_eq!(lib.application_version, "9.6");
    assert_eq!(lib.archive_path, "/photos/library");
    assert_eq!(lib.archive_id, "A1");
    assert_eq!(lib.major_version, 2);
    assert_eq!(lib.minor_version, 0);
    assert_eq!(lib.albums.len(), 1);
    let album = &lib.albums[0];
    assert_eq!(album.id, 1);
    assert_eq!(album.name, "Trip2020");
    assert_eq!(album.images, vec!["k1".to_string()]);
    assert_eq!(lib.master_images.len(), 1);
    let master = lib.get_master("k1").unwrap();
    assert_eq!(master.path, "/photos/a.jpg");
    // 2001-01-01T00:00:00 UTC, as seconds since the 1970 epoch.
    assert_eq!(master.creation_date.unix_seconds, 978307200);
    assert_eq!(master.creation_date.nanoseconds, 0);
    assert_eq!(master.modification_date.unix_seconds, 978307200);
    assert_eq!(master.caption, "");
    assert_eq!(master.comment, "");
}

#[test]
fn missing_album_id_fails_whole_decode() {
    let album = Value::Dictionary(vec![
        entry("AlbumName", text("Trip")),
        entry("KeyList", Value::Sequence(vec![text("k1")])),
    ]);
    let root = Value::Dictionary(vec![
        entry("Application Version", text("9.6")),
        entry("Archive Path", text("/photos/library")),
        entry("ArchiveId", text("A1")),
        entry("Major Version", Value::Integer(2)),
        entry("Minor Version", Value::Integer(0)),
        entry("List of Albums", Value::Sequence(vec![album])),
        entry("Master Image List", Value::Dictionary(vec![])),
    ]);
    let err = decode_library(&root).unwrap_err();
    assert_eq!(err, DecodeError::MissingField(FieldName::AlbumId));
}

#[test]
fn scalar_key_list_is_a_type_mismatch() {
    let album = Value::Dictionary(vec![
        entry("AlbumId", Value::Integer(1)),
        entry("AlbumName", text("Trip")),
        entry("KeyList", text("k1")),
    ]);
    let err = decode_album(&album).unwrap_err();
    assert_eq!(err, DecodeError::TypeMismatch(FieldName::KeyList));
}

#[test]
fn album_decodes_alone() {
    let album = decode_album(&album_node()).unwrap();
    assert_eq!(album.id, 1);
    assert_eq!(album.name, "Trip2020");
    assert_eq!(album.images, vec!["k1".to_string()]);
}

#[test]
fn master_decodes_alone() {
    let master = decode_master(&master_node()).unwrap();
    assert_eq!(master.path, "/photos/a.jpg");
    assert_eq!(master.creation_date.unix_seconds, 978307200);
}

#[test]
fn key_list_order_is_preserved() {
    let node = Value::Sequence(vec![text("b"), text("a"), text("c")]);
    let keys = decode_key_list(&node, FieldName::KeyList).unwrap();
    assert_eq!(keys, vec!["b".to_string(), "a".to_string(), "c".to_string()]);
}

#[test]
fn key_list_with_non_text_element_fails() {
    let node = Value::Sequence(vec![text("a"), Value::Integer(3)]);
    let err = decode_key_list(&node, FieldName::KeyList).unwrap_err();
    assert_eq!(err, DecodeError::TypeMismatch(FieldName::KeyList));
}

#[test]
fn negative_integer_field_overflows() {
    let err = decode_u64(&Value::Integer(-1), FieldName::AlbumId).unwrap_err();
    assert_eq!(err, DecodeError::Overflow(FieldName::AlbumId));
}

#[test]
fn large_integer_field_decodes() {
    let id = decode_u64(&Value::Integer(i64::MAX), FieldName::AlbumId).unwrap();
    assert_eq!(id, i64::MAX as u64);
}

#[test]
fn text_field_of_wrong_shape_fails() {
    let err = decode_text(&Value::Integer(3), FieldName::Caption).unwrap_err();
    assert_eq!(err, DecodeError::TypeMismatch(FieldName::Caption));
}

#[test]
fn non_dictionary_root_fails() {
    let err = decode_library(&Value::Integer(1)).unwrap_err();
    assert_eq!(err, DecodeError::TypeMismatch(FieldName::LibraryRoot));
}

#[test]
fn unknown_extra_keys_are_ignored() {
    let mut entries = vec![entry("Unused", Value::Integer(7))];
    if let Value::Dictionary(known) = album_node() {
        entries.extend(known);
    }
    let album = decode_album(&Value::Dictionary(entries)).unwrap();
    assert_eq!(album.id, 1);
}

#[test]
fn first_entry_wins_on_duplicate_keys() {
    let node = Value::Dictionary(vec![
        entry("AlbumId", Value::Integer(1)),
        entry("AlbumId", Value::Integer(2)),
        entry("AlbumName", text("Trip")),
        entry("KeyList", Value::Sequence(vec![])),
    ]);
    let album = decode_album(&node).unwrap();
    assert_eq!(album.id, 1);
}

#[test]
fn bad_timestamp_fraction_fails_master() {
    let node = Value::Dictionary(vec![
        entry("ImagePath", text("/p.jpg")),
        entry(
            "DateAsTimerIntervalGMT",
            Value::Real(TimeInterval { whole: 0, frac_nanos: 2_000_000_000 }),
        ),
        entry("ModDateAsTimerInterval", zero_interval()),
        entry("Caption", text("")),
        entry("Comment", text("")),
    ]);
    let err = decode_master(&node).unwrap_err();
    assert_eq!(err, DecodeError::Overflow(FieldName::DateAsTimerIntervalGmt));
}

#[test]
fn referential_integrity_check() {
    let lib = decode_library(&library_node()).unwrap();
    assert!(lib.check_referential_integrity());
}

#[test]
fn dangling_image_key_fails_integrity_check() {
    let album = Value::Dictionary(vec![
        entry("AlbumId", Value::Integer(1)),
        entry("AlbumName", text("Trip")),
        entry("KeyList", Value::Sequence(vec![text("missing")])),
    ]);
    let root = Value::Dictionary(vec![
        entry("Application Version", text("9.6")),
        entry("Archive Path", text("/photos/library")),
        entry("ArchiveId", text("A1")),
        entry("Major Version", Value::Integer(2)),
        entry("Minor Version", Value::Integer(0)),
        entry("List of Albums", Value::Sequence(vec![album])),
        entry("Master Image List", Value::Dictionary(vec![entry("k1", master_node())])),
    ]);
    let lib = decode_library(&root).unwrap();
    assert!(!lib.check_referential_integrity());
    assert!(lib.get_master("missing").is_none());
}

#[test]
fn error_reports_its_field() {
    let err = decode_library(&Value::Integer(1)).unwrap_err();
    assert_eq!(err.field(), FieldName::LibraryRoot);
    assert_eq!(FieldName::AlbumId.source_key(), "AlbumId");
    assert_eq!(FieldName::MasterImageList.source_key(), "Master Image List");
    assert_eq!(FieldName::LibraryRoot.source_key(), "");
}
