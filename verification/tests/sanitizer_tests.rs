use iphoto_catalog::name::sanitize_name;

#[test]
fn trims_and_removes_separators() {
    assert_eq!(sanitize_name("  My/Album/Name  "), "MyAlbumName");
}

#[test]
fn plain_name_unchanged() {
    assert_eq!(sanitize_name("Holiday 2020"), "Holiday 2020");
}

#[test]
fn empty_input_stays_empty() {
    assert_eq!(sanitize_name(""), "");
}

#[test]
fn all_whitespace_becomes_empty() {
    assert_eq!(sanitize_name(" \t\r\n "), "");
}

#[test]
fn only_separators_become_empty() {
    assert_eq!(sanitize_name("///"), "");
}

#[test]
fn idempotent_on_example() {
    let once = sanitize_name("  My/Album/Name  ");
    let twice = sanitize_name(&once);
    assert_eq!(twice, once);
}

#[test]
fn separator_protected_whitespace_survives_one_pass() {
    // Deleting separators happens after trimming, so a space hidden behind
    // a leading separator is kept by the first pass and only a second pass
    // would remove it.
    let once = sanitize_name("/ a");
    assert_eq!(once, " a");
    assert_eq!(sanitize_name(&once), "a");
}

#[test]
fn unicode_whitespace_is_trimmed() {
    assert_eq!(sanitize_name("\u{00A0}\u{3000}Trip\u{2003}"), "Trip");
}

#[test]
fn inner_whitespace_is_kept() {
    assert_eq!(sanitize_name("  a b  "), "a b");
}
