use poppler::{
    page_count_from_c, page_index_to_c, path_to_glib_url, take_c_owned_string, CText,
    DocumentSource, FileErrorKind, PagesIter, PopplerDocument, PopplerError,
    PopplerSelectionStyle,
};

fn assert_error(e: &PopplerError, kind: FileErrorKind, message: &str) {
    assert_eq!(e.kind, kind);
    assert_eq!(e.message, message);
}

const PASSWORD_MESSAGE: &str = "Password invalid (possibly contains NUL characters)";

#[test]
fn c_text_appends_one_nul() {
    let t = CText::new(b"ab").unwrap();
    assert_eq!(t.as_bytes_with_nul(), b"ab\0");
    let empty = CText::new(b"").unwrap();
    assert_eq!(empty.as_bytes_with_nul(), b"\0");
}

#[test]
fn c_text_refuses_interior_nul() {
    assert!(CText::new(b"a\0b").is_none());
    assert!(CText::new(b"\0").is_none());
    assert!(CText::new(b"abc\0").is_none());
}

#[test]
fn absent_password_is_the_empty_password() {
    let none = PopplerDocument::get_password(None).unwrap();
    let empty = PopplerDocument::get_password(Some("")).unwrap();
    assert_eq!(none.as_bytes_with_nul(), b"\0");
    assert_eq!(empty.as_bytes_with_nul(), none.as_bytes_with_nul());
}

#[test]
fn password_is_kept_as_c_text() {
    let pw = PopplerDocument::get_password(Some("s3cr\u{e9}t")).unwrap();
    assert_eq!(pw.as_bytes_with_nul(), "s3cr\u{e9}t\0".as_bytes());
}

#[test]
fn password_with_nul_is_refused() {
    let e = PopplerDocument::get_password(Some("pa\0ss")).unwrap_err();
    assert_error(&e, FileErrorKind::Inval, PASSWORD_MESSAGE);
}

#[test]
fn empty_data_is_refused_before_the_password() {
    let e = PopplerDocument::new_from_data(&[], None).unwrap_err();
    assert_error(&e, FileErrorKind::Inval, "data is empty");
    let e = PopplerDocument::new_from_data(&[], Some("a\0")).unwrap_err();
    assert_error(&e, FileErrorKind::Inval, "data is empty");
}

#[test]
fn data_document_keeps_a_copy_and_the_password() {
    let data = b"%PDF-1.4 body";
    let doc = PopplerDocument::new_from_data(data, Some("pw")).unwrap();
    match &doc.source {
        DocumentSource::Data { data: d } => assert_eq!(d.as_slice(), data),
        DocumentSource::File { .. } => panic!("expected a data source"),
    }
    assert_eq!(doc.pw.as_bytes_with_nul(), b"pw\0");
}

#[test]
fn data_document_with_nul_password_is_refused() {
    let e = PopplerDocument::new_from_data(b"%PDF", Some("x\0")).unwrap_err();
    assert_error(&e, FileErrorKind::Inval, PASSWORD_MESSAGE);
}

#[test]
fn missing_path_is_noent() {
    let e = path_to_glib_url(None).unwrap_err();
    assert_error(
        &e,
        FileErrorKind::Noent,
        "Could not turn path into canonical path. Maybe it does not exist?",
    );
}

#[test]
fn non_utf8_path_is_refused() {
    let e = path_to_glib_url(Some(b"/tmp/\xff.pdf")).unwrap_err();
    assert_error(&e, FileErrorKind::Inval, "Path invalid (contains non-utf8 characters)");
}

#[test]
fn nul_in_path_is_refused() {
    let e = path_to_glib_url(Some(b"/tmp/a\0b.pdf")).unwrap_err();
    assert_error(&e, FileErrorKind::Inval, "Path invalid (contains NUL characters)");
}

#[test]
fn non_utf8_is_reported_before_nul() {
    let e = path_to_glib_url(Some(b"/\xff\0")).unwrap_err();
    assert_error(&e, FileErrorKind::Inval, "Path invalid (contains non-utf8 characters)");
}

#[test]
fn file_uri_prefixes_the_canonical_path() {
    let uri = path_to_glib_url(Some(b"/home/user/test.pdf")).unwrap();
    assert_eq!(uri.as_bytes_with_nul(), b"file:////home/user/test.pdf\0");
    let uri = path_to_glib_url(Some("/d\u{f6}c.pdf".as_bytes())).unwrap();
    assert_eq!(uri.as_bytes_with_nul(), "file:////d\u{f6}c.pdf\0".as_bytes());
}

#[test]
fn file_document_checks_password_first() {
    let e = PopplerDocument::new_from_file(None, Some("a\0")).unwrap_err();
    assert_error(&e, FileErrorKind::Inval, PASSWORD_MESSAGE);
    let e = PopplerDocument::new_from_file(None, None).unwrap_err();
    assert_eq!(e.kind, FileErrorKind::Noent);
}

#[test]
fn file_document_keeps_uri_and_password() {
    let doc = PopplerDocument::new_from_file(Some(b"/x/test.pdf"), None).unwrap();
    match &doc.source {
        DocumentSource::File { uri } => {
            assert_eq!(uri.as_bytes_with_nul(), b"file:////x/test.pdf\0")
        }
        DocumentSource::Data { .. } => panic!("expected a file source"),
    }
    assert_eq!(doc.pw.as_bytes_with_nul(), b"\0");
}

#[test]
fn null_string_gives_none() {
    assert_eq!(take_c_owned_string(None), None);
}

#[test]
fn valid_utf8_string_is_kept() {
    assert_eq!(take_c_owned_string(Some(b"Title")), Some("Title".to_string()));
    assert_eq!(
        take_c_owned_string(Some("\u{9ed1}\u{98ce}".as_bytes())),
        Some("\u{9ed1}\u{98ce}".to_string())
    );
    assert_eq!(take_c_owned_string(Some(b"")), Some(String::new()));
}

#[test]
fn invalid_utf8_is_replaced() {
    assert_eq!(
        take_c_owned_string(Some(b"f\xffo")),
        Some("f\u{fffd}o".to_string())
    );
}

#[test]
fn page_index_wraps_like_c_int() {
    assert_eq!(page_index_to_c(0), 0);
    assert_eq!(page_index_to_c(7), 7);
    assert_eq!(page_index_to_c(i32::MAX as usize), i32::MAX);
    assert_eq!(page_index_to_c(i32::MAX as usize + 1), i32::MIN);
    assert_eq!(page_index_to_c(usize::MAX), -1);
}

#[test]
fn page_count_from_c_int() {
    assert_eq!(page_count_from_c(0), 0);
    assert_eq!(page_count_from_c(12), 12);
    assert_eq!(page_count_from_c(-1), usize::MAX);
}

#[test]
fn pages_yield_each_index_once() {
    let mut it = PagesIter::new(3);
    assert_eq!(it.next(), Some(0));
    assert_eq!(it.next(), Some(1));
    assert_eq!(it.next(), Some(2));
    assert_eq!(it.next(), None);
    assert_eq!(it.next(), None);
}

#[test]
fn no_pages_yield_nothing() {
    let mut it = PagesIter::new(0);
    assert_eq!(it.next(), None);
    assert_eq!(it.next(), None);
}

#[test]
fn selection_style_c_values() {
    assert_eq!(PopplerSelectionStyle::Glyph.c_value(), 0);
    assert_eq!(PopplerSelectionStyle::Word.c_value(), 1);
    assert_eq!(PopplerSelectionStyle::Line.c_value(), 2);
}

#[test]
fn error_carries_code_and_message() {
    let e = PopplerError::new(FileErrorKind::Noent, "gone");
    assert_error(&e, FileErrorKind::Noent, "gone");
}
