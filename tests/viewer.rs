use sqlite_viewer::error::DecodeError;
use sqlite_viewer::parts::{Part, Parts};
use sqlite_viewer::viewer::Viewer;

fn db(version: u32) -> Vec<u8> {
    let mut b = vec![0u8; 120];
    b[..16].copy_from_slice(b"SQLite format 3\0");
    b[96..100].copy_from_slice(&version.to_be_bytes());
    b
}

fn catalog() -> Vec<(String, Vec<u8>)> {
    vec![
        ("Simple".to_string(), db(3035005)),
        ("Big Page".to_string(), db(3045001)),
        ("Broken".to_string(), vec![1, 2, 3]),
    ]
}

#[test]
fn viewer_selects_by_name() {
    let v = Viewer::new_from_included(catalog(), "Big Page").unwrap();
    assert_eq!(v.parts.len(), 1);
    let Part::Header(h) = v.first_part();
    assert_eq!(h.sqlite_version_number, 3045001);
    assert_eq!(v.first_part().label(), "Database Header");
}

#[test]
fn viewer_lists_names_in_order() {
    let v = Viewer::new_from_included(catalog(), "Simple").unwrap();
    assert_eq!(v.included_dbnames(), vec!["Simple", "Big Page", "Broken"]);
}

#[test]
fn viewer_reports_decode_errors() {
    let err = Viewer::new_from_included(catalog(), "Broken").unwrap_err();
    assert_eq!(err, DecodeError::Truncated);
}
