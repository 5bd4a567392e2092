use sqlite_viewer::bytefield::{read_be, read_text};
use sqlite_viewer::error::DecodeError;
use sqlite_viewer::header::{DBHeader, TextEncoding};
use sqlite_viewer::reader::Reader;

const MAGIC: &[u8; 16] = b"SQLite format 3\0";

fn sample_header() -> Vec<u8> {
    let mut b = vec![0u8; 100];
    b[..16].copy_from_slice(MAGIC);
    b[16..18].copy_from_slice(&[0x10, 0x00]);
    b[18] = 1;
    b[19] = 1;
    b[20] = 0;
    b[21] = 64;
    b[22] = 32;
    b[23] = 32;
    b[24..28].copy_from_slice(&7u32.to_be_bytes());
    b[28..32].copy_from_slice(&2u32.to_be_bytes());
    b[40..44].copy_from_slice(&1u32.to_be_bytes());
    b[44..48].copy_from_slice(&4u32.to_be_bytes());
    b[56..60].copy_from_slice(&1u32.to_be_bytes());
    b[60..64].copy_from_slice(&0x01020304u32.to_be_bytes());
    b[92..96].copy_from_slice(&7u32.to_be_bytes());
    b[96..100].copy_from_slice(&3035005u32.to_be_bytes());
    b
}

#[test]
fn decode_reads_every_field_at_its_offset() {
    let h = DBHeader::decode(&sample_header()).unwrap();
    assert_eq!(h.header, "SQLite format 3\0");
    assert_eq!(h.page_size, 4096);
    assert_eq!(h.write_version, 1);
    assert_eq!(h.read_version, 1);
    assert_eq!(h.reserved_page_size, 0);
    assert_eq!(h.max_embeded_payload_fraction, 64);
    assert_eq!(h.min_embeded_payload_fraction, 32);
    assert_eq!(h.leaf_payload_fraction, 32);
    assert_eq!(h.file_change_counter, 7);
    assert_eq!(h.db_size, 2);
    assert_eq!(h.schema_cookie, 1);
    assert_eq!(h.schema_format, 4);
    assert_eq!(h.text_encoding, 1);
    assert_eq!(h.user_version, 0x01020304);
    assert_eq!(h.expansion_reserved, [0u8; 20]);
    assert_eq!(h.version_valid_for, 7);
    assert_eq!(h.sqlite_version_number, 3035005);
}

#[test]
fn decode_is_deterministic() {
    let b = sample_header();
    let h1 = DBHeader::decode(&b).unwrap();
    let h2 = DBHeader::decode(&b).unwrap();
    assert_eq!(format!("{:?}", h1), format!("{:?}", h2));
}

#[test]
fn decode_99_bytes_is_truncated() {
    let b = sample_header();
    assert_eq!(DBHeader::decode(&b[..99]).unwrap_err(), DecodeError::Truncated);
    assert_eq!(DBHeader::decode(&[]).unwrap_err(), DecodeError::Truncated);
}

#[test]
fn decode_reads_only_the_first_100_bytes() {
    let mut b = sample_header();
    b.extend_from_slice(&[0xFF; 28]);
    let h = DBHeader::decode(&b).unwrap();
    assert_eq!(h.sqlite_version_number, 3035005);
}

#[test]
fn decode_rejects_non_utf8_magic() {
    let mut b = sample_header();
    b[3] = 0xFF;
    assert_eq!(DBHeader::decode(&b).unwrap_err(), DecodeError::InvalidUtf8);
}

#[test]
fn decode_keeps_malformed_values() {
    let mut b = sample_header();
    b[..16].copy_from_slice(b"Not a database!!");
    b[21] = 99;
    b[72] = 0xAB;
    b[56..60].copy_from_slice(&9u32.to_be_bytes());
    let h = DBHeader::decode(&b).unwrap();
    assert_eq!(h.header, "Not a database!!");
    assert_eq!(h.max_embeded_payload_fraction, 99);
    assert_eq!(h.expansion_reserved[0], 0xAB);
    assert_eq!(h.text_encoding, 9);
}

#[test]
fn page_size_sentinel_is_reported_raw() {
    let mut b = sample_header();
    b[16..18].copy_from_slice(&[0x00, 0x01]);
    let h = DBHeader::decode(&b).unwrap();
    assert_eq!(h.page_size, 1);
    assert_eq!(h.logical_page_size(), 65536);
}

#[test]
fn logical_page_size_of_ordinary_sizes() {
    let mut b = sample_header();
    b[16..18].copy_from_slice(&[0x80, 0x00]);
    let h = DBHeader::decode(&b).unwrap();
    assert_eq!(h.logical_page_size(), 32768);
    b[16..18].copy_from_slice(&[0x02, 0x00]);
    let h = DBHeader::decode(&b).unwrap();
    assert_eq!(h.logical_page_size(), 512);
}

#[test]
fn new_copies_the_reserved_slice() {
    let reserved: Vec<u8> = (1..=20).collect();
    let h = DBHeader::new(
        "x".to_string(), 512, 1, 2, 3, 64, 32, 32, 10, 11, 12, 13, 14, 4, 15, 16, 2, 17, 0, 18,
        &reserved, 19, 3045000,
    );
    assert_eq!(h.expansion_reserved.to_vec(), reserved);
    assert_eq!(h.page_size, 512);
    assert_eq!(h.read_version, 2);
    assert_eq!(h.text_encoding, 2);
    assert_eq!(h.sqlite_version_number, 3045000);
}

#[test]
fn read_be_widths() {
    let b = [0x12u8, 0x34, 0x56, 0x78, 0x9A];
    assert_eq!(read_be(&b, 0, 1), Ok(0x12));
    assert_eq!(read_be(&b, 0, 2), Ok(0x1234));
    assert_eq!(read_be(&b, 1, 4), Ok(0x3456789A));
    assert_eq!(read_be(&b, 4, 1), Ok(0x9A));
    assert_eq!(read_be(&b, 2, 4), Err(DecodeError::Truncated));
    assert_eq!(read_be(&b, 5, 1), Err(DecodeError::Truncated));
    assert_eq!(read_be(&b, usize::MAX, 2), Err(DecodeError::Truncated));
}

#[test]
fn read_text_cases() {
    let b = b"abc\xFFdef";
    assert_eq!(read_text(b, 0, 3), Ok("abc".to_string()));
    assert_eq!(read_text(b, 4, 3), Ok("def".to_string()));
    assert_eq!(read_text(b, 2, 2), Err(DecodeError::InvalidUtf8));
    assert_eq!(read_text(b, 5, 3), Err(DecodeError::Truncated));
}

#[test]
fn encoding_code_round_trip() {
    for c in 1u32..=3 {
        assert_eq!(TextEncoding::from_code(c).unwrap().to_code(), c);
    }
    for e in [TextEncoding::UTF8, TextEncoding::UTF16le, TextEncoding::UTF16be] {
        assert_eq!(TextEncoding::from_code(e.to_code()), Ok(e));
    }
}

#[test]
fn unknown_encoding_codes_fail() {
    for c in [0u32, 4, 5, 255, u32::MAX] {
        assert_eq!(TextEncoding::from_code(c), Err(DecodeError::UnknownEncoding(c)));
    }
}

#[test]
fn encoding_names_and_bytes() {
    assert_eq!(TextEncoding::UTF8.name(), "UTF-8");
    assert_eq!(TextEncoding::UTF16le.name(), "UTF-16 LE");
    assert_eq!(TextEncoding::UTF16be.name(), "UTF-16 BE");
    assert_eq!(TextEncoding::UTF8.to_be_bytes(), [0, 0, 0, 1]);
    assert_eq!(TextEncoding::UTF16le.to_be_bytes(), [0, 0, 0, 2]);
    assert_eq!(TextEncoding::UTF16be.to_be_bytes(), [0, 0, 0, 3]);
}

#[test]
fn reader_shares_the_decoded_header() {
    let r = Reader::new(&sample_header()).unwrap();
    assert_eq!(r.header.page_size, 4096);
    assert_eq!(Reader::new(&[0u8; 50]).unwrap_err(), DecodeError::Truncated);
}
