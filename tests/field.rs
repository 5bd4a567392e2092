use sqlite_viewer::field::{Field, Format, Value};
use sqlite_viewer::header::{DBHeader, TextEncoding};
use sqlite_viewer::parts::{Part, Parts};
use sqlite_viewer::text::{decimal, hex_string};

fn header_with_page_size(hi: u8, lo: u8) -> DBHeader {
    let mut b = vec![0u8; 100];
    b[..16].copy_from_slice(b"SQLite format 3\0");
    b[16] = hi;
    b[17] = lo;
    b[96..100].copy_from_slice(&3035005u32.to_be_bytes());
    DBHeader::decode(&b).unwrap()
}

fn is_hex_groups(s: &str, n: usize) -> bool {
    let c: Vec<char> = s.chars().collect();
    c.len() + 1 == 3 * n
        && c.iter().enumerate().all(|(i, ch)| {
            if i % 3 == 2 {
                *ch == ' '
            } else {
                ch.is_ascii_digit() || ('A'..='F').contains(ch)
            }
        })
}

#[test]
fn field_to_hex_works() {
    let field = Field::new(
        "Page size of the database, interpreted as a big-endian integer and must be a power of two between 512 and 32786, inclusive. Starting from version 3.7.1 page size of 65536 bytes is supported, but since it won't fit in a two-byte integer, big-endian magic number 1 is used to represent it: 0x00 0x01.",
        16,
        2,
        Value::Text("SQLite format 3\0".to_string()),
    );
    println!("{}", field.to_hex());
    assert_eq!(field.to_hex(), "53 51 4C 69 74 65 20 66 6F 72 6D 61 74 20 33 00");
}

#[test]
fn hex_width_by_type() {
    for v in [0u8, 9, 10, 255] {
        let h = Value::U8(v).to_hex();
        assert_eq!(h.len(), 2);
        assert!(is_hex_groups(&h, 1));
        assert!(is_hex_groups(&Value::Bool(v).to_hex(), 1));
    }
    assert_eq!(Value::U8(0x0A).to_hex(), "0A");
    for v in [0u16, 1, 0x0200, 0xBEEF, u16::MAX] {
        assert!(is_hex_groups(&Value::U16(v).to_hex(), 2));
    }
    assert_eq!(Value::U16(0xBEEF).to_hex(), "BE EF");
    for v in [0u32, 1, 3035005, u32::MAX] {
        assert!(is_hex_groups(&Value::U32(v).to_hex(), 4));
        assert!(is_hex_groups(&Value::Version(v).to_hex(), 4));
    }
    assert_eq!(Value::U32(0xDEADBEEF).to_hex(), "DE AD BE EF");
    assert_eq!(Value::Version(3035005).to_hex(), "00 2E 4F 7D");
    assert_eq!(Value::Encoding(TextEncoding::UTF16be).to_hex(), "00 00 00 03");
}

#[test]
fn hex_of_arrays_and_text() {
    assert_eq!(Value::Array(vec![]).to_hex(), "");
    assert_eq!(Value::Array(vec![1, 0xAB, 0xFF]).to_hex(), "01 AB FF");
    assert_eq!(Value::Text("é".to_string()).to_hex(), "C3 A9");
    assert_eq!(hex_string(&[0x00, 0x7F]), "00 7F");
}

#[test]
fn version_decomposition() {
    assert_eq!(Value::Version(3035005).to_display(), "3.35.5");
    assert_eq!(Value::Version(1000000).to_display(), "1.0.0");
    assert_eq!(Value::Version(7999999).to_display(), "7.999.999");
    assert_eq!(Value::Version(0).to_display(), "0.0.0");
    assert_eq!(Value::Version(u32::MAX).to_display(), "4294.967.295");
}

#[test]
fn display_by_type() {
    assert_eq!(Value::U8(0).to_display(), "0");
    assert_eq!(Value::U8(255).to_display(), "255");
    assert_eq!(Value::U16(32768).to_display(), "32768");
    assert_eq!(Value::U32(u32::MAX).to_display(), "4294967295");
    assert_eq!(Value::Bool(0).to_display(), "false");
    assert_eq!(Value::Bool(2).to_display(), "true");
    assert_eq!(Value::Array(vec![]).to_display(), "[]");
    assert_eq!(Value::Array(vec![1, 20, 255]).to_display(), "[1, 20, 255]");
    assert_eq!(Value::Text("a\"b".to_string()).to_display(), "\"a\\\"b\"");
    assert_eq!(Value::Encoding(TextEncoding::UTF16le).to_display(), "UTF-16 LE");
    assert_eq!(decimal(1000), "1000");
}

#[test]
fn magic_field_of_a_100_byte_header() {
    let h = header_with_page_size(0x10, 0x00);
    let fields = h.fields();
    assert_eq!(fields[0].value, Value::Text("SQLite format 3\0".to_string()));
    assert_eq!(fields[0].to_display(), "\"SQLite format 3\\0\"");
    assert_eq!(fields[0].to_hex(), "53 51 4C 69 74 65 20 66 6F 72 6D 61 74 20 33 00");
}

#[test]
fn page_size_field_hex_and_display() {
    let small = header_with_page_size(0x02, 0x00).fields();
    let big = header_with_page_size(0x80, 0x00).fields();
    assert_eq!(small[1].offset, 16);
    assert_eq!(small[1].size, 2);
    assert_eq!(small[1].to_hex(), "02 00");
    assert_eq!(big[1].to_hex(), "80 00");
    assert_eq!(small[1].to_display(), "512");
    assert_eq!(big[1].to_display(), "32768");
}

#[test]
fn page_size_sentinel_field_shows_raw_value() {
    let f = header_with_page_size(0x00, 0x01).fields();
    assert_eq!(f[1].value, Value::U16(1));
    assert_eq!(f[1].to_hex(), "00 01");
}

#[test]
fn fields_twice_are_equal() {
    let part = Part::Header(header_with_page_size(0x10, 0x00));
    assert_eq!(part.fields(), part.fields());
}

#[test]
fn header_fields_tile_the_region() {
    let fields = header_with_page_size(0x10, 0x00).fields();
    assert_eq!(fields.len(), 23);
    assert_eq!(fields[0].offset, 0);
    for w in fields.windows(2) {
        assert_eq!(w[0].offset + w[0].size, w[1].offset);
    }
    let last = &fields[22];
    assert_eq!(last.offset + last.size, 100);
    assert_eq!(last.value, Value::Version(3035005));
    assert_eq!(last.to_display(), "3.35.5");
    assert_eq!(fields[16].value, Value::U32(0));
}

#[test]
fn reserved_field_is_decoded_lossily() {
    let mut b = vec![0u8; 100];
    b[..16].copy_from_slice(b"SQLite format 3\0");
    b[72] = 0xFF;
    let h = DBHeader::decode(&b).unwrap();
    let f = &h.fields()[20];
    assert_eq!((f.offset, f.size), (72, 20));
    let expected: String = std::iter::once('\u{FFFD}').chain(std::iter::repeat('\0').take(19)).collect();
    assert_eq!(f.value, Value::Text(expected));
}

#[test]
fn part_label_and_description() {
    let h = header_with_page_size(0x10, 0x00);
    let part = Part::Header(h.clone());
    assert_eq!(part.label(), "Database Header");
    assert_eq!(h.label(), "Database Header");
    assert!(part.desc().starts_with("The first 100 bytes of the database file"));
    assert_eq!(part.desc(), h.desc());
}

#[test]
fn formatted_lines_by_format() {
    let f = Field::new("d", 16, 2, Value::U16(512));
    assert_eq!(f.formatted(Format::Hybrid), vec!["512".to_string(), "02 00".to_string()]);
    assert_eq!(f.formatted(Format::Hex), vec!["02 00".to_string()]);
    assert_eq!(f.formatted(Format::Text), vec!["512".to_string()]);
}
