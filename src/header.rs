use crate::bytefield::{be_at, be_in, read_text};
use crate::error::DecodeError;
use vstd::prelude::*;
use vstd::utf8::*;

verus! {

/// Length of the header region at the start of a database file.
pub const HEADER_LEN: usize = 100;

/// The decoded database file header. Every multi-byte integer is stored
/// big-endian; the comment on each field gives its place in the region.
#[derive(Debug, Clone)]
pub struct DBHeader {
    /// Magic string, "SQLite format 3\0" in a well-formed file.
    /// offset: 0, size: 16
    pub header: String,
    /// Page size in bytes, a power of two from 512 to 32768; 1 stands for 65536.
    /// offset: 16, size: 2
    pub page_size: u16,
    /// File format write version: 1 for legacy, 2 for WAL.
    /// offset: 18, size: 1
    pub write_version: u8,
    /// File format read version: 1 for legacy, 2 for WAL.
    /// offset: 19, size: 1
    pub read_version: u8,
    /// Bytes of unused space reserved at the end of each page, usually 0.
    /// offset: 20, size: 1
    pub reserved_page_size: u8,
    /// Maximum embedded payload fraction, must be 64.
    /// offset: 21, size: 1
    pub max_embeded_payload_fraction: u8,
    /// Minimum embedded payload fraction, must be 32.
    /// offset: 22, size: 1
    pub min_embeded_payload_fraction: u8,
    /// Leaf payload fraction, must be 32.
    /// offset: 23, size: 1
    pub leaf_payload_fraction: u8,
    /// File change counter, incremented on each change of the file.
    /// offset: 24, size: 4
    pub file_change_counter: u32,
    /// Size of the database file in pages.
    /// offset: 28, size: 4
    pub db_size: u32,
    /// Page number of the first freelist trunk page.
    /// offset: 32, size: 4
    pub first_freelist_trunk_page_number: u32,
    /// Total number of freelist pages.
    /// offset: 36, size: 4
    pub total_number_of_freelist_pages: u32,
    /// The schema cookie, incremented when the schema changes.
    /// offset: 40, size: 4
    pub schema_cookie: u32,
    /// Schema format number: 1, 2, 3 or 4.
    /// offset: 44, size: 4
    pub schema_format: u32,
    /// Default page cache size.
    /// offset: 48, size: 4
    pub default_page_cache_size: u32,
    /// Page number of the largest root b-tree page in auto-vacuum or
    /// incremental-vacuum mode, otherwise 0.
    /// offset: 52, size: 4
    pub lagest_root_btree_page_number: u32,
    /// Text encoding: 1 for UTF-8, 2 for UTF-16le, 3 for UTF-16be.
    /// offset: 56, size: 4
    pub text_encoding: u32,
    /// The user version, read and set by PRAGMA user_version.
    /// offset: 60, size: 4
    pub user_version: u32,
    /// Non-zero for incremental-vacuum mode, zero otherwise.
    /// offset: 64, size: 4
    pub is_incremental_vacuum_mode: u32,
    /// The application id, set by PRAGMA application_id.
    /// offset: 68, size: 4
    pub application_id: u32,
    /// Reserved for expansion, must be zero.
    /// offset: 72, size: 20
    pub expansion_reserved: [u8; 20],
    /// The version-valid-for number.
    /// offset: 92, size: 4
    pub version_valid_for: u32,
    /// Version number of the library that last wrote the file, e.g. 3035005
    /// for 3.35.5.
    /// offset: 96, size: 4
    pub sqlite_version_number: u32,
}

/// The header as plain mathematical values.
pub struct HeaderView {
    pub header: Seq<char>,
    pub page_size: u16,
    pub write_version: u8,
    pub read_version: u8,
    pub reserved_page_size: u8,
    pub max_embeded_payload_fraction: u8,
    pub min_embeded_payload_fraction: u8,
    pub leaf_payload_fraction: u8,
    pub file_change_counter: u32,
    pub db_size: u32,
    pub first_freelist_trunk_page_number: u32,
    pub total_number_of_freelist_pages: u32,
    pub schema_cookie: u32,
    pub schema_format: u32,
    pub default_page_cache_size: u32,
    pub lagest_root_btree_page_number: u32,
    pub text_encoding: u32,
    pub user_version: u32,
    pub is_incremental_vacuum_mode: u32,
    pub application_id: u32,
    pub expansion_reserved: Seq<u8>,
    pub version_valid_for: u32,
    pub sqlite_version_number: u32,
}

impl View for DBHeader {
    type V = HeaderView;

    open spec fn view(&self) -> HeaderView {
        HeaderView {
            header: self.header@,
            page_size: self.page_size,
            write_version: self.write_version,
            read_version: self.read_version,
            reserved_page_size: self.reserved_page_size,
            max_embeded_payload_fraction: self.max_embeded_payload_fraction,
            min_embeded_payload_fraction: self.min_embeded_payload_fraction,
            leaf_payload_fraction: self.leaf_payload_fraction,
            file_change_counter: self.file_change_counter,
            db_size: self.db_size,
            first_freelist_trunk_page_number: self.first_freelist_trunk_page_number,
            total_number_of_freelist_pages: self.total_number_of_freelist_pages,
            schema_cookie: self.schema_cookie,
            schema_format: self.schema_format,
            default_page_cache_size: self.default_page_cache_size,
            lagest_root_btree_page_number: self.lagest_root_btree_page_number,
            text_encoding: self.text_encoding,
            user_version: self.user_version,
            is_incremental_vacuum_mode: self.is_incremental_vacuum_mode,
            application_id: self.application_id,
            expansion_reserved: self.expansion_reserved@,
            version_valid_for: self.version_valid_for,
            sqlite_version_number: self.sqlite_version_number,
        }
    }
}

/// Can the region at the start of `b` be decoded: is it long enough, and is
/// its magic string valid UTF-8?
pub open spec fn header_decodes(b: Seq<u8>) -> bool {
    b.len() >= HEADER_LEN && valid_utf8(b.subrange(0, 16))
}

/// The error that decoding a buffer that does not decode reports: `Truncated`
/// when it is shorter than the header, else `InvalidUtf8`.
pub open spec fn decode_error(b: Seq<u8>) -> DecodeError {
    if b.len() < HEADER_LEN {
        DecodeError::Truncated
    } else {
        DecodeError::InvalidUtf8
    }
}

/// The header that the first 100 bytes of `b` hold, each field read at its
/// fixed offset.
pub open spec fn header_of(b: Seq<u8>) -> HeaderView {
    HeaderView {
        header: decode_utf8(b.subrange(0, 16)),
        page_size: be_at(b, 16, 2) as u16,
        write_version: b[18],
        read_version: b[19],
        reserved_page_size: b[20],
        max_embeded_payload_fraction: b[21],
        min_embeded_payload_fraction: b[22],
        leaf_payload_fraction: b[23],
        file_change_counter: be_at(b, 24, 4) as u32,
        db_size: be_at(b, 28, 4) as u32,
        first_freelist_trunk_page_number: be_at(b, 32, 4) as u32,
        total_number_of_freelist_pages: be_at(b, 36, 4) as u32,
        schema_cookie: be_at(b, 40, 4) as u32,
        schema_format: be_at(b, 44, 4) as u32,
        default_page_cache_size: be_at(b, 48, 4) as u32,
        lagest_root_btree_page_number: be_at(b, 52, 4) as u32,
        text_encoding: be_at(b, 56, 4) as u32,
        user_version: be_at(b, 60, 4) as u32,
        is_incremental_vacuum_mode: be_at(b, 64, 4) as u32,
        application_id: be_at(b, 68, 4) as u32,
        expansion_reserved: b.subrange(72, 92),
        version_valid_for: be_at(b, 92, 4) as u32,
        sqlite_version_number: be_at(b, 96, 4) as u32,
    }
}

/// The page size in bytes that a raw page-size field stands for.
pub open spec fn page_size_of(raw: u16) -> u32 {
    if raw == 1 {
        65536
    } else {
        raw as u32
    }
}

impl DBHeader {
    /// Builds a header from its field values; `expansion_reserved_slice`
    /// holds the 20 reserved bytes.
    pub fn new(
        header: String,
        page_size: u16,
        write_version: u8,
        read_version: u8,
        reserved_page_size: u8,
        max_embeded_payload_fraction: u8,
        min_embeded_payload_fraction: u8,
        leaf_payload_fraction: u8,
        file_change_counter: u32,
        db_size: u32,
        first_freelist_trunk_page_number: u32,
        total_number_of_freelist_pages: u32,
        schema_cookie: u32,
        schema_format: u32,
        default_page_cache_size: u32,
        lagest_root_btree_page_number: u32,
        text_encoding: u32,
        user_version: u32,
        is_incremental_vacuum_mode: u32,
        application_id: u32,
        expansion_reserved_slice: &[u8],
        version_valid_for: u32,
        sqlite_version_number: u32,
    ) -> (r: Self)
        requires
            expansion_reserved_slice@.len() == 20,
        ensures
            r@ == (HeaderView {
                header: header@,
                page_size,
                write_version,
                read_version,
                reserved_page_size,
                max_embeded_payload_fraction,
                min_embeded_payload_fraction,
                leaf_payload_fraction,
                file_change_counter,
                db_size,
                first_freelist_trunk_page_number,
                total_number_of_freelist_pages,
                schema_cookie,
                schema_format,
                default_page_cache_size,
                lagest_root_btree_page_number,
                text_encoding,
                user_version,
                is_incremental_vacuum_mode,
                application_id,
                expansion_reserved: expansion_reserved_slice@,
                version_valid_for,
                sqlite_version_number,
            }),
    {
        let s = expansion_reserved_slice;
        let expansion_reserved: [u8; 20] = [
            s[0], s[1], s[2], s[3], s[4], s[5], s[6], s[7], s[8], s[9],
            s[10], s[11], s[12], s[13], s[14], s[15], s[16], s[17], s[18], s[19],
        ];
        assert(expansion_reserved@ =~= s@);
        Self {
            header,
            page_size,
            write_version,
            read_version,
            reserved_page_size,
            max_embeded_payload_fraction,
            min_embeded_payload_fraction,
            leaf_payload_fraction,
            file_change_counter,
            db_size,
            first_freelist_trunk_page_number,
            total_number_of_freelist_pages,
            schema_cookie,
            schema_format,
            default_page_cache_size,
            lagest_root_btree_page_number,
            text_encoding,
            user_version,
            is_incremental_vacuum_mode,
            application_id,
            expansion_reserved,
            version_valid_for,
            sqlite_version_number,
        }
    }

    /// Decodes the header from the first 100 bytes of `bytes`; the rest is
    /// not read. Fails with `Truncated` on a shorter buffer and with
    /// `InvalidUtf8` when the magic string is not UTF-8. Values that are out
    /// of range for the format are kept as they are.
    pub fn decode(bytes: &[u8]) -> (r: Result<Self, DecodeError>)
        ensures
            match r {
                Ok(h) => header_decodes(bytes@) && h@ == header_of(bytes@),
                Err(e) => !header_decodes(bytes@) && e == decode_error(bytes@),
            },
    {
        if bytes.len() < HEADER_LEN {
            return Err(DecodeError::Truncated);
        }
        let magic = match read_text(bytes, 0, 16) {
            Ok(s) => s,
            Err(e) => {
                return Err(e);
            },
        };
        let h = Self::new(
            magic,
            be_in(bytes, 16, 2) as u16,
            bytes[18],
            bytes[19],
            bytes[20],
            bytes[21],
            bytes[22],
            bytes[23],
            be_in(bytes, 24, 4),
            be_in(bytes, 28, 4),
            be_in(bytes, 32, 4),
            be_in(bytes, 36, 4),
            be_in(bytes, 40, 4),
            be_in(bytes, 44, 4),
            be_in(bytes, 48, 4),
            be_in(bytes, 52, 4),
            be_in(bytes, 56, 4),
            be_in(bytes, 60, 4),
            be_in(bytes, 64, 4),
            be_in(bytes, 68, 4),
            &bytes[72..92],
            be_in(bytes, 92, 4),
            be_in(bytes, 96, 4),
        );
        Ok(h)
    }

    /// The page size in bytes: the raw field, except that 1 stands for 65536.
    pub fn logical_page_size(&self) -> (r: u32)
        ensures
            r == page_size_of(self.page_size),
    {
        if self.page_size == 1 {
            65536
        } else {
            self.page_size as u32
        }
    }
}

/// Decoding is a function of the bytes: two headers decoded from equal
/// buffers are equal, field for field.
pub proof fn lemma_decode_deterministic(b1: Seq<u8>, b2: Seq<u8>, h1: HeaderView, h2: HeaderView)
    requires
        b1 == b2,
        header_decodes(b1),
        h1 == header_of(b1),
        h2 == header_of(b2),
    ensures
        h1 == h2,
{
}

/// The page-size field is reported as stored: bytes `00 01` decode to the raw
/// value 1, and only the logical page size reads that as 65536.
pub proof fn lemma_page_size_sentinel(b: Seq<u8>)
    requires
        header_decodes(b),
        b[16] == 0,
        b[17] == 1,
    ensures
        header_of(b).page_size == 1,
        page_size_of(header_of(b).page_size) == 65536,
{
    let s = b.subrange(16, 18);
    assert(s.drop_last().drop_last() =~= Seq::<u8>::empty());
    reveal_with_fuel(crate::bytefield::be_value, 3);
}

/// The text encoding that the header's encoding code names.
#[derive(Debug, Clone, Copy, PartialEq, Eq, Structural)]
pub enum TextEncoding {
    UTF8,
    UTF16le,
    UTF16be,
}

impl TextEncoding {
    /// The code that stands for this encoding in the header.
    pub open spec fn code_of(self) -> u32 {
        match self {
            TextEncoding::UTF8 => 1,
            TextEncoding::UTF16le => 2,
            TextEncoding::UTF16be => 3,
        }
    }

    /// The encoding that a code names, or `UnknownEncoding` for any other code.
    pub open spec fn spec_from_code(code: u32) -> Result<TextEncoding, DecodeError> {
        if code == 1 {
            Ok(TextEncoding::UTF8)
        } else if code == 2 {
            Ok(TextEncoding::UTF16le)
        } else if code == 3 {
            Ok(TextEncoding::UTF16be)
        } else {
            Err(DecodeError::UnknownEncoding(code))
        }
    }

    /// The canonical name of the encoding.
    pub open spec fn name_of(self) -> Seq<char> {
        match self {
            TextEncoding::UTF8 => "UTF-8"@,
            TextEncoding::UTF16le => "UTF-16 LE"@,
            TextEncoding::UTF16be => "UTF-16 BE"@,
        }
    }

    /// The encoding for a code: 1 is UTF-8, 2 UTF-16le, 3 UTF-16be.
    pub fn from_code(code: u32) -> (r: Result<Self, DecodeError>)
        ensures
            r == Self::spec_from_code(code),
    {
        match code {
            1 => Ok(TextEncoding::UTF8),
            2 => Ok(TextEncoding::UTF16le),
            3 => Ok(TextEncoding::UTF16be),
            _ => Err(DecodeError::UnknownEncoding(code)),
        }
    }

    /// The code that stands for this encoding.
    pub fn to_code(&self) -> (r: u32)
        ensures
            r == self.code_of(),
    {
        match self {
            TextEncoding::UTF8 => 1,
            TextEncoding::UTF16le => 2,
            TextEncoding::UTF16be => 3,
        }
    }

    /// The code as four big-endian bytes.
    pub fn to_be_bytes(&self) -> (r: [u8; 4])
        ensures
            r@ == seq![0u8, 0u8, 0u8, self.code_of() as u8],
            be_at(r@, 0, 4) == self.code_of(),
    {
        let r: [u8; 4] = [0, 0, 0, self.to_code() as u8];
        assert(r@ =~= seq![0u8, 0u8, 0u8, self.code_of() as u8]);
        proof {
            let s = r@;
            assert(s.subrange(0, 4) =~= s);
            assert(s.drop_last().drop_last().drop_last().drop_last() =~= Seq::<u8>::empty());
            reveal_with_fuel(crate::bytefield::be_value, 5);
        }
        r
    }

    /// The canonical name: "UTF-8", "UTF-16 LE" or "UTF-16 BE".
    pub fn name(&self) -> (r: &'static str)
        ensures
            r@ == self.name_of(),
    {
        match self {
            TextEncoding::UTF8 => "UTF-8",
            TextEncoding::UTF16le => "UTF-16 LE",
            TextEncoding::UTF16be => "UTF-16 BE",
        }
    }
}

/// Code and encoding convert into each other: a code in {1, 2, 3} comes back
/// from the encoding it names, and every other code is refused with
/// `UnknownEncoding` carrying that code.
pub proof fn lemma_code_round_trip(c: u32)
    ensures
        1 <= c <= 3 ==> TextEncoding::spec_from_code(c) is Ok
            && TextEncoding::spec_from_code(c)->Ok_0.code_of() == c,
        !(1 <= c <= 3) ==> TextEncoding::spec_from_code(c) == Err::<TextEncoding, DecodeError>(
            DecodeError::UnknownEncoding(c),
        ),
{
}

/// Every encoding comes back from its own code.
pub proof fn lemma_encoding_round_trip(e: TextEncoding)
    ensures
        TextEncoding::spec_from_code(e.code_of()) == Ok::<TextEncoding, DecodeError>(e),
{
}

} // verus!
