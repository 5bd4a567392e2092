use crate::field::{Field, FieldView, Value, ValueView};
use crate::header::{DBHeader, HeaderView};
use crate::text::{lossy_utf8, utf8_lossy};
use vstd::prelude::*;
use vstd::string::*;

verus! {

/// A decoded region of a database file that can be inspected without knowing
/// its kind: a label, a description, and its fields in ascending offset order.
pub trait Parts {
    /// The label, as characters.
    spec fn label_view(&self) -> Seq<char>;

    /// The description, as characters.
    spec fn desc_view(&self) -> Seq<char>;

    /// The fields, as plain values.
    spec fn field_views(&self) -> Seq<FieldView>;

    fn label(&self) -> (r: String)
        ensures
            r@ == self.label_view(),
    ;

    fn desc(&self) -> (r: String)
        ensures
            r@ == self.desc_view(),
    ;

    /// A fresh list of the fields; each call gives the same list.
    fn fields(&self) -> (r: Vec<Field>)
        ensures
            r@.map_values(|f: Field| f@) == self.field_views(),
    ;
}

pub const HEADER_LABEL: &'static str = "Database Header";

pub const HEADER_DESC: &'static str = "The first 100 bytes of the database file comprise the database file header. All multibyte fields in the database file header are stored with the most significant byte first (big-endian).";

pub const DESC_MAGIC: &'static str = "Magic header string, which corresponds to the UTF-8 string: 'SQLite format 3\\000. Every valid SQLite database file begins with these 16 bytes (in hex): 53 51 4c 69 74 65 20 66 6f 72 6d 61 74 20 33 00.";

pub const DESC_PAGE_SIZE: &'static str = "Page size of the database, interpreted as a big-endian integer and must be a power of two between 512 and 32786, inclusive. Starting from version 3.7.1 page size of 65536 bytes is supported, but since it won't fit in a two-byte integer, big-endian magic number 1 is used to represent it: 0x00 0x01.";

pub const DESC_WRITE_VERSION: &'static str = "write version: 1 for legacy, 2 for WAL";

pub const DESC_READ_VERSION: &'static str = "read version: 1 for legacy, 2 for WAL";

pub const DESC_RESERVED_PAGE_SIZE: &'static str = "每页尾部保留的字节数，通常为0， 如果设置为非0，则这些字节不会用于存储数据";

pub const DESC_MAX_PAYLOAD_FRACTION: &'static str = "定义 B-Tree 叶节点中嵌入负载数据的最大比例，must be 64";

pub const DESC_MIN_PAYLOAD_FRACTION: &'static str = "定义 B-Tree 叶节点中嵌入负载数据的最小比例，must be 32";

pub const DESC_LEAF_PAYLOAD_FRACTION: &'static str = "叶节点负载数据比例， must be 32";

pub const DESC_FILE_CHANGE_COUNTER: &'static str = "每次修改数据库文件时递增，用于检测是否有其他进程修改了数据库。当另一个进程修改数据库时，通常希望刷新其数据页的缓存，因其已经更新。WAL模式：使用wal-index检测数据库的更改。";

pub const DESC_DB_SIZE: &'static str = "数据库文件大小（以页为单位），指示数据库当前包含的页数";

pub const DESC_FIRST_FREELIST_TRUNK: &'static str = "第一个空闲列表主干页的页码。指向空闲列表的第一个页面，用于记录未分配的页面";

pub const DESC_FREELIST_PAGES: &'static str = "空闲列表中的总页数。统计当前数据库中的空闲页数量";

pub const DESC_SCHEMA_COOKIE: &'static str = "the schema cookie，用于验证模式是否发生改变，每次模式改变时会递增";

pub const DESC_SCHEMA_FORMAT: &'static str = "指示当前数据库的模式版本，支持的值为1，2，3，4";

pub const DESC_DEFAULT_CACHE_SIZE: &'static str = "默认页缓存大小";

pub const DESC_LARGEST_ROOT_BTREE: &'static str = "最大根 B-Tree 页的页码。在自动清理（auto-vacuum）或增量清理（incremental-vacuum）模式下使用；否则为 0。";

pub const DESC_TEXT_ENCODING: &'static str = "指定数据使用的文本编码,1 means UTF-8.2 means UTF-16le.3 means UTF-16be.";

pub const DESC_USER_VERSION: &'static str = "用户版本，用户可通过 PRAGMA user_version 读写此值";

pub const DESC_INCREMENTAL_VACUUM: &'static str = "是否启用了增量清理模式, 非0表示启用，0表示禁用";

pub const DESC_APPLICATION_ID: &'static str = "应用程序id， 通过 PRAGMA application_id 设置，用于存储应用程序标识符";

pub const DESC_EXPANSION_RESERVED: &'static str = "为未来扩展预留，必须填充为0";

pub const DESC_VERSION_VALID_FOR: &'static str = "版本有效数字。指示上次写入操作的事物ID，用于数据库一致性";

pub const DESC_VERSION_NUMBER: &'static str = "SQLite 版本号。例如，版本3.35.5表示为3035005";

/// A field view from its parts.
pub open spec fn field_view(desc: &str, offset: nat, size: nat, value: ValueView) -> FieldView {
    FieldView { desc: desc@, offset, size, value }
}

/// The fields of a header, in the order and at the places where the file
/// holds them.
pub open spec fn header_fields(h: HeaderView) -> Seq<FieldView> {
    seq![
        field_view(DESC_MAGIC, 0, 16, ValueView::Text(h.header)),
        field_view(DESC_PAGE_SIZE, 16, 2, ValueView::U16(h.page_size)),
        field_view(DESC_WRITE_VERSION, 18, 1, ValueView::U8(h.write_version)),
        field_view(DESC_READ_VERSION, 19, 1, ValueView::U8(h.read_version)),
        field_view(DESC_RESERVED_PAGE_SIZE, 20, 1, ValueView::U8(h.reserved_page_size)),
        field_view(DESC_MAX_PAYLOAD_FRACTION, 21, 1, ValueView::U8(h.max_embeded_payload_fraction)),
        field_view(DESC_MIN_PAYLOAD_FRACTION, 22, 1, ValueView::U8(h.min_embeded_payload_fraction)),
        field_view(DESC_LEAF_PAYLOAD_FRACTION, 23, 1, ValueView::U8(h.leaf_payload_fraction)),
        field_view(DESC_FILE_CHANGE_COUNTER, 24, 4, ValueView::U32(h.file_change_counter)),
        field_view(DESC_DB_SIZE, 28, 4, ValueView::U32(h.db_size)),
        field_view(DESC_FIRST_FREELIST_TRUNK, 32, 4, ValueView::U32(h.first_freelist_trunk_page_number)),
        field_view(DESC_FREELIST_PAGES, 36, 4, ValueView::U32(h.total_number_of_freelist_pages)),
        field_view(DESC_SCHEMA_COOKIE, 40, 4, ValueView::U32(h.schema_cookie)),
        field_view(DESC_SCHEMA_FORMAT, 44, 4, ValueView::U32(h.schema_format)),
        field_view(DESC_DEFAULT_CACHE_SIZE, 48, 4, ValueView::U32(h.default_page_cache_size)),
        field_view(DESC_LARGEST_ROOT_BTREE, 52, 4, ValueView::U32(h.lagest_root_btree_page_number)),
        field_view(DESC_TEXT_ENCODING, 56, 4, ValueView::U32(h.text_encoding)),
        field_view(DESC_USER_VERSION, 60, 4, ValueView::U32(h.user_version)),
        field_view(DESC_INCREMENTAL_VACUUM, 64, 4, ValueView::U32(h.is_incremental_vacuum_mode)),
        field_view(DESC_APPLICATION_ID, 68, 4, ValueView::U32(h.application_id)),
        field_view(DESC_EXPANSION_RESERVED, 72, 20, ValueView::Text(lossy_utf8(h.expansion_reserved))),
        field_view(DESC_VERSION_VALID_FOR, 92, 4, ValueView::U32(h.version_valid_for)),
        field_view(DESC_VERSION_NUMBER, 96, 4, ValueView::Version(h.sqlite_version_number)),
    ]
}

impl Parts for DBHeader {
    open spec fn label_view(&self) -> Seq<char> {
        HEADER_LABEL@
    }

    open spec fn desc_view(&self) -> Seq<char> {
        HEADER_DESC@
    }

    open spec fn field_views(&self) -> Seq<FieldView> {
        header_fields(self@)
    }

    fn label(&self) -> (r: String) {
        String::from_str(HEADER_LABEL)
    }

    fn desc(&self) -> (r: String) {
        String::from_str(HEADER_DESC)
    }

    #[verifier::rlimit(50)]
    fn fields(&self) -> (r: Vec<Field>) {
        let r = vec![
            Field::new(DESC_MAGIC, 0, 16, Value::Text(self.header.clone())),
            Field::new(DESC_PAGE_SIZE, 16, 2, Value::U16(self.page_size)),
            Field::new(DESC_WRITE_VERSION, 18, 1, Value::U8(self.write_version)),
            Field::new(DESC_READ_VERSION, 19, 1, Value::U8(self.read_version)),
            Field::new(DESC_RESERVED_PAGE_SIZE, 20, 1, Value::U8(self.reserved_page_size)),
            Field::new(DESC_MAX_PAYLOAD_FRACTION, 21, 1, Value::U8(self.max_embeded_payload_fraction)),
            Field::new(DESC_MIN_PAYLOAD_FRACTION, 22, 1, Value::U8(self.min_embeded_payload_fraction)),
            Field::new(DESC_LEAF_PAYLOAD_FRACTION, 23, 1, Value::U8(self.leaf_payload_fraction)),
            Field::new(DESC_FILE_CHANGE_COUNTER, 24, 4, Value::U32(self.file_change_counter)),
            Field::new(DESC_DB_SIZE, 28, 4, Value::U32(self.db_size)),
            Field::new(DESC_FIRST_FREELIST_TRUNK, 32, 4, Value::U32(self.first_freelist_trunk_page_number)),
            Field::new(DESC_FREELIST_PAGES, 36, 4, Value::U32(self.total_number_of_freelist_pages)),
            Field::new(DESC_SCHEMA_COOKIE, 40, 4, Value::U32(self.schema_cookie)),
            Field::new(DESC_SCHEMA_FORMAT, 44, 4, Value::U32(self.schema_format)),
            Field::new(DESC_DEFAULT_CACHE_SIZE, 48, 4, Value::U32(self.default_page_cache_size)),
            Field::new(DESC_LARGEST_ROOT_BTREE, 52, 4, Value::U32(self.lagest_root_btree_page_number)),
            Field::new(DESC_TEXT_ENCODING, 56, 4, Value::U32(self.text_encoding)),
            Field::new(DESC_USER_VERSION, 60, 4, Value::U32(self.user_version)),
            Field::new(DESC_INCREMENTAL_VACUUM, 64, 4, Value::U32(self.is_incremental_vacuum_mode)),
            Field::new(DESC_APPLICATION_ID, 68, 4, Value::U32(self.application_id)),
            Field::new(DESC_EXPANSION_RESERVED, 72, 20, Value::Text(utf8_lossy(self.expansion_reserved.as_slice()))),
            Field::new(DESC_VERSION_VALID_FOR, 92, 4, Value::U32(self.version_valid_for)),
            Field::new(DESC_VERSION_NUMBER, 96, 4, Value::Version(self.sqlite_version_number)),
        ];
        assert(r@.map_values(|f: Field| f@) =~= header_fields(self@));
        r
    }
}

/// A decoded region of the file, one variant per kind of region.
#[derive(Debug, Clone)]
pub enum Part {
    Header(DBHeader),
}

impl Parts for Part {
    open spec fn label_view(&self) -> Seq<char> {
        match self {
            Part::Header(h) => h.label_view(),
        }
    }

    open spec fn desc_view(&self) -> Seq<char> {
        match self {
            Part::Header(h) => h.desc_view(),
        }
    }

    open spec fn field_views(&self) -> Seq<FieldView> {
        match self {
            Part::Header(h) => h.field_views(),
        }
    }

    fn label(&self) -> (r: String) {
        match self {
            Part::Header(h) => h.label(),
        }
    }

    fn desc(&self) -> (r: String) {
        match self {
            Part::Header(h) => h.desc(),
        }
    }

    fn fields(&self) -> (r: Vec<Field>) {
        match self {
            Part::Header(h) => h.fields(),
        }
    }
}

/// The header's fields tile its 100 bytes: the first starts at offset 0, each
/// next one starts where the one before it ends, and the last ends at 100. So
/// the offsets ascend and no two fields overlap.
pub proof fn lemma_header_layout(h: HeaderView)
    ensures
        header_fields(h).len() == 23,
        header_fields(h)[0].offset == 0,
        header_fields(h)[22].offset + header_fields(h)[22].size == 100,
        forall|i: int|
            0 <= i < 22 ==> #[trigger] header_fields(h)[i].offset + header_fields(h)[i].size
                == header_fields(h)[i + 1].offset,
{
    let s = header_fields(h);
    assert forall|i: int| 0 <= i < 22 implies #[trigger] s[i].offset + s[i].size == s[i + 1].offset by {
        assert(i == 0 || i == 1 || i == 2 || i == 3 || i == 4 || i == 5 || i == 6 || i == 7 || i == 8
            || i == 9 || i == 10 || i == 11 || i == 12 || i == 13 || i == 14 || i == 15 || i == 16
            || i == 17 || i == 18 || i == 19 || i == 20 || i == 21);
    }
}

/// Listing a part's fields twice gives the same fields in the same order.
pub proof fn lemma_fields_stable(p: Part, first: Seq<Field>, second: Seq<Field>)
    requires
        first.map_values(|f: Field| f@) == p.field_views(),
        second.map_values(|f: Field| f@) == p.field_views(),
    ensures
        first.len() == second.len(),
        forall|i: int| 0 <= i < first.len() ==> #[trigger] first[i]@ == second[i]@,
{
    let fm = first.map_values(|f: Field| f@);
    let sm = second.map_values(|f: Field| f@);
    assert(fm.len() == first.len());
    assert(sm.len() == second.len());
    assert forall|i: int| 0 <= i < first.len() implies #[trigger] first[i]@ == second[i]@ by {
        assert(fm[i] == first[i]@);
        assert(sm[i] == second[i]@);
    }
}

} // verus!
