use crate::header::TextEncoding;
use crate::text::{
    byte_list, byte_list_string, debug_quoted, dec_digits, decimal, hex_digit, hex_pair,
    hex_spaced, hex_string, is_upper_hex, quote_debug,
};
use vstd::prelude::*;
use vstd::string::*;
use vstd::utf8::*;

verus! {

/// A decoded quantity, tagged with its type. The tag decides both the bytes
/// that the hexadecimal rendering shows and how the value is displayed.
#[derive(Debug, Clone, PartialEq)]
pub enum Value {
    U8(u8),
    /// One byte read as a flag: non-zero is true.
    Bool(u8),
    U16(u16),
    U32(u32),
    Array(Vec<u8>),
    Text(String),
    Encoding(TextEncoding),
    /// A version number packed as major * 1000000 + minor * 1000 + patch.
    Version(u32),
}

/// A value as plain mathematical data.
pub enum ValueView {
    U8(u8),
    Bool(u8),
    U16(u16),
    U32(u32),
    Array(Seq<u8>),
    Text(Seq<char>),
    Encoding(TextEncoding),
    Version(u32),
}

impl View for Value {
    type V = ValueView;

    open spec fn view(&self) -> ValueView {
        match self {
            Value::U8(v) => ValueView::U8(*v),
            Value::Bool(v) => ValueView::Bool(*v),
            Value::U16(v) => ValueView::U16(*v),
            Value::U32(v) => ValueView::U32(*v),
            Value::Array(v) => ValueView::Array(v@),
            Value::Text(v) => ValueView::Text(v@),
            Value::Encoding(v) => ValueView::Encoding(*v),
            Value::Version(v) => ValueView::Version(*v),
        }
    }
}

/// The two bytes of `x`, most significant first.
pub open spec fn be2(x: u16) -> Seq<u8> {
    seq![(x / 256) as u8, (x % 256) as u8]
}

/// The four bytes of `x`, most significant first.
pub open spec fn be4(x: u32) -> Seq<u8> {
    seq![(x / 16777216) as u8, ((x / 65536) % 256) as u8, ((x / 256) % 256) as u8, (x % 256) as u8]
}

/// The bytes that the hexadecimal rendering of a value shows: integers at
/// their natural width, text as its UTF-8 bytes, arrays as they are.
pub open spec fn value_bytes(v: ValueView) -> Seq<u8> {
    match v {
        ValueView::U8(x) => seq![x],
        ValueView::Bool(x) => seq![x],
        ValueView::U16(x) => be2(x),
        ValueView::U32(x) => be4(x),
        ValueView::Array(b) => b,
        ValueView::Text(s) => encode_utf8(s),
        ValueView::Encoding(e) => be4(e.code_of()),
        ValueView::Version(x) => be4(x),
    }
}

/// A packed version number as "major.minor.patch".
pub open spec fn version_text(v: u32) -> Seq<char> {
    dec_digits(v as nat / 1000000) + seq!['.'] + dec_digits((v as nat / 1000) % 1000) + seq!['.']
        + dec_digits(v as nat % 1000)
}

/// The human-readable rendering of a value.
pub open spec fn display_of(v: ValueView) -> Seq<char> {
    match v {
        ValueView::U8(x) => dec_digits(x as nat),
        ValueView::Bool(x) => if x != 0 {
            "true"@
        } else {
            "false"@
        },
        ValueView::U16(x) => dec_digits(x as nat),
        ValueView::U32(x) => dec_digits(x as nat),
        ValueView::Array(b) => byte_list(b),
        ValueView::Text(s) => debug_quoted(s),
        ValueView::Encoding(e) => e.name_of(),
        ValueView::Version(x) => version_text(x),
    }
}

fn be2_bytes(x: u16) -> (r: [u8; 2])
    ensures
        r@ == be2(x),
{
    let r: [u8; 2] = [(x / 256) as u8, (x % 256) as u8];
    assert(r@ =~= be2(x));
    r
}

fn be4_bytes(x: u32) -> (r: [u8; 4])
    ensures
        r@ == be4(x),
{
    let r: [u8; 4] = [
        (x / 16777216) as u8,
        ((x / 65536) % 256) as u8,
        ((x / 256) % 256) as u8,
        (x % 256) as u8,
    ];
    assert(r@ =~= be4(x));
    r
}

impl Value {
    /// The value's bytes as space-separated pairs of upper-case hex digits.
    pub fn to_hex(&self) -> (r: String)
        ensures
            r@ == hex_spaced(value_bytes(self@)),
    {
        match self {
            Value::U8(v) => {
                let b: [u8; 1] = [*v];
                assert(b@ =~= seq![*v]);
                hex_string(b.as_slice())
            },
            Value::Bool(v) => {
                let b: [u8; 1] = [*v];
                assert(b@ =~= seq![*v]);
                hex_string(b.as_slice())
            },
            Value::U16(v) => hex_string(be2_bytes(*v).as_slice()),
            Value::U32(v) => hex_string(be4_bytes(*v).as_slice()),
            Value::Array(v) => hex_string(v.as_slice()),
            Value::Text(v) => hex_string(v.as_str().as_bytes()),
            Value::Encoding(v) => hex_string(be4_bytes(v.to_code()).as_slice()),
            Value::Version(v) => hex_string(be4_bytes(*v).as_slice()),
        }
    }

    /// The value for a reader: integers in decimal, flags as true/false,
    /// arrays as a bracketed list, text quoted, encodings by name, and
    /// versions as "major.minor.patch".
    pub fn to_display(&self) -> (r: String)
        ensures
            r@ == display_of(self@),
    {
        match self {
            Value::U8(v) => decimal(*v as u32),
            Value::Bool(v) => {
                if *v != 0 {
                    String::from_str("true")
                } else {
                    String::from_str("false")
                }
            },
            Value::U16(v) => decimal(*v as u32),
            Value::U32(v) => decimal(*v),
            Value::Array(v) => byte_list_string(v.as_slice()),
            Value::Text(v) => quote_debug(v.as_str()),
            Value::Encoding(v) => String::from_str(v.name()),
            Value::Version(v) => {
                let mut s = decimal(*v / 1000000);
                s.append(".");
                let minor = decimal((*v / 1000) % 1000);
                s.append(minor.as_str());
                s.append(".");
                let patch = decimal(*v % 1000);
                s.append(patch.as_str());
                proof {
                    reveal_strlit(".");
                }
                assert(s@ =~= version_text(*v));
                s
            },
        }
    }
}

/// One quantity of a decoded region: where it lies, what it means, and its
/// value.
#[derive(Debug, Clone, PartialEq)]
pub struct Field {
    pub desc: &'static str,
    pub offset: usize,
    pub size: usize,
    pub value: Value,
}

/// A field as plain mathematical data.
pub struct FieldView {
    pub desc: Seq<char>,
    pub offset: nat,
    pub size: nat,
    pub value: ValueView,
}

impl View for Field {
    type V = FieldView;

    open spec fn view(&self) -> FieldView {
        FieldView {
            desc: self.desc@,
            offset: self.offset as nat,
            size: self.size as nat,
            value: self.value@,
        }
    }
}

/// How a field's value is shown.
#[derive(Debug, Clone, Copy, PartialEq, Eq, Structural)]
pub enum Format {
    /// The displayed value above its hexadecimal bytes.
    Hybrid,
    /// The hexadecimal bytes alone.
    Hex,
    /// The displayed value alone.
    Text,
}

/// The lines that a format shows for a value, top to bottom.
pub open spec fn formatted_lines(v: ValueView, format: Format) -> Seq<Seq<char>> {
    match format {
        Format::Hybrid => seq![display_of(v), hex_spaced(value_bytes(v))],
        Format::Hex => seq![hex_spaced(value_bytes(v))],
        Format::Text => seq![display_of(v)],
    }
}

impl Field {
    pub fn new(desc: &'static str, offset: usize, size: usize, value: Value) -> (r: Self)
        ensures
            r.desc == desc,
            r.offset == offset,
            r.size == size,
            r.value == value,
    {
        Self { desc, offset, size, value }
    }

    /// The value's bytes as space-separated pairs of upper-case hex digits,
    /// e.g. "02 00" for the 16-bit value 512.
    pub fn to_hex(&self) -> (r: String)
        ensures
            r@ == hex_spaced(value_bytes(self.value@)),
    {
        self.value.to_hex()
    }

    /// The value rendered for a reader.
    pub fn to_display(&self) -> (r: String)
        ensures
            r@ == display_of(self.value@),
    {
        self.value.to_display()
    }

    /// The lines to show for this field in the given format.
    pub fn formatted(&self, format: Format) -> (r: Vec<String>)
        ensures
            r@.len() == formatted_lines(self.value@, format).len(),
            forall|i: int|
                0 <= i < r@.len() ==> #[trigger] r@[i]@ == formatted_lines(self.value@, format)[i],
    {
        let mut lines: Vec<String> = Vec::new();
        match format {
            Format::Hybrid => {
                lines.push(self.to_display());
                lines.push(self.to_hex());
            },
            Format::Hex => {
                lines.push(self.to_hex());
            },
            Format::Text => {
                lines.push(self.to_display());
            },
        }
        lines
    }
}

/// Every hexadecimal digit is upper-case hex.
proof fn lemma_hex_digit(d: nat)
    requires
        d < 16,
    ensures
        is_upper_hex(hex_digit(d)),
{
}

/// Is `s` made of `n` groups of two upper-case hex digits, with a single
/// space between neighbouring groups?
pub open spec fn hex_groups(s: Seq<char>, n: nat) -> bool {
    &&& s.len() + 1 == 3 * n
    &&& forall|i: int|
        0 <= i < s.len() ==> if i % 3 == 2 {
            #[trigger] s[i] == ' '
        } else {
            is_upper_hex(s[i])
        }
}

/// The hexadecimal rendering of `n >= 1` bytes is `n` groups of two digits.
pub proof fn lemma_hex_spaced_groups(b: Seq<u8>)
    requires
        b.len() >= 1,
    ensures
        hex_groups(hex_spaced(b), b.len()),
    decreases b.len(),
{
    let s = hex_spaced(b);
    lemma_hex_digit(b.last() as nat / 16);
    lemma_hex_digit(b.last() as nat % 16);
    if b.len() == 1 {
        assert(s =~= hex_pair(b[0]));
    } else {
        let p = hex_spaced(b.drop_last());
        lemma_hex_spaced_groups(b.drop_last());
        let n = b.len() as int;
        assert(s =~= p + seq![' '] + hex_pair(b.last()));
        assert forall|i: int| 0 <= i < s.len() implies if i % 3 == 2 {
            #[trigger] s[i] == ' '
        } else {
            is_upper_hex(s[i])
        } by {
            if i < p.len() {
                assert(s[i] == p[i]);
            } else if i == p.len() {
                assert(i == 3 * n - 4);
                assert(i % 3 == 2) by (nonlinear_arith)
                    requires
                        i == 3 * n - 4,
                        n >= 2,
                ;
            } else {
                assert((3 * n - 3) % 3 == 0) by (nonlinear_arith)
                    requires
                        n >= 2,
                ;
                assert((3 * n - 2) % 3 == 1) by (nonlinear_arith)
                    requires
                        n >= 2,
                ;
            }
        }
    }
}

/// The hexadecimal rendering of a value has the value's natural width: one
/// byte gives two hex digits, two bytes give two such groups ("02 00"), four
/// bytes give four, and every digit is upper-case.
pub proof fn lemma_hex_width(v: ValueView)
    ensures
        (v is U8 || v is Bool) ==> hex_groups(hex_spaced(value_bytes(v)), 1),
        v is U16 ==> hex_groups(hex_spaced(value_bytes(v)), 2),
        (v is U32 || v is Version || v is Encoding) ==> hex_groups(hex_spaced(value_bytes(v)), 4),
        (v is U8 || v is Bool) ==> hex_spaced(value_bytes(v)).len() == 2,
{
    match v {
        ValueView::Array(b) => {},
        ValueView::Text(s) => {},
        _ => {
            lemma_hex_spaced_groups(value_bytes(v));
        },
    }
}

} // verus!
