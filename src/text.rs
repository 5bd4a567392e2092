use vstd::prelude::*;
use vstd::string::*;
use vstd::utf8::*;

verus! {

/// What `String::from_utf8_lossy` makes of a byte sequence.
pub uninterp spec fn lossy_utf8(b: Seq<u8>) -> Seq<char>;

/// What the `Debug` formatting of a string slice writes: the text in double
/// quotes, with escapes.
pub uninterp spec fn debug_quoted(s: Seq<char>) -> Seq<char>;

/// Relies on `std::str::from_utf8`: it accepts exactly the valid UTF-8
/// sequences, and the string it returns holds the characters they encode.
#[verifier::external_body]
pub(crate) fn utf8_string(b: &[u8]) -> (r: Option<String>)
    ensures
        match r {
            Some(s) => valid_utf8(b@) && s@ == decode_utf8(b@),
            None => !valid_utf8(b@),
        },
{
    match std::str::from_utf8(b) {
        Ok(s) => Some(s.to_string()),
        Err(_) => None,
    }
}

/// Relies on `String::from_utf8_lossy`: invalid sequences become U+FFFD, and
/// valid input is returned unchanged.
#[verifier::external_body]
pub(crate) fn utf8_lossy(b: &[u8]) -> (r: String)
    ensures
        r@ == lossy_utf8(b@),
        valid_utf8(b@) ==> r@ == decode_utf8(b@),
{
    String::from_utf8_lossy(b).to_string()
}

/// Relies on the `Debug` formatting of `str` (`{:?}`): a quoted, escaped
/// rendering that depends on the characters alone.
#[verifier::external_body]
pub(crate) fn quote_debug(s: &str) -> (r: String)
    ensures
        r@ == debug_quoted(s@),
{
    format!("{:?}", s)
}

/// The upper-case hexadecimal digit for `d < 16`.
pub open spec fn hex_digit(d: nat) -> char {
    seq!['0', '1', '2', '3', '4', '5', '6', '7', '8', '9', 'A', 'B', 'C', 'D', 'E', 'F'][d as int]
}

/// Is `c` one of `0-9` or `A-F`?
pub open spec fn is_upper_hex(c: char) -> bool {
    ('0' <= c && c <= '9') || ('A' <= c && c <= 'F')
}

/// The decimal digits of `n`, without leading zeros (`0` for zero).
pub open spec fn dec_digits(n: nat) -> Seq<char>
    decreases n,
{
    if n < 10 {
        seq![hex_digit(n)]
    } else {
        dec_digits(n / 10).push(hex_digit(n % 10))
    }
}

/// Two hexadecimal digits for one byte.
pub open spec fn hex_pair(b: u8) -> Seq<char> {
    seq![hex_digit(b as nat / 16), hex_digit(b as nat % 16)]
}

/// Each byte as two hexadecimal digits, separated by single spaces.
pub open spec fn hex_spaced(b: Seq<u8>) -> Seq<char>
    decreases b.len(),
{
    if b.len() == 0 {
        Seq::empty()
    } else if b.len() == 1 {
        hex_pair(b[0])
    } else {
        hex_spaced(b.drop_last()) + seq![' '] + hex_pair(b.last())
    }
}

/// The bytes in decimal, separated by `", "`.
pub open spec fn dec_list(b: Seq<u8>) -> Seq<char>
    decreases b.len(),
{
    if b.len() == 0 {
        Seq::empty()
    } else if b.len() == 1 {
        dec_digits(b[0] as nat)
    } else {
        dec_list(b.drop_last()) + seq![',', ' '] + dec_digits(b.last() as nat)
    }
}

/// The bytes as a bracketed list, `[1, 2, 3]`.
pub open spec fn byte_list(b: Seq<u8>) -> Seq<char> {
    seq!['['] + dec_list(b) + seq![']']
}

/// A one-character string holding the digit `d < 16`.
fn digit_str(d: u32) -> (r: &'static str)
    requires
        d < 16,
    ensures
        r@ == seq![hex_digit(d as nat)],
{
    let digits = "0123456789ABCDEF";
    proof {
        reveal_strlit("0123456789ABCDEF");
        assert(is_ascii(digits));
    }
    let r = digits.substring_ascii(d as usize, d as usize + 1);
    assert(r@ =~= seq![hex_digit(d as nat)]);
    r
}

/// `n` in decimal.
pub fn decimal(n: u32) -> (r: String)
    ensures
        r@ == dec_digits(n as nat),
    decreases n,
{
    if n < 10 {
        String::from_str(digit_str(n))
    } else {
        let mut s = decimal(n / 10);
        s.append(digit_str(n % 10));
        s
    }
}

/// Appends the two hexadecimal digits of `b` to `s`.
fn push_hex_pair(s: &mut String, b: u8)
    ensures
        final(s)@ == old(s)@ + hex_pair(b),
{
    s.append(digit_str(b as u32 / 16));
    s.append(digit_str(b as u32 % 16));
    assert(final(s)@ =~= old(s)@ + hex_pair(b));
}

/// Each byte as two upper-case hexadecimal digits, separated by spaces.
pub fn hex_string(b: &[u8]) -> (r: String)
    ensures
        r@ == hex_spaced(b@),
{
    let mut s = String::new();
    let mut i: usize = 0;
    assert(b@.subrange(0, 0) =~= Seq::<u8>::empty());
    while i < b.len()
        invariant
            i <= b@.len(),
            s@ == hex_spaced(b@.subrange(0, i as int)),
        decreases b@.len() - i,
    {
        let ghost prev = s@;
        if i > 0 {
            s.append(" ");
            proof {
                reveal_strlit(" ");
            }
        }
        push_hex_pair(&mut s, b[i]);
        proof {
            let t = b@.subrange(0, i + 1);
            assert(t.drop_last() =~= b@.subrange(0, i as int));
            if i == 0 {
                assert(s@ =~= hex_spaced(t));
            } else {
                assert(s@ =~= prev + seq![' '] + hex_pair(b@[i as int]));
            }
        }
        i = i + 1;
    }
    assert(b@.subrange(0, b@.len() as int) =~= b@);
    s
}

/// The bytes as a bracketed decimal list, as `{:?}` writes a byte slice.
pub fn byte_list_string(b: &[u8]) -> (r: String)
    ensures
        r@ == byte_list(b@),
{
    let mut s = String::from_str("[");
    proof {
        reveal_strlit("[");
    }
    let mut i: usize = 0;
    assert(b@.subrange(0, 0) =~= Seq::<u8>::empty());
    while i < b.len()
        invariant
            i <= b@.len(),
            s@ == seq!['['] + dec_list(b@.subrange(0, i as int)),
        decreases b@.len() - i,
    {
        let ghost prev = s@;
        if i > 0 {
            s.append(", ");
            proof {
                reveal_strlit(", ");
            }
        }
        let d = decimal(b[i] as u32);
        s.append(d.as_str());
        proof {
            let t = b@.subrange(0, i + 1);
            assert(t.drop_last() =~= b@.subrange(0, i as int));
            if i == 0 {
                assert(s@ =~= seq!['['] + dec_list(t));
            } else {
                assert(s@ =~= prev + seq![',', ' '] + dec_digits(b@[i as int] as nat));
                assert(s@ =~= seq!['['] + dec_list(t));
            }
        }
        i = i + 1;
    }
    s.append("]");
    proof {
        reveal_strlit("]");
        assert(b@.subrange(0, b@.len() as int) =~= b@);
    }
    assert(s@ =~= byte_list(b@));
    s
}

} // verus!
