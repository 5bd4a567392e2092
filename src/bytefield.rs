use crate::error::DecodeError;
use crate::text::utf8_string;
use vstd::prelude::*;
use vstd::utf8::*;

verus! {

/// The unsigned integer that a byte sequence denotes, most significant byte first.
pub open spec fn be_value(s: Seq<u8>) -> nat
    decreases s.len(),
{
    if s.len() == 0 {
        0
    } else {
        be_value(s.drop_last()) * 256 + s.last() as nat
    }
}

/// 256 to the power `n`.
pub open spec fn pow256(n: nat) -> nat
    decreases n,
{
    if n == 0 {
        1
    } else {
        256 * pow256((n - 1) as nat)
    }
}

/// The big-endian value of the `size` bytes of `s` that start at `offset`.
pub open spec fn be_at(s: Seq<u8>, offset: int, size: int) -> nat {
    be_value(s.subrange(offset, offset + size))
}

proof fn lemma_be_step(s: Seq<u8>, offset: int, i: int)
    requires
        0 <= offset,
        0 <= i,
        offset + i < s.len(),
    ensures
        be_at(s, offset, i + 1) == be_at(s, offset, i) * 256 + s[offset + i] as nat,
{
    assert(s.subrange(offset, offset + i + 1).drop_last() =~= s.subrange(offset, offset + i));
}

/// Reads `size` bytes (1, 2 or 4) at `offset` as a big-endian integer; the
/// caller has already checked that they lie inside the buffer.
pub(crate) fn be_in(buf: &[u8], offset: usize, size: usize) -> (r: u32)
    requires
        size == 1 || size == 2 || size == 4,
        offset + size <= buf@.len(),
    ensures
        r as nat == be_at(buf@, offset as int, size as int),
        (r as nat) < pow256(size as nat),
{
    let mut acc: u32 = 0;
    let mut i: usize = 0;
    assert(buf@.len() == buf.len());
    proof {
        assert(buf@.subrange(offset as int, offset as int) =~= Seq::<u8>::empty());
        reveal_with_fuel(pow256, 5);
    }
    while i < size
        invariant
            size == 1 || size == 2 || size == 4,
            offset + size <= buf@.len(),
            i <= size,
            buf@.len() <= usize::MAX,
            acc as nat == be_at(buf@, offset as int, i as int),
            (acc as nat) < pow256(i as nat),
            pow256(0) == 1,
            pow256(1) == 256,
            pow256(2) == 65536,
            pow256(3) == 16777216,
            pow256(4) == 4294967296,
        decreases size - i,
    {
        let b = buf[offset + i];
        proof {
            lemma_be_step(buf@, offset as int, i as int);
            assert(pow256((i + 1) as nat) == 256 * pow256(i as nat));
            assert((acc as nat) * 256 + (b as nat) < 256 * pow256(i as nat)) by (nonlinear_arith)
                requires
                    (acc as nat) < pow256(i as nat),
                    (b as nat) < 256,
            ;
            assert(i < 4);
        }
        acc = acc * 256 + b as u32;
        i = i + 1;
    }
    acc
}

/// Reads `size` bytes (1, 2 or 4) at `offset` as a big-endian integer, or
/// reports `Truncated` when they run past the end of the buffer.
pub fn read_be(buf: &[u8], offset: usize, size: usize) -> (r: Result<u32, DecodeError>)
    requires
        size == 1 || size == 2 || size == 4,
    ensures
        match r {
            Ok(v) => offset + size <= buf@.len() && v as nat == be_at(
                buf@,
                offset as int,
                size as int,
            ),
            Err(e) => offset + size > buf@.len() && e == DecodeError::Truncated,
        },
{
    if offset > buf.len() || size > buf.len() - offset {
        Err(DecodeError::Truncated)
    } else {
        Ok(be_in(buf, offset, size))
    }
}

/// Reads the `size` bytes at `offset` as UTF-8 text. Fails with `Truncated`
/// when they run past the end of the buffer, and with `InvalidUtf8` when they
/// are not valid UTF-8.
pub fn read_text(buf: &[u8], offset: usize, size: usize) -> (r: Result<String, DecodeError>)
    ensures
        match r {
            Ok(s) => {
                &&& offset + size <= buf@.len()
                &&& valid_utf8(buf@.subrange(offset as int, offset + size))
                &&& s@ == decode_utf8(buf@.subrange(offset as int, offset + size))
            },
            Err(e) => if offset + size > buf@.len() {
                e == DecodeError::Truncated
            } else {
                !valid_utf8(buf@.subrange(offset as int, offset + size)) && e
                    == DecodeError::InvalidUtf8
            },
        },
{
    if offset > buf.len() || size > buf.len() - offset {
        return Err(DecodeError::Truncated);
    }
    match utf8_string(&buf[offset..offset + size]) {
        Some(s) => Ok(s),
        None => Err(DecodeError::InvalidUtf8),
    }
}

} // verus!
