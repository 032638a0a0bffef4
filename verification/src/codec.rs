//! Byte-level primitives of the canonical message encoding: 32-bit
//! little-endian length fields and length-delimited byte runs. Encoding is a
//! pure function of the value, so identical values always yield identical
//! bytes; decoding is strict and reads back exactly what was written.

use vstd::prelude::*;

verus! {

/// The four little-endian bytes that encode the 32-bit length `n`.
pub open spec fn u32_le(n: u32) -> Seq<u8> {
    seq![
        (n & 0xff) as u8,
        ((n >> 8) & 0xff) as u8,
        ((n >> 16) & 0xff) as u8,
        ((n >> 24) & 0xff) as u8,
    ]
}

/// The 32-bit value read back from four little-endian bytes.
pub open spec fn le_u32(b: Seq<u8>) -> u32
    recommends
        b.len() == 4,
{
    ((b[0] as u32) | ((b[1] as u32) << 8) | ((b[2] as u32) << 16) | ((b[3] as u32) << 24)) as u32
}

/// Reading the four little-endian bytes of `n` back yields `n`.
pub proof fn lemma_u32_le_round_trip(n: u32)
    ensures
        le_u32(u32_le(n)) == n,
{
    assert(((n & 0xff) as u8 as u32) | ((((n >> 8) & 0xff) as u8 as u32) << 8) | ((((n >> 16)
        & 0xff) as u8 as u32) << 16) | ((((n >> 24) & 0xff) as u8 as u32) << 24) == n)
        by (bit_vector);
}

/// Appends the four little-endian bytes of `n` to `out`.
pub fn write_u32_le(out: &mut Vec<u8>, n: u32)
    ensures
        final(out)@ == old(out)@ + u32_le(n),
{
    proof {
        assert(n & 0xff <= 0xff && (n >> 8) & 0xff <= 0xff && (n >> 16) & 0xff <= 0xff && (n >> 24)
            & 0xff <= 0xff) by (bit_vector);
    }
    out.push((n & 0xff) as u8);
    out.push(((n >> 8) & 0xff) as u8);
    out.push(((n >> 16) & 0xff) as u8);
    out.push(((n >> 24) & 0xff) as u8);
    proof {
        assert(out@ =~= old(out)@ + u32_le(n));
    }
}

/// Reads the 32-bit little-endian value stored at offset `at` of `raw`.
pub fn read_u32_le(raw: &Vec<u8>, at: usize) -> (n: u32)
    requires
        at + 4 <= raw@.len(),
    ensures
        n == le_u32(raw@.subrange(at as int, at + 4)),
{
    let total = raw.len();
    proof {
        assert(at + 4 <= total);
    }
    let b0 = raw[at] as u32;
    let b1 = raw[at + 1] as u32;
    let b2 = raw[at + 2] as u32;
    let b3 = raw[at + 3] as u32;
    let n = b0 | (b1 << 8) | (b2 << 16) | (b3 << 24);
    proof {
        let b = raw@.subrange(at as int, at + 4);
        assert(b[0] == raw@[at as int] && b[1] == raw@[at + 1] && b[2] == raw@[at + 2] && b[3]
            == raw@[at + 3]);
    }
    n
}

/// Appends all bytes of `data` to `out`.
pub fn write_bytes(out: &mut Vec<u8>, data: &Vec<u8>)
    ensures
        final(out)@ == old(out)@ + data@,
{
    out.extend_from_slice(data.as_slice());
    proof {
        assert forall|i: int| 0 <= i < out@.len() implies out@[i] == (old(out)@ + data@)[i] by {
            if i >= old(out)@.len() {
                assert(cloned::<u8>(data@[i - old(out)@.len()], out@[i]));
            }
        }
        assert(out@ =~= old(out)@ + data@);
    }
}

/// Copies `len` bytes of `raw`, starting at offset `at`, into a fresh vector.
pub fn read_bytes(raw: &Vec<u8>, at: usize, len: usize) -> (r: Vec<u8>)
    requires
        at + len <= raw@.len(),
    ensures
        r@ == raw@.subrange(at as int, at + len),
{
    let total = raw.len();
    proof {
        assert(at + len <= total);
    }
    let s = vstd::slice::slice_subrange(raw.as_slice(), at, at + len);
    vstd::slice::slice_to_vec(s)
}

} // verus!
