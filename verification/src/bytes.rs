//! Byte-level codec for the multi-byte header fields: 16- and 32-bit
//! unsigned integers in either byte order, with round-trip lemmas.
use vstd::prelude::*;

use crate::Endian;

verus! {

/// The two bytes of `x` in wire order.
pub open spec fn u16_bytes(x: u16, e: Endian) -> Seq<u8> {
    match e {
        Endian::Big => seq![(x / 0x100) as u8, (x % 0x100) as u8],
        Endian::Little => seq![(x % 0x100) as u8, (x / 0x100) as u8],
    }
}

/// The four bytes of `x` in wire order.
pub open spec fn u32_bytes(x: u32, e: Endian) -> Seq<u8> {
    match e {
        Endian::Big => seq![
            (x / 0x1000000) as u8,
            ((x / 0x10000) % 0x100) as u8,
            ((x / 0x100) % 0x100) as u8,
            (x % 0x100) as u8,
        ],
        Endian::Little => seq![
            (x % 0x100) as u8,
            ((x / 0x100) % 0x100) as u8,
            ((x / 0x10000) % 0x100) as u8,
            (x / 0x1000000) as u8,
        ],
    }
}

/// The value read back from two wire-order bytes.
pub open spec fn u16_of(b0: u8, b1: u8, e: Endian) -> u16 {
    match e {
        Endian::Big => (b0 * 0x100 + b1) as u16,
        Endian::Little => (b1 * 0x100 + b0) as u16,
    }
}

/// The value read back from four wire-order bytes.
pub open spec fn u32_of(b0: u8, b1: u8, b2: u8, b3: u8, e: Endian) -> u32 {
    match e {
        Endian::Big => (b0 * 0x1000000 + b1 * 0x10000 + b2 * 0x100 + b3) as u32,
        Endian::Little => (b3 * 0x1000000 + b2 * 0x10000 + b1 * 0x100 + b0) as u32,
    }
}

/// Reading the two bytes of a 16-bit value back yields the value.
pub proof fn lemma_u16_round_trip(x: u16, e: Endian)
    ensures
        u16_of(u16_bytes(x, e)[0], u16_bytes(x, e)[1], e) == x,
{
}

/// Reading the four bytes of a 32-bit value back yields the value.
pub proof fn lemma_u32_round_trip(x: u32, e: Endian)
    ensures
        u32_of(u32_bytes(x, e)[0], u32_bytes(x, e)[1], u32_bytes(x, e)[2], u32_bytes(x, e)[3], e)
            == x,
{
    assert((x / 0x1000000) * 0x1000000 + ((x / 0x10000) % 0x100) * 0x10000 + ((x / 0x100) % 0x100)
        * 0x100 + x % 0x100 == x) by (nonlinear_arith);
}

/// Appends the two wire-order bytes of `x`.
pub fn write_u16(out: &mut Vec<u8>, x: u16, e: Endian)
    ensures
        final(out)@ == old(out)@ + u16_bytes(x, e),
{
    let hi: u8 = (x / 0x100) as u8;
    let lo: u8 = (x % 0x100) as u8;
    match e {
        Endian::Big => {
            out.push(hi);
            out.push(lo);
        },
        Endian::Little => {
            out.push(lo);
            out.push(hi);
        },
    }
    assert(out@ =~= old(out)@ + u16_bytes(x, e));
}

/// Appends the four wire-order bytes of `x`.
pub fn write_u32(out: &mut Vec<u8>, x: u32, e: Endian)
    ensures
        final(out)@ == old(out)@ + u32_bytes(x, e),
{
    let b0: u8 = (x / 0x1000000) as u8;
    let b1: u8 = ((x / 0x10000) % 0x100) as u8;
    let b2: u8 = ((x / 0x100) % 0x100) as u8;
    let b3: u8 = (x % 0x100) as u8;
    match e {
        Endian::Big => {
            out.push(b0);
            out.push(b1);
            out.push(b2);
            out.push(b3);
        },
        Endian::Little => {
            out.push(b3);
            out.push(b2);
            out.push(b1);
            out.push(b0);
        },
    }
    assert(out@ =~= old(out)@ + u32_bytes(x, e));
}

/// Reads a 16-bit value from two wire-order bytes at `pos`.
pub fn read_u16(data: &[u8], pos: usize, e: Endian) -> (r: u16)
    requires
        pos + 2 <= data@.len(),
    ensures
        r == u16_of(data@[pos as int], data@[pos as int + 1], e),
{
    let n: usize = data.len();
    let b0 = *vstd::slice::slice_index_get(data, pos);
    let b1 = *vstd::slice::slice_index_get(data, pos + 1);
    match e {
        Endian::Big => (b0 as u16) * 0x100 + (b1 as u16),
        Endian::Little => (b1 as u16) * 0x100 + (b0 as u16),
    }
}

/// Reads a 32-bit value from four wire-order bytes at `pos`.
pub fn read_u32(data: &[u8], pos: usize, e: Endian) -> (r: u32)
    requires
        pos + 4 <= data@.len(),
    ensures
        r == u32_of(
            data@[pos as int],
            data@[pos as int + 1],
            data@[pos as int + 2],
            data@[pos as int + 3],
            e,
        ),
{
    let n: usize = data.len();
    let b0 = *vstd::slice::slice_index_get(data, pos);
    let b1 = *vstd::slice::slice_index_get(data, pos + 1);
    let b2 = *vstd::slice::slice_index_get(data, pos + 2);
    let b3 = *vstd::slice::slice_index_get(data, pos + 3);
    match e {
        Endian::Big => (b0 as u32) * 0x1000000 + (b1 as u32) * 0x10000 + (b2 as u32) * 0x100 + (
        b3 as u32),
        Endian::Little => (b3 as u32) * 0x1000000 + (b2 as u32) * 0x10000 + (b1 as u32) * 0x100 + (
        b0 as u32),
    }
}

} // verus!
