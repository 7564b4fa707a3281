//! The boundary to the gctex texture codec: the byte-size function of each
//! hardware format (stated exactly and computed here), and trusted wrappers
//! around the codec's encode and decode calls.
use vstd::prelude::*;

use crate::format::TextureFormat;

verus! {

/// Horizontal texel count of one encoded block.
pub open spec fn block_w(f: TextureFormat) -> int {
    match f {
        TextureFormat::I4 => 8,
        TextureFormat::I8 => 8,
        TextureFormat::IA4 => 8,
        TextureFormat::C4 => 8,
        TextureFormat::C8 => 8,
        TextureFormat::CMPR => 8,
        _ => 4,
    }
}

/// Vertical texel count of one encoded block.
pub open spec fn block_h(f: TextureFormat) -> int {
    match f {
        TextureFormat::I4 => 8,
        TextureFormat::C4 => 8,
        TextureFormat::CMPR => 8,
        _ => 4,
    }
}

/// Encoded bytes per block.
pub open spec fn block_bytes(f: TextureFormat) -> int {
    match f {
        TextureFormat::RGBA8 => 64,
        _ => 32,
    }
}

/// Exact byte count of an encoded image: whole blocks horizontally and
/// vertically (dimensions rounded up), times the block's byte size.
pub open spec fn spec_image_size(f: TextureFormat, w: u16, h: u16) -> int {
    ((w + block_w(f) - 1) / block_w(f)) * ((h + block_h(f) - 1) / block_h(f)) * block_bytes(f)
}

/// Dimensions small enough that the codec's internal 32-bit byte counts,
/// including those of block-padded copies, cannot overflow.
pub open spec fn codec_dims_ok(w: u16, h: u16) -> bool {
    (w + 7) * (h + 7) * 4 < 0x1_0000_0000
}

/// Least palette byte length an index of the format can address; zero for
/// the formats that use no palette.
pub open spec fn palette_needed(f: TextureFormat) -> int {
    match f {
        TextureFormat::C4 => 32,
        TextureFormat::C8 => 512,
        TextureFormat::C14X2 => 32768,
        _ => 0,
    }
}

/// The formats the codec can encode to; the palette-indexed ones it can
/// only decode.
pub open spec fn encodable(f: TextureFormat) -> bool {
    match f {
        TextureFormat::C4 => false,
        TextureFormat::C8 => false,
        TextureFormat::C14X2 => false,
        _ => true,
    }
}

/// Computes `spec_image_size` without overflow.
pub fn image_size_u64(f: TextureFormat, w: u16, h: u16) -> (r: u64)
    ensures
        r == spec_image_size(f, w, h),
{
    let bw: u64 = match f {
        TextureFormat::I4 => 8,
        TextureFormat::I8 => 8,
        TextureFormat::IA4 => 8,
        TextureFormat::C4 => 8,
        TextureFormat::C8 => 8,
        TextureFormat::CMPR => 8,
        _ => 4,
    };
    let bh: u64 = match f {
        TextureFormat::I4 => 8,
        TextureFormat::C4 => 8,
        TextureFormat::CMPR => 8,
        _ => 4,
    };
    let bb: u64 = match f {
        TextureFormat::RGBA8 => 64,
        _ => 32,
    };
    let xt: u64 = ((w as u64) + bw - 1) / bw;
    let yt: u64 = ((h as u64) + bh - 1) / bh;
    assert(xt <= 16385 && yt <= 16385);
    assert(xt * yt * bb <= 16385 * 16385 * 64) by (nonlinear_arith)
        requires
            xt <= 16385 && yt <= 16385 && bb <= 64,
    ;
    xt * yt * bb
}

/// Decides `codec_dims_ok` without overflow.
pub fn dims_ok(w: u16, h: u16) -> (r: bool)
    ensures
        r == codec_dims_ok(w, h),
{
    assert(((w as u64) + 7) * ((h as u64) + 7) <= 65542 * 65542) by (nonlinear_arith)
        requires
            w <= 65535 && h <= 65535,
    ;
    let p: u64 = ((w as u64) + 7) * ((h as u64) + 7);
    p * 4 < 0x1_0000_0000
}

/// Computes `palette_needed`.
pub fn palette_needed_bytes(f: TextureFormat) -> (r: u64)
    ensures
        r == palette_needed(f),
{
    match f {
        TextureFormat::C4 => 32,
        TextureFormat::C8 => 512,
        TextureFormat::C14X2 => 32768,
        _ => 0,
    }
}

/// What the codec's decode call returns; a function of its arguments alone.
pub uninterp spec fn decode_of(
    src: Seq<u8>,
    width: u16,
    height: u16,
    format: u8,
    tlut: Seq<u8>,
    tlut_format: u8,
) -> Seq<u8>;

/// What the codec's encode call returns; a function of its arguments alone.
pub uninterp spec fn encode_of(format: u8, src: Seq<u8>, width: u16, height: u16) -> Seq<u8>;

/// The size function stays under the codec's 32-bit byte budget whenever
/// the dimensions do: each tile count times its block width is at most
/// the rounded-up dimension, so the product is bounded by the budget.
pub proof fn lemma_image_size_in_budget(f: TextureFormat, w: u16, h: u16)
    requires
        codec_dims_ok(w, h),
    ensures
        spec_image_size(f, w, h) < 0x1_0000_0000,
{
    let bw = block_w(f);
    let bh = block_h(f);
    let bb = block_bytes(f);
    let xt = (w + bw - 1) / bw;
    let yt = (h + bh - 1) / bh;
    assert(4 <= bw <= 8 && 4 <= bh <= 8 && 0 < bb <= 64);
    vstd::arithmetic::div_mod::lemma_fundamental_div_mod(w + bw - 1, bw);
    vstd::arithmetic::div_mod::lemma_fundamental_div_mod(h + bh - 1, bh);
    assert(xt * 4 <= w + 7 && yt * 4 <= h + 7) by (nonlinear_arith)
        requires
            4 <= bw <= 8 && 4 <= bh <= 8 && 0 <= w && 0 <= h && 0 <= xt && 0 <= yt && bw * xt <= w
                + bw - 1 && bh * yt <= h + bh - 1,
    ;
    assert(xt * yt * bb < 0x1_0000_0000) by (nonlinear_arith)
        requires
            0 <= xt && 0 <= yt && 0 < bb <= 64 && xt * 4 <= w + 7 && yt * 4 <= h + 7 && (w + 7) * (
            h + 7) * 4 < 0x1_0000_0000,
    ;
}

/// Relies on gctex::decode: a deterministic function of the encoded bytes,
/// dimensions, format byte and palette, returning an RGBA buffer allocated
/// as exactly `width * height * 4` bytes. Its asserts demand at least
/// `compute_image_size` source bytes but compare byte counts in 32-bit
/// arithmetic, so the source must also stay below 2^32 bytes; a
/// palette-indexed format reads palette entries by index, so the palette
/// must cover the index range.
#[verifier::external_body]
pub(crate) fn tex_decode(
    src: &[u8],
    width: u16,
    height: u16,
    format_byte: u8,
    tlut: &[u8],
    tlut_format_byte: u8,
) -> (r: Vec<u8>)
    requires
        TextureFormat::spec_from_byte(format_byte) is Some,
        codec_dims_ok(width, height),
        src@.len() < 0x1_0000_0000,
        src@.len() >= spec_image_size(
            TextureFormat::spec_from_byte(format_byte).unwrap(),
            width,
            height,
        ),
        tlut@.len() >= palette_needed(TextureFormat::spec_from_byte(format_byte).unwrap()),
    ensures
        r@ == decode_of(src@, width, height, format_byte, tlut@, tlut_format_byte),
        r@.len() == width * height * 4,
{
    let f = gctex::TextureFormat::from_u32(format_byte as u32).unwrap();
    gctex::decode(src, width as u32, height as u32, f, tlut, tlut_format_byte as u32)
}

/// Relies on gctex::encode: a deterministic function of the format byte,
/// RGBA bytes and dimensions, returning a buffer allocated as exactly
/// `compute_image_size` bytes. Its asserts demand `width * height * 4`
/// source bytes; the palette-indexed formats are refused, and the
/// block-compressed encoder refuses empty input.
#[verifier::external_body]
pub(crate) fn tex_encode(format_byte: u8, src: &[u8], width: u16, height: u16) -> (r: Vec<u8>)
    requires
        TextureFormat::spec_from_byte(format_byte) is Some,
        encodable(TextureFormat::spec_from_byte(format_byte).unwrap()),
        codec_dims_ok(width, height),
        src@.len() >= width * height * 4,
        format_byte == TextureFormat::CMPR.spec_byte() ==> width > 0 && height > 0,
    ensures
        r@ == encode_of(format_byte, src@, width, height),
        r@.len() == spec_image_size(
            TextureFormat::spec_from_byte(format_byte).unwrap(),
            width,
            height,
        ),
{
    let f = gctex::TextureFormat::from_u32(format_byte as u32).unwrap();
    gctex::encode(f, src, width as u32, height as u32)
}

} // verus!
