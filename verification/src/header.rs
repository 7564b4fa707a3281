//! The fixed 32-byte header record: its wire layout, a byte-exact encoder
//! and a validating decoder, and the proof that they round-trip.
use vstd::prelude::*;

use crate::Endian;
use crate::BtiError;
use crate::bytes::u16_bytes;
use crate::bytes::u32_bytes;
use crate::bytes::u16_of;
use crate::bytes::u32_of;
use crate::bytes::lemma_u16_round_trip;
use crate::bytes::lemma_u32_round_trip;
use crate::bytes::write_u16;
use crate::bytes::write_u32;
use crate::bytes::read_u16;
use crate::bytes::read_u32;
use crate::codec::spec_image_size;
use crate::codec::image_size_u64;
use crate::format::Format;
use crate::format::TextureFormat;
use crate::format::WrapModes;
use crate::format::PaletteFormats;
use crate::format::FilterMode;

verus! {

/// The texture's fixed-layout descriptor; always exactly 32 bytes on the
/// wire, in the field order written here.
#[derive(Clone, Copy, Debug, PartialEq, Eq, Structural)]
pub struct Header {
    pub format: Format,
    pub alpha: u8,
    pub width: u16,
    pub height: u16,
    pub wraps: WrapModes,
    pub wrapt: WrapModes,
    pub palettesenabled: u8,
    pub paletteformat: PaletteFormats,
    pub palettecount: u16,
    pub palettedataoffset: u32,
    pub embeddedpalettedataoffset: u32,
    pub minfilter: FilterMode,
    pub magfilter: FilterMode,
    pub unk2: u16,
    pub mipmapcount: u8,
    pub unk3: u8,
    pub lodbais: u16,
    pub imagedataoffset: u32,
}

/// The exact 32 bytes of a header on the wire.
pub open spec fn spec_encode_header(h: Header, e: Endian) -> Seq<u8> {
    seq![h.format.0.spec_byte(), h.alpha] + u16_bytes(h.width, e) + u16_bytes(h.height, e) + seq![
        h.wraps.spec_byte(),
        h.wrapt.spec_byte(),
        h.palettesenabled,
        h.paletteformat.spec_byte(),
    ] + u16_bytes(h.palettecount, e) + u32_bytes(h.palettedataoffset, e) + u32_bytes(
        h.embeddedpalettedataoffset,
        e,
    ) + seq![h.minfilter.spec_byte(), h.magfilter.spec_byte()] + u16_bytes(h.unk2, e) + seq![
        h.mipmapcount,
        h.unk3,
    ] + u16_bytes(h.lodbais, e) + u32_bytes(h.imagedataoffset, e)
}

/// Whether every enum-tagged byte of the first 32 bytes names a known
/// enumerant.
pub open spec fn header_valid(s: Seq<u8>) -> bool {
    &&& TextureFormat::spec_from_byte(s[0]) is Some
    &&& WrapModes::spec_from_byte(s[6]) is Some
    &&& WrapModes::spec_from_byte(s[7]) is Some
    &&& PaletteFormats::spec_from_byte(s[9]) is Some
    &&& FilterMode::spec_from_byte(s[20]) is Some
    &&& FilterMode::spec_from_byte(s[21]) is Some
}

/// The header read from the first 32 bytes, assuming `header_valid`.
pub open spec fn header_of(s: Seq<u8>, e: Endian) -> Header {
    Header {
        format: Format(TextureFormat::spec_from_byte(s[0]).unwrap()),
        alpha: s[1],
        width: u16_of(s[2], s[3], e),
        height: u16_of(s[4], s[5], e),
        wraps: WrapModes::spec_from_byte(s[6]).unwrap(),
        wrapt: WrapModes::spec_from_byte(s[7]).unwrap(),
        palettesenabled: s[8],
        paletteformat: PaletteFormats::spec_from_byte(s[9]).unwrap(),
        palettecount: u16_of(s[10], s[11], e),
        palettedataoffset: u32_of(s[12], s[13], s[14], s[15], e),
        embeddedpalettedataoffset: u32_of(s[16], s[17], s[18], s[19], e),
        minfilter: FilterMode::spec_from_byte(s[20]).unwrap(),
        magfilter: FilterMode::spec_from_byte(s[21]).unwrap(),
        unk2: u16_of(s[22], s[23], e),
        mipmapcount: s[24],
        unk3: s[25],
        lodbais: u16_of(s[26], s[27], e),
        imagedataoffset: u32_of(s[28], s[29], s[30], s[31], e),
    }
}

/// Decoding the first 32 bytes: the header, or nothing when an enum byte
/// is unknown.
pub open spec fn spec_decode_header(s: Seq<u8>, e: Endian) -> Option<Header> {
    if header_valid(s) {
        Some(header_of(s, e))
    } else {
        None
    }
}

/// The all-zero header: I4 format, edge-clamped axes, nearest filtering,
/// no palette and no offsets.
pub open spec fn spec_default_header() -> Header {
    Header {
        format: Format(TextureFormat::I4),
        alpha: 0u8,
        width: 0u16,
        height: 0u16,
        wraps: WrapModes::ClampToEdge,
        wrapt: WrapModes::ClampToEdge,
        palettesenabled: 0u8,
        paletteformat: PaletteFormats::IA8,
        palettecount: 0u16,
        palettedataoffset: 0u32,
        embeddedpalettedataoffset: 0u32,
        minfilter: FilterMode::Nearest,
        magfilter: FilterMode::Nearest,
        unk2: 0u16,
        mipmapcount: 0u8,
        unk3: 0u8,
        lodbais: 0u16,
        imagedataoffset: 0u32,
    }
}

impl Default for Header {
    fn default() -> (r: Self)
        ensures
            r == spec_default_header(),
    {
        Header {
            format: Format(TextureFormat::I4),
            alpha: 0,
            width: 0,
            height: 0,
            wraps: WrapModes::ClampToEdge,
            wrapt: WrapModes::ClampToEdge,
            palettesenabled: 0,
            paletteformat: PaletteFormats::IA8,
            palettecount: 0,
            palettedataoffset: 0,
            embeddedpalettedataoffset: 0,
            minfilter: FilterMode::Nearest,
            magfilter: FilterMode::Nearest,
            unk2: 0,
            mipmapcount: 0,
            unk3: 0,
            lodbais: 0,
            imagedataoffset: 0,
        }
    }
}

impl Header {
    /// Serializes the header to its exact 32 wire bytes.
    pub fn encode(&self, e: Endian) -> (r: Vec<u8>)
        ensures
            r@ == spec_encode_header(*self, e),
            r@.len() == 32,
    {
        let mut out: Vec<u8> = Vec::new();
        out.push(self.format.0.to_byte());
        out.push(self.alpha);
        write_u16(&mut out, self.width, e);
        write_u16(&mut out, self.height, e);
        out.push(self.wraps.to_byte());
        out.push(self.wrapt.to_byte());
        out.push(self.palettesenabled);
        out.push(self.paletteformat.to_byte());
        write_u16(&mut out, self.palettecount, e);
        write_u32(&mut out, self.palettedataoffset, e);
        write_u32(&mut out, self.embeddedpalettedataoffset, e);
        out.push(self.minfilter.to_byte());
        out.push(self.magfilter.to_byte());
        write_u16(&mut out, self.unk2, e);
        out.push(self.mipmapcount);
        out.push(self.unk3);
        write_u16(&mut out, self.lodbais, e);
        write_u32(&mut out, self.imagedataoffset, e);
        proof {
            assert(out@ =~= spec_encode_header(*self, e));
        }
        out
    }

    /// Parses a header from the first 32 bytes: too few bytes is an
    /// `IOError`; an unknown enum byte is a `FormatError`.
    pub fn decode(data: &[u8], e: Endian) -> (r: Result<Header, BtiError>)
        ensures
            data@.len() < 32 ==> r == Err::<Header, BtiError>(BtiError::IOError),
            data@.len() >= 32 && header_valid(data@) ==> r == Ok::<Header, BtiError>(
                header_of(data@, e),
            ),
            data@.len() >= 32 && !header_valid(data@) ==> r == Err::<Header, BtiError>(
                BtiError::FormatError,
            ),
    {
        if data.len() < 32 {
            return Err(BtiError::IOError);
        }
        let format = match TextureFormat::from_byte(*vstd::slice::slice_index_get(data, 0)) {
            Some(f) => f,
            None => {
                return Err(BtiError::FormatError);
            },
        };
        let wraps = match WrapModes::from_byte(*vstd::slice::slice_index_get(data, 6)) {
            Some(w) => w,
            None => {
                return Err(BtiError::FormatError);
            },
        };
        let wrapt = match WrapModes::from_byte(*vstd::slice::slice_index_get(data, 7)) {
            Some(w) => w,
            None => {
                return Err(BtiError::FormatError);
            },
        };
        let paletteformat = match PaletteFormats::from_byte(
            *vstd::slice::slice_index_get(data, 9),
        ) {
            Some(p) => p,
            None => {
                return Err(BtiError::FormatError);
            },
        };
        let minfilter = match FilterMode::from_byte(*vstd::slice::slice_index_get(data, 20)) {
            Some(f) => f,
            None => {
                return Err(BtiError::FormatError);
            },
        };
        let magfilter = match FilterMode::from_byte(*vstd::slice::slice_index_get(data, 21)) {
            Some(f) => f,
            None => {
                return Err(BtiError::FormatError);
            },
        };
        Ok(
            Header {
                format: Format(format),
                alpha: *vstd::slice::slice_index_get(data, 1),
                width: read_u16(data, 2, e),
                height: read_u16(data, 4, e),
                wraps,
                wrapt,
                palettesenabled: *vstd::slice::slice_index_get(data, 8),
                paletteformat,
                palettecount: read_u16(data, 10, e),
                palettedataoffset: read_u32(data, 12, e),
                embeddedpalettedataoffset: read_u32(data, 16, e),
                minfilter,
                magfilter,
                unk2: read_u16(data, 22, e),
                mipmapcount: *vstd::slice::slice_index_get(data, 24),
                unk3: *vstd::slice::slice_index_get(data, 25),
                lodbais: read_u16(data, 26, e),
                imagedataoffset: read_u32(data, 28, e),
            },
        )
    }

    /// The byte count of this texture's encoded image data, as the codec's
    /// size function gives it.
    pub fn image_size(&self) -> (r: u32)
        requires
            spec_image_size(self.format.0, self.width, self.height) < 0x1_0000_0000,
        ensures
            r == spec_image_size(self.format.0, self.width, self.height),
    {
        let s = image_size_u64(self.format.0, self.width, self.height);
        s as u32
    }
}

/// Every in-memory header survives the trip through its wire bytes, in
/// either byte order.
#[verifier::rlimit(100)]
pub proof fn lemma_header_round_trip(h: Header, e: Endian)
    ensures
        spec_decode_header(spec_encode_header(h, e), e) == Some(h),
{
    let s = spec_encode_header(h, e);
    assert(s[0] == h.format.0.spec_byte());
    assert(s[1] == h.alpha);
    assert(s[2] == u16_bytes(h.width, e)[0] && s[3] == u16_bytes(h.width, e)[1]);
    assert(s[4] == u16_bytes(h.height, e)[0] && s[5] == u16_bytes(h.height, e)[1]);
    assert(s[6] == h.wraps.spec_byte());
    assert(s[7] == h.wrapt.spec_byte());
    assert(s[8] == h.palettesenabled);
    assert(s[9] == h.paletteformat.spec_byte());
    assert(s[10] == u16_bytes(h.palettecount, e)[0] && s[11] == u16_bytes(h.palettecount, e)[1]);
    assert(s[12] == u32_bytes(h.palettedataoffset, e)[0] && s[13] == u32_bytes(
        h.palettedataoffset,
        e,
    )[1] && s[14] == u32_bytes(h.palettedataoffset, e)[2] && s[15] == u32_bytes(
        h.palettedataoffset,
        e,
    )[3]);
    assert(s[16] == u32_bytes(h.embeddedpalettedataoffset, e)[0] && s[17] == u32_bytes(
        h.embeddedpalettedataoffset,
        e,
    )[1] && s[18] == u32_bytes(h.embeddedpalettedataoffset, e)[2] && s[19] == u32_bytes(
        h.embeddedpalettedataoffset,
        e,
    )[3]);
    assert(s[20] == h.minfilter.spec_byte());
    assert(s[21] == h.magfilter.spec_byte());
    assert(s[22] == u16_bytes(h.unk2, e)[0] && s[23] == u16_bytes(h.unk2, e)[1]);
    assert(s[24] == h.mipmapcount);
    assert(s[25] == h.unk3);
    assert(s[26] == u16_bytes(h.lodbais, e)[0] && s[27] == u16_bytes(h.lodbais, e)[1]);
    assert(s[28] == u32_bytes(h.imagedataoffset, e)[0] && s[29] == u32_bytes(
        h.imagedataoffset,
        e,
    )[1] && s[30] == u32_bytes(h.imagedataoffset, e)[2] && s[31] == u32_bytes(
        h.imagedataoffset,
        e,
    )[3]);
    lemma_u16_round_trip(h.width, e);
    lemma_u16_round_trip(h.height, e);
    lemma_u16_round_trip(h.palettecount, e);
    lemma_u16_round_trip(h.unk2, e);
    lemma_u16_round_trip(h.lodbais, e);
    lemma_u32_round_trip(h.palettedataoffset, e);
    lemma_u32_round_trip(h.embeddedpalettedataoffset, e);
    lemma_u32_round_trip(h.imagedataoffset, e);
    assert(header_valid(s));
    assert(header_of(s, e) == h);
}

/// A header's wire bytes still decode to that header with anything
/// appended after them: the decoder reads the first 32 bytes alone.
#[verifier::rlimit(100)]
pub proof fn lemma_header_prefix(h: Header, e: Endian, rest: Seq<u8>)
    ensures
        spec_encode_header(h, e).len() == 32,
        header_valid(spec_encode_header(h, e) + rest),
        header_of(spec_encode_header(h, e) + rest, e) == h,
{
    let hb = spec_encode_header(h, e);
    lemma_header_round_trip(h, e);
    assert(hb.len() == 32);
    let s = hb + rest;
    assert forall|i: int| 0 <= i < 32 implies s[i] == hb[i] by {}
    assert(header_valid(s));
    assert(header_of(s, e) == header_of(hb, e));
}

} // verus!
