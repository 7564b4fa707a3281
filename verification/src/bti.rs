//! The container assembler: end-to-end load (header, palette, image bytes,
//! codec decode) and save (header fix-up, palette, codec encode, padding),
//! and the heuristic that picks an output format for an RGBA image.
use vstd::prelude::*;

use crate::Endian;
use crate::BtiError;
use crate::codec::codec_dims_ok;
use crate::codec::decode_of;
use crate::codec::dims_ok;
use crate::codec::palette_needed_bytes;
use crate::codec::encode_of;
use crate::codec::encodable;
use crate::codec::image_size_u64;
use crate::codec::palette_needed;
use crate::codec::spec_image_size;
use crate::codec::tex_decode;
use crate::codec::tex_encode;
use crate::format::FilterMode;
use crate::format::Format;
use crate::format::TextureFormat;
use crate::format::lemma_format_byte_round_trip;
use crate::header::Header;
use crate::header::header_of;
use crate::header::header_valid;
use crate::header::spec_encode_header;
use crate::header::spec_default_header;
use crate::palette::Palette;

verus! {

/// A flat RGBA image: `width * height` pixels of four bytes each, row by
/// row.
#[derive(Clone, Debug, PartialEq, Eq)]
pub struct RgbaImage {
    pub width: u16,
    pub height: u16,
    pub data: Vec<u8>,
}

impl RgbaImage {
    /// The buffer holds exactly one four-byte value per pixel.
    pub open spec fn wf(&self) -> bool {
        self.data@.len() == self.width * self.height * 4
    }

    /// Wraps a flat RGBA buffer, when its length matches the dimensions.
    pub fn from_raw(width: u16, height: u16, data: Vec<u8>) -> (r: Option<RgbaImage>)
        ensures
            (r is Some) <==> data@.len() == width * height * 4,
            (r matches Some(img) ==> img.width == width && img.height == height && img.data@
                == data@ && img.wf()),
    {
        proof {
            assert((width as u64) * (height as u64) <= 65535 * 65535) by (nonlinear_arith)
                requires
                    width <= 65535 && height <= 65535,
            ;
        }
        let need: u64 = (width as u64) * (height as u64) * 4;
        if (data.len() as u64) == need {
            Some(RgbaImage { width, height, data })
        } else {
            None
        }
    }
}

/// The pixel's three color channels agree.
pub open spec fn pixel_gray(data: Seq<u8>, i: int) -> bool {
    data[4 * i] == data[4 * i + 1] && data[4 * i + 1] == data[4 * i + 2]
}

/// The pixel's alpha byte.
pub open spec fn pixel_alpha(data: Seq<u8>, i: int) -> u8 {
    data[4 * i + 3]
}

/// Every whole pixel of the buffer is gray.
pub open spec fn all_gray(data: Seq<u8>) -> bool {
    forall|i: int| 0 <= i < data.len() / 4 ==> #[trigger] pixel_gray(data, i)
}

/// Some pixel is not fully opaque.
pub open spec fn has_alpha(data: Seq<u8>) -> bool {
    exists|i: int| 0 <= i < data.len() / 4 && #[trigger] pixel_alpha(data, i) != 255
}

/// Some pixel is neither fully opaque nor fully transparent.
pub open spec fn complex_alpha(data: Seq<u8>) -> bool {
    exists|i: int|
        0 <= i < data.len() / 4 && #[trigger] pixel_alpha(data, i) != 255 && pixel_alpha(data, i)
            != 0
}

/// The output format the heuristic picks, in its fixed priority order:
/// gray beats complex alpha beats the compressed-block default.
pub open spec fn selected_format(data: Seq<u8>) -> TextureFormat {
    if all_gray(data) {
        TextureFormat::I8
    } else if complex_alpha(data) {
        TextureFormat::RGB5A3
    } else {
        TextureFormat::CMPR
    }
}

/// Whether the buffer can serve every read the header asks for: the whole
/// palette, the whole encoded image, and dimensions whose byte counts
/// stay in the codec's 32-bit range.
pub open spec fn spec_io_ok(s: Seq<u8>, h: Header) -> bool {
    &&& h.palettecount > 0 ==> h.palettedataoffset + 2 * h.palettecount <= s.len()
    &&& codec_dims_ok(h.width, h.height)
    &&& h.imagedataoffset + spec_image_size(h.format.0, h.width, h.height) <= s.len()
}

/// The palette bytes a load yields: fresh bytes at the header's offset, or
/// the palette already held when no entries are declared.
pub open spec fn loaded_palette(s: Seq<u8>, h: Header, old_pal: Seq<u8>) -> Seq<u8> {
    if h.palettecount > 0 {
        s.subrange(h.palettedataoffset as int, h.palettedataoffset + 2 * h.palettecount)
    } else {
        old_pal
    }
}

/// The encoded image bytes a load reads.
pub open spec fn image_slice(s: Seq<u8>, h: Header) -> Seq<u8> {
    s.subrange(
        h.imagedataoffset as int,
        h.imagedataoffset + spec_image_size(h.format.0, h.width, h.height),
    )
}

/// The palette as the codec receives it: zero-extended to the format's
/// full index range when the file carries fewer entries, so that an
/// index beyond the stored entries reads zeros.
pub open spec fn padded_palette(pal: Seq<u8>, f: TextureFormat) -> Seq<u8> {
    if pal.len() >= palette_needed(f) {
        pal
    } else {
        pal + Seq::new((palette_needed(f) - pal.len()) as nat, |i: int| 0u8)
    }
}

/// The RGBA bytes a load yields: the codec's decoding of the image bytes
/// against the loaded palette, zero-extended for the codec call.
pub open spec fn loaded_data(s: Seq<u8>, h: Header, old_pal: Seq<u8>) -> Seq<u8> {
    decode_of(
        image_slice(s, h),
        h.width,
        h.height,
        h.format.0.spec_byte(),
        padded_palette(loaded_palette(s, h, old_pal), h.format.0),
        h.paletteformat.spec_byte(),
    )
}

/// Bytes of padding that bring a stream of `n` bytes up to the next
/// 32-byte boundary.
pub open spec fn pad_len(n: int) -> int {
    (32 - n % 32) % 32
}

/// The padding itself: every byte is the runtime's pad value 0x40.
pub open spec fn pad_seq(n: int) -> Seq<u8> {
    Seq::new(pad_len(n) as nat, |i: int| 0x40u8)
}

/// The header a save writes: bookkeeping fields recomputed from the
/// palette so that the palette sits right after the 32-byte header and
/// the image data right after the palette.
pub open spec fn fixed_header(c: BTI) -> Header {
    Header {
        palettesenabled: if c.palette.data@.len() == 0 {
            0u8
        } else {
            1u8
        },
        palettecount: (c.palette.data@.len() / 2) as u16,
        palettedataoffset: if c.palette.data@.len() == 0 {
            0u32
        } else {
            32u32
        },
        imagedataoffset: (32 + c.palette.data@.len()) as u32,
        ..c.header
    }
}

/// A save's output before padding: the fixed-up header, the palette
/// bytes, then the codec's encoding of the pixel buffer.
pub open spec fn body_bytes(c: BTI, e: Endian) -> Seq<u8> {
    spec_encode_header(fixed_header(c), e) + c.palette.data@ + encode_of(
        c.header.format.0.spec_byte(),
        c.data@,
        c.header.width,
        c.header.height,
    )
}

/// A save's whole output: the body brought up to a 32-byte boundary.
pub open spec fn saved_bytes(c: BTI, e: Endian) -> Seq<u8> {
    body_bytes(c, e) + pad_seq(body_bytes(c, e).len() as int)
}

/// A container may be saved when its palette's entry count fits the
/// 16-bit count field, its format is one the codec can encode to, its
/// dimensions stay in the codec's 32-bit range, its pixel buffer covers
/// the dimensions, and a block-compressed texture is not empty.
pub open spec fn can_save(c: BTI) -> bool {
    &&& c.palette.data@.len() / 2 <= 65535
    &&& encodable(c.header.format.0)
    &&& codec_dims_ok(c.header.width, c.header.height)
    &&& c.data@.len() >= c.header.width * c.header.height * 4
    &&& c.header.format.0 == TextureFormat::CMPR ==> c.header.width > 0 && c.header.height > 0
}

/// Appends a slice's bytes.
fn append_bytes(out: &mut Vec<u8>, v: &[u8])
    ensures
        final(out)@ == old(out)@ + v@,
{
    let n: usize = v.len();
    let mut i: usize = 0;
    while i < n
        invariant
            n == v@.len(),
            i <= n,
            out@ == old(out)@ + v@.subrange(0, i as int),
        decreases n - i,
    {
        out.push(*vstd::slice::slice_index_get(v, i));
        proof {
            assert(out@ =~= old(out)@ + v@.subrange(0, i + 1));
        }
        i += 1;
    }
    proof {
        assert(v@.subrange(0, n as int) =~= v@);
    }
}

/// Parsing back what a save wrote recovers the container: the header with
/// its recomputed bookkeeping, the palette bytes unchanged, and exactly
/// the encoded payload the save appended, so the reloaded pixel buffer is
/// the codec's decode of its own encode. `enc` stands for any encoded
/// payload of the exact length the size function gives; the save path
/// appends one such payload after the header and palette.
#[verifier::rlimit(100)]
pub proof fn lemma_container_round_trip(c: BTI, e: Endian, enc: Seq<u8>)
    requires
        can_save(c),
        c.palette.data@.len() % 2 == 0,
        enc.len() == spec_image_size(c.header.format.0, c.header.width, c.header.height),
    ensures
        ({
            let out = spec_encode_header(fixed_header(c), e) + c.palette.data@ + enc + pad_seq(
                32 + c.palette.data@.len() + enc.len() as int,
            );
            &&& out.len() >= 32
            &&& header_valid(out)
            &&& header_of(out, e) == fixed_header(c)
            &&& spec_io_ok(out, fixed_header(c))
            &&& loaded_palette(out, fixed_header(c), Seq::<u8>::empty()) == c.palette.data@
            &&& image_slice(out, fixed_header(c)) == enc
        }),
{
    let fh = fixed_header(c);
    let hb = spec_encode_header(fh, e);
    let pal = c.palette.data@;
    let tail = pal + enc + pad_seq(32 + pal.len() + enc.len() as int);
    let out = hb + pal + enc + pad_seq(32 + pal.len() + enc.len() as int);
    crate::header::lemma_header_prefix(fh, e, tail);
    assert(out =~= hb + tail);
    assert(fh.palettecount == pal.len() / 2);
    assert(fh.imagedataoffset == 32 + pal.len());
    if pal.len() > 0 {
        assert(fh.palettecount > 0);
        assert(out.subrange(32, 32 + pal.len() as int) =~= pal);
        assert(loaded_palette(out, fh, Seq::<u8>::empty()) == pal);
    } else {
        assert(fh.palettecount == 0);
        assert(loaded_palette(out, fh, Seq::<u8>::empty()) =~= pal);
    }
    assert(out.subrange(32 + pal.len() as int, 32 + pal.len() + enc.len() as int) =~= enc);
    assert(spec_io_ok(out, fh));
}

/// An in-memory texture: its header, its palette bytes, and its decoded
/// RGBA pixel buffer.
#[derive(Clone, Debug, PartialEq, Eq)]
pub struct BTI {
    pub header: Header,
    pub palette: Palette,
    pub data: Vec<u8>,
}

impl Default for BTI {
    fn default() -> (r: Self)
        ensures
            r.header == spec_default_header(),
            r.palette.data@ == Seq::<u8>::empty(),
            r.data@ == Seq::<u8>::empty(),
    {
        BTI { header: Header::default(), palette: Palette::default(), data: Vec::new() }
    }
}

impl BTI {
    /// Inspects every pixel once and sets the header's format by the
    /// priority chain: all-gray, else complex alpha, else compressed
    /// blocks; the alpha flag is raised when any pixel is not fully
    /// opaque.
    pub fn detectandsetfittingformat(&mut self)
        ensures
            final(self).header == (Header {
                format: Format(selected_format(old(self).data@)),
                alpha: if has_alpha(old(self).data@) {
                    1u8
                } else {
                    old(self).header.alpha
                },
                ..old(self).header
            }),
            final(self).palette.data@ == old(self).palette.data@,
            final(self).data@ == old(self).data@,
    {
        let n: usize = self.data.len() / 4;
        let mut gray: bool = true;
        let mut any_alpha: bool = false;
        let mut cplx: bool = false;
        let mut i: usize = 0;
        while i < n
            invariant
                n == self.data@.len() / 4,
                i <= n,
                self.header == old(self).header,
                self.palette.data@ == old(self).palette.data@,
                self.data@ == old(self).data@,
                gray <==> (forall|j: int| 0 <= j < i ==> #[trigger] pixel_gray(self.data@, j)),
                any_alpha <==> (exists|j: int|
                    0 <= j < i && #[trigger] pixel_alpha(self.data@, j) != 255),
                cplx <==> (exists|j: int|
                    0 <= j < i && #[trigger] pixel_alpha(self.data@, j) != 255 && pixel_alpha(
                        self.data@,
                        j,
                    ) != 0),
            decreases n - i,
        {
            let dl: usize = self.data.len();
            assert(i * 4 + 3 < dl);
            let r = self.data[i * 4];
            let g = self.data[i * 4 + 1];
            let b = self.data[i * 4 + 2];
            let a = self.data[i * 4 + 3];
            proof {
                assert(pixel_gray(self.data@, i as int) == (r == g && g == b));
                assert(pixel_alpha(self.data@, i as int) == a);
            }
            if gray && (r != g || g != b || b != r) {
                gray = false;
            }
            if a != 255 {
                any_alpha = true;
                if a != 0 {
                    cplx = true;
                }
            }
            i += 1;
        }
        if gray {
            self.header.format = Format(TextureFormat::I8);
        } else if cplx {
            self.header.format = Format(TextureFormat::RGB5A3);
        } else {
            self.header.format = Format(TextureFormat::CMPR);
        }
        if any_alpha {
            self.header.alpha = 0x1;
        }
    }

    /// Builds a container from an RGBA image: linear filtering, one mip
    /// level, no palette, and the format the heuristic selects.
    pub fn from_image(image: RgbaImage) -> (r: BTI)
        ensures
            r.header == (Header {
                format: Format(selected_format(image.data@)),
                alpha: if has_alpha(image.data@) {
                    1u8
                } else {
                    0u8
                },
                width: image.width,
                height: image.height,
                minfilter: FilterMode::Linear,
                magfilter: FilterMode::Linear,
                mipmapcount: 1u8,
                ..spec_default_header()
            }),
            r.palette.data@ == Seq::<u8>::empty(),
            r.data@ == image.data@,
    {
        let mut result = BTI::default();
        result.header.format = Format(TextureFormat::CMPR);
        result.header.minfilter = FilterMode::Linear;
        result.header.magfilter = FilterMode::Linear;
        result.header.mipmapcount = 1;
        result.header.width = image.width;
        result.header.height = image.height;
        result.data = image.data;
        result.detectandsetfittingformat();
        result
    }

    /// Parses a whole container out of a byte buffer: the header from the
    /// first 32 bytes, the palette and encoded image from the offsets the
    /// header states, and the pixel buffer from the codec's decode. A
    /// palette shorter than the format's full index range is handed to
    /// the codec zero-extended, entries as read first. An unknown enum
    /// byte is a `FormatError`; a buffer too short for any declared read
    /// is an `IOError`; either way nothing is changed.
    pub fn load(&mut self, data: &[u8], endian: Endian) -> (r: Result<(), BtiError>)
        ensures
            (r == Ok::<(), BtiError>(())) <==> (data@.len() >= 32 && header_valid(data@)
                && spec_io_ok(data@, header_of(data@, endian))),
            (r == Err::<(), BtiError>(BtiError::FormatError)) <==> (data@.len() >= 32
                && !header_valid(data@)),
            (r == Err::<(), BtiError>(BtiError::IOError)) <==> (data@.len() < 32 || (header_valid(
                data@,
            ) && !spec_io_ok(data@, header_of(data@, endian)))),
            (r is Err) ==> final(self).header == old(self).header && final(self).palette.data@
                == old(self).palette.data@ && final(self).data@ == old(self).data@,
            (r is Ok) ==> final(self).header == header_of(data@, endian),
            (r is Ok) ==> final(self).palette.data@ == loaded_palette(
                data@,
                header_of(data@, endian),
                old(self).palette.data@,
            ),
            (r is Ok) ==> final(self).data@ == loaded_data(
                data@,
                header_of(data@, endian),
                old(self).palette.data@,
            ),
            (r is Ok) ==> final(self).data@.len() == header_of(data@, endian).width * header_of(
                data@,
                endian,
            ).height * 4,
    {
        let h = match Header::decode(data, endian) {
            Ok(h) => h,
            Err(e) => {
                return Err(e);
            },
        };
        let dlen: usize = data.len();
        if h.palettecount > 0 {
            if (h.palettedataoffset as u64) > (dlen as u64) || 2 * (h.palettecount as u64) > (
            dlen as u64) - (h.palettedataoffset as u64) {
                return Err(BtiError::IOError);
            }
        }
        if !dims_ok(h.width, h.height) {
            return Err(BtiError::IOError);
        }
        let size64: u64 = image_size_u64(h.format.0, h.width, h.height);
        if (h.imagedataoffset as u64) > (dlen as u64) || size64 > (dlen as u64) - (
        h.imagedataoffset as u64) {
            return Err(BtiError::IOError);
        }
        match self.palette.load(data, h.palettedataoffset as usize, h.palettecount as u32) {
            Ok(()) => {},
            Err(_) => {
                return Err(BtiError::IOError);
            },
        }
        let needed: u64 = palette_needed_bytes(h.format.0);
        let mut tlut: Vec<u8> = vstd::slice::slice_to_vec(self.palette.data.as_slice());
        while (tlut.len() as u64) < needed
            invariant
                needed == palette_needed(h.format.0),
                needed <= 32768,
                tlut@.len() <= needed || tlut@.len() == self.palette.data@.len(),
                tlut@.len() >= self.palette.data@.len(),
                tlut@ == self.palette.data@ + Seq::new(
                    (tlut@.len() - self.palette.data@.len()) as nat,
                    |i: int| 0u8,
                ),
            decreases needed - tlut@.len(),
        {
            tlut.push(0);
            proof {
                assert(tlut@ =~= self.palette.data@ + Seq::new(
                    (tlut@.len() - self.palette.data@.len()) as nat,
                    |i: int| 0u8,
                ));
            }
        }
        proof {
            assert(tlut@ =~= padded_palette(self.palette.data@, h.format.0));
        }
        let off: usize = h.imagedataoffset as usize;
        let end: usize = off + (size64 as usize);
        let src = vstd::slice::slice_subrange(data, off, end);
        proof {
            lemma_format_byte_round_trip(h.format.0);
            crate::codec::lemma_image_size_in_budget(h.format.0, h.width, h.height);
        }
        let decoded = tex_decode(
            src,
            h.width,
            h.height,
            h.format.0.to_byte(),
            tlut.as_slice(),
            h.paletteformat.to_byte(),
        );
        self.data = decoded;
        self.header = h;
        Ok(())
    }

    /// Parses a container from a byte buffer, starting from the default
    /// container; errors as `load` does and yield no container then.
    pub fn from_bytes(data: &[u8], endian: Endian) -> (r: Result<BTI, BtiError>)
        ensures
            (r is Ok) <==> (data@.len() >= 32 && header_valid(data@) && spec_io_ok(
                data@,
                header_of(data@, endian),
            )),
            (r == Err::<BTI, BtiError>(BtiError::FormatError)) <==> (data@.len() >= 32
                && !header_valid(data@)),
            (r == Err::<BTI, BtiError>(BtiError::IOError)) <==> (data@.len() < 32 || (header_valid(
                data@,
            ) && !spec_io_ok(data@, header_of(data@, endian)))),
            (r matches Ok(c) ==> c.header == header_of(data@, endian) && c.palette.data@
                == loaded_palette(data@, header_of(data@, endian), Seq::<u8>::empty()) && c.data@
                == loaded_data(data@, header_of(data@, endian), Seq::<u8>::empty())),
            (r matches Ok(c) ==> c.data@.len() == header_of(data@, endian).width * header_of(
                data@,
                endian,
            ).height * 4),
    {
        let mut result = BTI::default();
        match result.load(data, endian) {
            Ok(()) => Ok(result),
            Err(e) => Err(e),
        }
    }

    /// Serializes the container: recomputes the header's palette
    /// bookkeeping and offsets, then appends header, palette, encoded
    /// image and 0x40 padding up to a 32-byte boundary of the whole
    /// stream. The palette offset is 0 or 32 and the image data always
    /// follows the palette.
    #[verifier::rlimit(100)]
    pub fn write(&mut self, out: &mut Vec<u8>, endian: Endian)
        requires
            can_save(*old(self)),
        ensures
            final(self).header == fixed_header(*old(self)),
            final(self).palette.data@ == old(self).palette.data@,
            final(self).data@ == old(self).data@,
            final(out)@ == old(out)@ + body_bytes(*old(self), endian) + pad_seq(
                old(out)@.len() + body_bytes(*old(self), endian).len() as int,
            ),
            final(out)@.len() % 32 == 0,
            final(self).header.palettedataoffset == 0 || final(self).header.palettedataoffset
                == 32,
            old(self).palette.data@.len() > 0 ==> final(self).header.palettedataoffset == 32
                && final(self).header.imagedataoffset == 32 + old(self).palette.data@.len(),
            forall|i: int|
                old(out)@.len() + 32 + old(self).palette.data@.len() + spec_image_size(
                    old(self).header.format.0,
                    old(self).header.width,
                    old(self).header.height,
                ) <= i < final(out)@.len() ==> final(out)@[i] == 0x40,
    {
        let pal_len: usize = self.palette.data.len();
        self.header.palettesenabled = if pal_len == 0 {
            0
        } else {
            1
        };
        self.header.palettecount = (pal_len / 2) as u16;
        self.header.palettedataoffset = if pal_len == 0 {
            0
        } else {
            32
        };
        self.header.imagedataoffset = 32 + (pal_len as u32);
        proof {
            assert(self.header == fixed_header(*old(self)));
        }
        let hdr_bytes = self.header.encode(endian);
        append_bytes(out, hdr_bytes.as_slice());
        append_bytes(out, self.palette.data.as_slice());
        proof {
            lemma_format_byte_round_trip(self.header.format.0);
        }
        let encoded = tex_encode(
            self.header.format.0.to_byte(),
            self.data.as_slice(),
            self.header.width,
            self.header.height,
        );
        append_bytes(out, encoded.as_slice());
        proof {
            assert(out@ =~= old(out)@ + body_bytes(*old(self), endian));
        }
        let ghost base = out@;
        let rem: usize = out.len() % 32;
        let pad: usize = if rem == 0 {
            0
        } else {
            32 - rem
        };
        proof {
            assert(pad == pad_len(base.len() as int));
        }
        let mut j: usize = 0;
        while j < pad
            invariant
                j <= pad,
                out@ == base + Seq::new(j as nat, |i: int| 0x40u8),
            decreases pad - j,
        {
            out.push(0x40);
            proof {
                assert(out@ =~= base + Seq::new((j + 1) as nat, |i: int| 0x40u8));
            }
            j += 1;
        }
        proof {
            assert(Seq::new(pad as nat, |i: int| 0x40u8) =~= pad_seq(base.len() as int));
            assert(out@ =~= old(out)@ + body_bytes(*old(self), endian) + pad_seq(
                old(out)@.len() + body_bytes(*old(self), endian).len() as int,
            ));
        }
    }

    /// Serializes the container into a fresh byte buffer; with an
    /// in-memory destination nothing can fail, so the result is always
    /// the saved bytes.
    pub fn into_bytes(self, endian: Endian) -> (r: Result<Vec<u8>, BtiError>)
        requires
            can_save(self),
        ensures
            (r is Ok),
            (r matches Ok(v) ==> v@ == saved_bytes(self, endian)),
            (r matches Ok(v) ==> v@.len() % 32 == 0),
            (r matches Ok(v) ==> (forall|i: int|
                32 + self.palette.data@.len() + spec_image_size(
                    self.header.format.0,
                    self.header.width,
                    self.header.height,
                ) <= i < v@.len() ==> v@[i] == 0x40)),
    {
        let mut c = self;
        let mut out: Vec<u8> = Vec::new();
        c.write(&mut out, endian);
        proof {
            assert(out@ =~= saved_bytes(self, endian));
        }
        Ok(out)
    }

    /// Hands the pixel buffer back as an image, when its length matches
    /// the header's dimensions.
    pub fn into_image(self) -> (r: Option<RgbaImage>)
        ensures
            (r is Some) <==> self.data@.len() == self.header.width * self.header.height * 4,
            (r matches Some(img) ==> img.width == self.header.width && img.height
                == self.header.height && img.data@ == self.data@),
    {
        RgbaImage::from_raw(self.header.width, self.header.height, self.data)
    }
}

} // verus!

