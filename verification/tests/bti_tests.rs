use bti_lib::BTI;
use bti_lib::BtiError;
use bti_lib::Endian;
use bti_lib::FilterMode;
use bti_lib::Format;
use bti_lib::Header;
use bti_lib::Palette;
use bti_lib::PaletteFormats;
use bti_lib::RgbaImage;
use bti_lib::TextureFormat;
use bti_lib::WrapModes;

fn sample_header() -> Header {
    Header {
        format: Format(TextureFormat::RGB565),
        alpha: 1,
        width: 0x0102,
        height: 0x0304,
        wraps: WrapModes::Repeat,
        wrapt: WrapModes::MirroredRepeat,
        palettesenabled: 1,
        paletteformat: PaletteFormats::RGB5A3,
        palettecount: 0x1122,
        palettedataoffset: 0x0A0B0C0D,
        embeddedpalettedataoffset: 0x11223344,
        minfilter: FilterMode::LinearMipmapLinear,
        magfilter: FilterMode::Linear,
        unk2: 0xBEEF,
        mipmapcount: 3,
        unk3: 7,
        lodbais: 0x00FF,
        imagedataoffset: 0x00000024,
    }
}

#[test]
fn header_encode_exact_bytes_big_endian() {
    let h = sample_header();
    let bytes = h.encode(Endian::Big);
    let expected: Vec<u8> = vec![
        0x04, 0x01, // format, alpha
        0x01, 0x02, // width
        0x03, 0x04, // height
        0x01, 0x02, // wraps, wrapt
        0x01, 0x02, // palettesenabled, paletteformat
        0x11, 0x22, // palettecount
        0x0A, 0x0B, 0x0C, 0x0D, // palettedataoffset
        0x11, 0x22, 0x33, 0x44, // embeddedpalettedataoffset
        0x05, 0x01, // minfilter, magfilter
        0xBE, 0xEF, // unk2
        0x03, 0x07, // mipmapcount, unk3
        0x00, 0xFF, // lodbais
        0x00, 0x00, 0x00, 0x24, // imagedataoffset
    ];
    assert_eq!(bytes, expected);
}

#[test]
fn header_round_trip_big_endian() {
    let h = sample_header();
    let bytes = h.encode(Endian::Big);
    assert_eq!(bytes.len(), 32);
    let back = Header::decode(&bytes, Endian::Big).unwrap();
    assert_eq!(back, h);
}

#[test]
fn header_round_trip_little_endian() {
    let h = sample_header();
    let bytes = h.encode(Endian::Little);
    assert_eq!(bytes.len(), 32);
    // The multi-byte fields come out swapped relative to big-endian.
    assert_eq!(bytes[2], 0x02);
    assert_eq!(bytes[3], 0x01);
    assert_eq!(bytes[12], 0x0D);
    let back = Header::decode(&bytes, Endian::Little).unwrap();
    assert_eq!(back, h);
}

#[test]
fn header_short_input_is_io_error() {
    let bytes = vec![0u8; 31];
    assert_eq!(Header::decode(&bytes, Endian::Big), Err(BtiError::IOError));
}

#[test]
fn header_bad_wrap_byte_is_format_error() {
    let h = sample_header();
    let mut bytes = h.encode(Endian::Big);
    bytes[6] = 3; // no wrap mode has this byte
    assert_eq!(Header::decode(&bytes, Endian::Big), Err(BtiError::FormatError));
}

#[test]
fn image_size_matches_codec_examples() {
    let mut h = sample_header();
    h.format = Format(TextureFormat::C8);
    h.width = 128;
    h.height = 128;
    assert_eq!(h.image_size(), 16384);
    h.format = Format(TextureFormat::I4);
    h.width = 10;
    h.height = 10;
    // 10x10 rounds up to 2x2 blocks of 8x8 texels, 32 bytes each.
    assert_eq!(h.image_size(), 128);
    h.format = Format(TextureFormat::RGBA8);
    h.width = 4;
    h.height = 4;
    assert_eq!(h.image_size(), 64);
}

fn gray_image_2x2(alpha_of_last: u8) -> RgbaImage {
    let mut data = Vec::new();
    for i in 0..4 {
        data.push(10);
        data.push(10);
        data.push(10);
        data.push(if i == 3 { alpha_of_last } else { 255 });
    }
    RgbaImage { width: 2, height: 2, data }
}

#[test]
fn selector_all_gray_opaque_picks_i8_no_alpha() {
    let bti = BTI::from_image(gray_image_2x2(255));
    assert_eq!(bti.header.format.0, TextureFormat::I8);
    assert_eq!(bti.header.alpha, 0);
}

#[test]
fn selector_gray_with_half_alpha_still_gray_but_flagged() {
    // The gray check outranks the alpha-complexity check, so the image
    // stays on the grayscale format; the alpha flag is still raised.
    let bti = BTI::from_image(gray_image_2x2(128));
    assert_eq!(bti.header.format.0, TextureFormat::I8);
    assert_eq!(bti.header.alpha, 1);
}

#[test]
fn selector_non_gray_complex_alpha_picks_rgb5a3() {
    let mut img = gray_image_2x2(128);
    img.data[0] = 200; // break the gray run
    let bti = BTI::from_image(img);
    assert_eq!(bti.header.format.0, TextureFormat::RGB5A3);
    assert_eq!(bti.header.alpha, 1);
}

#[test]
fn selector_non_gray_opaque_picks_cmpr_no_alpha() {
    let mut img = gray_image_2x2(255);
    img.data[0] = 200;
    let bti = BTI::from_image(img);
    assert_eq!(bti.header.format.0, TextureFormat::CMPR);
    assert_eq!(bti.header.alpha, 0);
}

#[test]
fn selector_non_gray_binary_alpha_picks_cmpr_flagged() {
    let mut img = gray_image_2x2(0); // fully transparent pixel: simple alpha
    img.data[0] = 200;
    let bti = BTI::from_image(img);
    assert_eq!(bti.header.format.0, TextureFormat::CMPR);
    assert_eq!(bti.header.alpha, 1);
}

#[test]
fn save_offsets_and_padding() {
    // An 8x4 grayscale texture with a two-entry palette: the palette must
    // land at offset 32, the image data right after it, and the output
    // must be padded to a 32-byte boundary with 0x40 bytes.
    let mut c = BTI {
        header: Header {
            format: Format(TextureFormat::I8),
            width: 8,
            height: 4,
            ..Header::default()
        },
        palette: Palette { data: vec![0xAA, 0xBB, 0xCC, 0xDD] },
        data: vec![10u8; 8 * 4 * 4],
    };
    let mut out = Vec::new();
    c.write(&mut out, Endian::Big);
    assert_eq!(c.header.palettesenabled, 1);
    assert_eq!(c.header.palettecount, 2);
    assert_eq!(c.header.palettedataoffset, 32);
    assert_eq!(c.header.imagedataoffset, 36);
    // 32 header + 4 palette + 32 encoded I8 bytes = 68, padded to 96.
    assert_eq!(out.len(), 96);
    assert_eq!(out.len() % 32, 0);
    assert_eq!(&out[32..36], &[0xAA, 0xBB, 0xCC, 0xDD]);
    for i in 68..96 {
        assert_eq!(out[i], 0x40);
    }
    // The header on the wire states the recomputed offsets.
    let h = Header::decode(&out, Endian::Big).unwrap();
    assert_eq!(h, c.header);
}

#[test]
fn save_without_palette_keeps_offset_zero() {
    let c = BTI::from_image(gray_image_2x2(255));
    let mut c2 = c.clone();
    let mut out = Vec::new();
    c2.write(&mut out, Endian::Big);
    assert_eq!(c2.header.palettesenabled, 0);
    assert_eq!(c2.header.palettecount, 0);
    assert_eq!(c2.header.palettedataoffset, 0);
    assert_eq!(c2.header.imagedataoffset, 32);
    assert_eq!(out.len() % 32, 0);
}

#[test]
fn round_trip_gray_image_through_bytes() {
    // 8x4 is block-aligned for the 8-bit grayscale format. Value 10 is a
    // fixed point of the encoder's luminosity formula, and the decoder
    // replicates the intensity into all four channels.
    let mut data = Vec::new();
    for _ in 0..(8 * 4) {
        data.push(10);
        data.push(10);
        data.push(10);
        data.push(255);
    }
    let img = RgbaImage { width: 8, height: 4, data };
    let c = BTI::from_image(img);
    assert_eq!(c.header.format.0, TextureFormat::I8);
    let bytes = c.into_bytes(Endian::Big).unwrap();
    assert_eq!(bytes.len() % 32, 0);
    let back = BTI::from_bytes(&bytes, Endian::Big).unwrap();
    assert_eq!(back.header.width, 8);
    assert_eq!(back.header.height, 4);
    assert_eq!(back.header.alpha, 0);
    assert_eq!(back.header.format.0, TextureFormat::I8);
    let out = back.into_image().unwrap();
    assert_eq!(out.width, 8);
    assert_eq!(out.height, 4);
    assert_eq!(out.data.len(), 8 * 4 * 4);
    for p in 0..(8 * 4) {
        assert_eq!(out.data[4 * p], 10);
        assert_eq!(out.data[4 * p + 1], 10);
        assert_eq!(out.data[4 * p + 2], 10);
        assert_eq!(out.data[4 * p + 3], 10);
    }
}

#[test]
fn round_trip_rgb5a3_lattice_image_is_lossless() {
    // A 4x4 non-gray image with one translucent pixel, every channel on
    // the format's representable lattice: opaque pixels use 5-bit
    // channels of the form (v5 << 3) | (v5 >> 2), the translucent pixel
    // uses nibble-doubled channels and a 3-bit alpha image value.
    let mut data = Vec::new();
    for p in 0..16 {
        if p == 5 {
            // 4-bit channels with hi nibble == lo nibble; alpha 146
            // decodes from and back to the 3-bit code 4.
            data.extend_from_slice(&[0x44, 0x22, 0x88, 146]);
        } else {
            // opaque: 5-bit lattice values
            data.extend_from_slice(&[0x08, 0x10, 0xFF, 255]);
        }
    }
    let img = RgbaImage { width: 4, height: 4, data: data.clone() };
    let c = BTI::from_image(img);
    assert_eq!(c.header.format.0, TextureFormat::RGB5A3);
    assert_eq!(c.header.alpha, 1);
    let bytes = c.into_bytes(Endian::Big).unwrap();
    let back = BTI::from_bytes(&bytes, Endian::Big).unwrap();
    assert_eq!(back.header.alpha, 1);
    let out = back.into_image().unwrap();
    assert_eq!(out.width, 4);
    assert_eq!(out.height, 4);
    assert_eq!(out.data, data);
}

#[test]
fn short_palette_is_io_error() {
    // A header declaring five palette entries over a stream that ends
    // before the ten palette bytes do.
    let mut h = Header::default();
    h.palettesenabled = 1;
    h.palettecount = 5;
    h.palettedataoffset = 32;
    h.imagedataoffset = 42;
    let mut bytes = h.encode(Endian::Big);
    bytes.extend_from_slice(&[0u8; 6]); // only 6 of the 10 palette bytes
    assert_eq!(BTI::from_bytes(&bytes, Endian::Big), Err(BtiError::IOError));
}

#[test]
fn unknown_format_byte_is_format_error() {
    let h = Header::default();
    let mut bytes = h.encode(Endian::Big);
    bytes[0] = 0x07; // matches no pixel-format enumerant
    bytes.extend_from_slice(&[0u8; 64]);
    assert_eq!(BTI::from_bytes(&bytes, Endian::Big), Err(BtiError::FormatError));
}

#[test]
fn truncated_image_data_is_io_error() {
    // A valid 8x4 grayscale header whose image bytes run past the end.
    let mut h = Header::default();
    h.format = Format(TextureFormat::I8);
    h.width = 8;
    h.height = 4;
    h.imagedataoffset = 32;
    let mut bytes = h.encode(Endian::Big);
    bytes.extend_from_slice(&[0u8; 16]); // the format needs 32
    assert_eq!(BTI::from_bytes(&bytes, Endian::Big), Err(BtiError::IOError));
}

#[test]
fn load_honors_header_offsets() {
    // A parsed file may place palette and image data anywhere; the loader
    // follows the header's offsets rather than the canonical layout.
    let mut h = Header::default();
    h.format = Format(TextureFormat::I8);
    h.width = 8;
    h.height = 4;
    h.imagedataoffset = 40;
    let mut bytes = h.encode(Endian::Big);
    bytes.extend_from_slice(&[0xEE; 8]); // dead space the header skips
    bytes.extend_from_slice(&[77u8; 32]); // the image bytes at offset 40
    let c = BTI::from_bytes(&bytes, Endian::Big).unwrap();
    assert_eq!(c.header.imagedataoffset, 40);
    let img = c.into_image().unwrap();
    // I8 intensity 77 decodes to 77 in every channel.
    assert_eq!(&img.data[0..4], &[77, 77, 77, 77]);
}

#[test]
fn load_c8_with_partial_palette() {
    // A palette-indexed file whose palette holds only 16 of the format's
    // 256 possible entries still loads; indexes in range read the stored
    // entries. IA8 palette entries carry alpha in the first byte and
    // intensity in the second.
    let mut h = Header::default();
    h.format = Format(TextureFormat::C8);
    h.width = 8;
    h.height = 4;
    h.palettesenabled = 1;
    h.paletteformat = PaletteFormats::IA8;
    h.palettecount = 16;
    h.palettedataoffset = 32;
    h.imagedataoffset = 64;
    let mut bytes = h.encode(Endian::Big);
    let mut palette = vec![0u8; 32];
    palette[6] = 200; // entry 3: alpha
    palette[7] = 77; // entry 3: intensity
    bytes.extend_from_slice(&palette);
    bytes.extend_from_slice(&[3u8; 32]); // every pixel names entry 3
    let c = BTI::from_bytes(&bytes, Endian::Big).unwrap();
    assert_eq!(c.palette.data, palette);
    let img = c.into_image().unwrap();
    for p in 0..(8 * 4) {
        assert_eq!(&img.data[4 * p..4 * p + 4], &[77, 77, 77, 200]);
    }
}

#[test]
fn into_image_rejects_mismatched_buffer() {
    let mut c = BTI::default();
    c.header.width = 2;
    c.header.height = 2;
    c.data = vec![0u8; 15]; // needs 16
    assert!(c.into_image().is_none());
}

#[test]
fn palette_load_reads_exact_bytes() {
    let mut p = Palette { data: Vec::new() };
    let src = [1u8, 2, 3, 4, 5, 6, 7, 8];
    assert_eq!(p.load(&src, 2, 3), Ok(()));
    assert_eq!(p.data, vec![3, 4, 5, 6, 7, 8]);
}

#[test]
fn palette_load_zero_entries_reads_nothing() {
    let mut p = Palette { data: vec![9, 9] };
    let src = [1u8, 2];
    assert_eq!(p.load(&src, 0, 0), Ok(()));
    assert_eq!(p.data, vec![9, 9]);
}

#[test]
fn palette_load_short_source_is_io_error() {
    let mut p = Palette { data: vec![9, 9] };
    let src = [1u8, 2, 3];
    assert_eq!(p.load(&src, 0, 2), Err(BtiError::IOError));
    assert_eq!(p.data, vec![9, 9]);
}
