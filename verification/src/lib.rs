//! A verified reader and writer for the BTI binary texture container:
//! a 32-byte header describing pixel format and sampling parameters, an
//! optional color palette, and a region of hardware-encoded image data,
//! padded on write to a 32-byte boundary. Pixel encoding and decoding is
//! delegated to the gctex texture codec.
use vstd::prelude::*;

pub mod bytes;
pub mod format;
pub mod codec;
pub mod header;
pub mod palette;
pub mod bti;

pub use format::Format;
pub use format::TextureFormat;
pub use format::WrapModes;
pub use format::PaletteFormats;
pub use format::FilterMode;
pub use header::Header;
pub use palette::Palette;
pub use bti::BTI;
pub use bti::RgbaImage;

verus! {

/// Byte order used for the multi-byte header fields on the wire.
#[derive(Clone, Copy, Debug, PartialEq, Eq, Structural)]
pub enum Endian {
    Big,
    Little,
}

/// The two ways a container operation can fail: a byte that matches no
/// known enumerant, or a buffer too short for what the header declares.
#[derive(Clone, Copy, Debug, PartialEq, Eq, Structural)]
pub enum BtiError {
    FormatError,
    IOError,
}

} // verus!
