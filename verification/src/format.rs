//! The enum-tagged byte fields of the header: hardware pixel format,
//! texture-coordinate wrap modes, palette entry encoding, and sampling
//! filters. Each has an exact byte codec; unrecognized bytes are rejected.
use vstd::prelude::*;

verus! {

/// A hardware pixel format of the texture unit.
#[derive(Clone, Copy, Debug, PartialEq, Eq, Structural)]
pub enum TextureFormat {
    I4,
    I8,
    IA4,
    IA8,
    RGB565,
    RGB5A3,
    RGBA8,
    C4,
    C8,
    C14X2,
    CMPR,
}

impl TextureFormat {
    /// The enumerant's byte on the wire.
    pub open spec fn spec_byte(self) -> u8 {
        match self {
            TextureFormat::I4 => 0x00,
            TextureFormat::I8 => 0x01,
            TextureFormat::IA4 => 0x02,
            TextureFormat::IA8 => 0x03,
            TextureFormat::RGB565 => 0x04,
            TextureFormat::RGB5A3 => 0x05,
            TextureFormat::RGBA8 => 0x06,
            TextureFormat::C4 => 0x08,
            TextureFormat::C8 => 0x09,
            TextureFormat::C14X2 => 0x0A,
            TextureFormat::CMPR => 0x0E,
        }
    }

    /// The format a byte stands for, if any.
    pub open spec fn spec_from_byte(b: u8) -> Option<TextureFormat> {
        if b == 0x00 {
            Some(TextureFormat::I4)
        } else if b == 0x01 {
            Some(TextureFormat::I8)
        } else if b == 0x02 {
            Some(TextureFormat::IA4)
        } else if b == 0x03 {
            Some(TextureFormat::IA8)
        } else if b == 0x04 {
            Some(TextureFormat::RGB565)
        } else if b == 0x05 {
            Some(TextureFormat::RGB5A3)
        } else if b == 0x06 {
            Some(TextureFormat::RGBA8)
        } else if b == 0x08 {
            Some(TextureFormat::C4)
        } else if b == 0x09 {
            Some(TextureFormat::C8)
        } else if b == 0x0A {
            Some(TextureFormat::C14X2)
        } else if b == 0x0E {
            Some(TextureFormat::CMPR)
        } else {
            None
        }
    }

    pub fn to_byte(&self) -> (r: u8)
        ensures
            r == self.spec_byte(),
    {
        match self {
            TextureFormat::I4 => 0x00,
            TextureFormat::I8 => 0x01,
            TextureFormat::IA4 => 0x02,
            TextureFormat::IA8 => 0x03,
            TextureFormat::RGB565 => 0x04,
            TextureFormat::RGB5A3 => 0x05,
            TextureFormat::RGBA8 => 0x06,
            TextureFormat::C4 => 0x08,
            TextureFormat::C8 => 0x09,
            TextureFormat::C14X2 => 0x0A,
            TextureFormat::CMPR => 0x0E,
        }
    }

    pub fn from_byte(b: u8) -> (r: Option<TextureFormat>)
        ensures
            r == Self::spec_from_byte(b),
    {
        match b {
            0x00 => Some(TextureFormat::I4),
            0x01 => Some(TextureFormat::I8),
            0x02 => Some(TextureFormat::IA4),
            0x03 => Some(TextureFormat::IA8),
            0x04 => Some(TextureFormat::RGB565),
            0x05 => Some(TextureFormat::RGB5A3),
            0x06 => Some(TextureFormat::RGBA8),
            0x08 => Some(TextureFormat::C4),
            0x09 => Some(TextureFormat::C8),
            0x0A => Some(TextureFormat::C14X2),
            0x0E => Some(TextureFormat::CMPR),
            _ => None,
        }
    }
}

/// A byte made from a format enumerant reads back as that enumerant.
pub proof fn lemma_format_byte_round_trip(f: TextureFormat)
    ensures
        TextureFormat::spec_from_byte(f.spec_byte()) == Some(f),
{
}

/// The header's pixel-format field: a tagged wrapper around the format
/// enumerant, kept as its own type so the wire codec can speak of it.
#[derive(Clone, Copy, Debug, PartialEq, Eq, Structural)]
pub struct Format(pub TextureFormat);

impl Default for Format {
    fn default() -> (r: Self)
        ensures
            r == Format(TextureFormat::I4),
    {
        Format(TextureFormat::I4)
    }
}

/// A texture-coordinate wrap mode, one per axis.
#[derive(Clone, Copy, Debug, PartialEq, Eq, Structural)]
pub enum WrapModes {
    ClampToEdge,
    Repeat,
    MirroredRepeat,
}

impl WrapModes {
    pub open spec fn spec_byte(self) -> u8 {
        match self {
            WrapModes::ClampToEdge => 0,
            WrapModes::Repeat => 1,
            WrapModes::MirroredRepeat => 2,
        }
    }

    pub open spec fn spec_from_byte(b: u8) -> Option<WrapModes> {
        if b == 0 {
            Some(WrapModes::ClampToEdge)
        } else if b == 1 {
            Some(WrapModes::Repeat)
        } else if b == 2 {
            Some(WrapModes::MirroredRepeat)
        } else {
            None
        }
    }

    pub fn to_byte(&self) -> (r: u8)
        ensures
            r == self.spec_byte(),
    {
        match self {
            WrapModes::ClampToEdge => 0,
            WrapModes::Repeat => 1,
            WrapModes::MirroredRepeat => 2,
        }
    }

    pub fn from_byte(b: u8) -> (r: Option<WrapModes>)
        ensures
            r == Self::spec_from_byte(b),
    {
        match b {
            0 => Some(WrapModes::ClampToEdge),
            1 => Some(WrapModes::Repeat),
            2 => Some(WrapModes::MirroredRepeat),
            _ => None,
        }
    }
}

impl Default for WrapModes {
    fn default() -> (r: Self)
        ensures
            r == WrapModes::ClampToEdge,
    {
        WrapModes::ClampToEdge
    }
}

/// The color encoding of each 2-byte palette entry.
#[derive(Clone, Copy, Debug, PartialEq, Eq, Structural)]
pub enum PaletteFormats {
    IA8,
    RGB565,
    RGB5A3,
}

impl PaletteFormats {
    pub open spec fn spec_byte(self) -> u8 {
        match self {
            PaletteFormats::IA8 => 0x00,
            PaletteFormats::RGB565 => 0x01,
            PaletteFormats::RGB5A3 => 0x02,
        }
    }

    pub open spec fn spec_from_byte(b: u8) -> Option<PaletteFormats> {
        if b == 0 {
            Some(PaletteFormats::IA8)
        } else if b == 1 {
            Some(PaletteFormats::RGB565)
        } else if b == 2 {
            Some(PaletteFormats::RGB5A3)
        } else {
            None
        }
    }

    pub fn to_byte(&self) -> (r: u8)
        ensures
            r == self.spec_byte(),
    {
        match self {
            PaletteFormats::IA8 => 0x00,
            PaletteFormats::RGB565 => 0x01,
            PaletteFormats::RGB5A3 => 0x02,
        }
    }

    pub fn from_byte(b: u8) -> (r: Option<PaletteFormats>)
        ensures
            r == Self::spec_from_byte(b),
    {
        match b {
            0 => Some(PaletteFormats::IA8),
            1 => Some(PaletteFormats::RGB565),
            2 => Some(PaletteFormats::RGB5A3),
            _ => None,
        }
    }
}

impl Default for PaletteFormats {
    fn default() -> (r: Self)
        ensures
            r == PaletteFormats::IA8,
    {
        PaletteFormats::IA8
    }
}

/// A sampling filter; the mipmap-selecting modes are valid only for
/// minification.
#[derive(Clone, Copy, Debug, PartialEq, Eq, Structural)]
pub enum FilterMode {
    Nearest,
    Linear,
    NearestMipmapNearest,
    NearestMipmapLinear,
    LinearMipmapNearest,
    LinearMipmapLinear,
}

impl FilterMode {
    pub open spec fn spec_byte(self) -> u8 {
        match self {
            FilterMode::Nearest => 0x0,
            FilterMode::Linear => 0x1,
            FilterMode::NearestMipmapNearest => 0x2,
            FilterMode::NearestMipmapLinear => 0x3,
            FilterMode::LinearMipmapNearest => 0x4,
            FilterMode::LinearMipmapLinear => 0x5,
        }
    }

    pub open spec fn spec_from_byte(b: u8) -> Option<FilterMode> {
        if b == 0 {
            Some(FilterMode::Nearest)
        } else if b == 1 {
            Some(FilterMode::Linear)
        } else if b == 2 {
            Some(FilterMode::NearestMipmapNearest)
        } else if b == 3 {
            Some(FilterMode::NearestMipmapLinear)
        } else if b == 4 {
            Some(FilterMode::LinearMipmapNearest)
        } else if b == 5 {
            Some(FilterMode::LinearMipmapLinear)
        } else {
            None
        }
    }

    pub fn to_byte(&self) -> (r: u8)
        ensures
            r == self.spec_byte(),
    {
        match self {
            FilterMode::Nearest => 0x0,
            FilterMode::Linear => 0x1,
            FilterMode::NearestMipmapNearest => 0x2,
            FilterMode::NearestMipmapLinear => 0x3,
            FilterMode::LinearMipmapNearest => 0x4,
            FilterMode::LinearMipmapLinear => 0x5,
        }
    }

    pub fn from_byte(b: u8) -> (r: Option<FilterMode>)
        ensures
            r == Self::spec_from_byte(b),
    {
        match b {
            0 => Some(FilterMode::Nearest),
            1 => Some(FilterMode::Linear),
            2 => Some(FilterMode::NearestMipmapNearest),
            3 => Some(FilterMode::NearestMipmapLinear),
            4 => Some(FilterMode::LinearMipmapNearest),
            5 => Some(FilterMode::LinearMipmapLinear),
            _ => None,
        }
    }
}

impl Default for FilterMode {
    fn default() -> (r: Self)
        ensures
            r == FilterMode::Nearest,
    {
        FilterMode::Nearest
    }
}

} // verus!
