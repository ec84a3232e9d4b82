use vstd::prelude::*;

verus! {

/// A `wl_shm` pixel format, as the compositor announces it.
///
/// The formats that the capture logic tells apart have a variant of their
/// own; every other format the protocol defines is carried by its code.
#[derive(Clone, Copy, Debug, PartialEq, Eq, Structural)]
pub enum PixelFormat {
    Argb8888,
    Xrgb8888,
    Rgb888,
    Bgr888,
    Xbgr8888,
    Rgbx8888,
    Bgrx8888,
    Abgr8888,
    Rgba8888,
    Bgra8888,
    Yuv420,
    Other(u32),
}

/// A format as it arrives on the wire: either one the protocol defines, or
/// a code the protocol does not know.
#[derive(Clone, Copy, Debug, PartialEq, Eq, Structural)]
pub enum WireFormat {
    Value(PixelFormat),
    Unknown(u32),
}

/// The packed RGB pixel formats of libav that frames are handed over in.
/// Each name spells the order of the channels in memory, one byte each.
#[derive(Clone, Copy, Debug, PartialEq, Eq, Structural)]
pub enum AvPixelFormat {
    Bgra,
    Bgr0,
    Bgr24,
    Rgb24,
    Rgb0,
    ZeroBgr,
    ZeroRgb,
    Rgba,
    Abgr,
    Argb,
}

/// Where the channels of one pixel sit in memory: the size of a pixel in
/// bytes and the byte offset of each channel within it (no alpha offset for
/// formats whose fourth byte is padding or that have none).
pub struct ChannelLayout {
    pub bytes_per_pixel: u8,
    pub red: u8,
    pub green: u8,
    pub blue: u8,
    pub alpha: Option<u8>,
}

/// The shape of a frame buffer: its pixel format, its size in pixels and the
/// distance in bytes from the start of one row to the start of the next.
#[derive(Clone, Copy, Debug, PartialEq, Eq, Structural)]
pub struct BufferConfig {
    pub format: PixelFormat,
    pub width: u32,
    pub height: u32,
    pub stride: u32,
}

/// The 8-bit-per-channel RGB formats whose pixels can be decoded and encoded.
pub open spec fn is_packed_rgb(f: PixelFormat) -> bool {
    match f {
        PixelFormat::Yuv420 | PixelFormat::Other(_) => false,
        _ => true,
    }
}

/// The channel layout in memory of a packed `wl_shm` format. The protocol
/// describes each format as a little-endian word, most significant channel
/// first, so the last channel of the name sits in the first byte.
pub open spec fn shm_layout(f: PixelFormat) -> ChannelLayout {
    match f {
        PixelFormat::Argb8888 => ChannelLayout { bytes_per_pixel: 4, red: 2, green: 1, blue: 0, alpha: Some(3u8) },
        PixelFormat::Xrgb8888 => ChannelLayout { bytes_per_pixel: 4, red: 2, green: 1, blue: 0, alpha: None },
        PixelFormat::Abgr8888 => ChannelLayout { bytes_per_pixel: 4, red: 0, green: 1, blue: 2, alpha: Some(3u8) },
        PixelFormat::Xbgr8888 => ChannelLayout { bytes_per_pixel: 4, red: 0, green: 1, blue: 2, alpha: None },
        PixelFormat::Rgba8888 => ChannelLayout { bytes_per_pixel: 4, red: 3, green: 2, blue: 1, alpha: Some(0u8) },
        PixelFormat::Rgbx8888 => ChannelLayout { bytes_per_pixel: 4, red: 3, green: 2, blue: 1, alpha: None },
        PixelFormat::Bgra8888 => ChannelLayout { bytes_per_pixel: 4, red: 1, green: 2, blue: 3, alpha: Some(0u8) },
        PixelFormat::Bgrx8888 => ChannelLayout { bytes_per_pixel: 4, red: 1, green: 2, blue: 3, alpha: None },
        PixelFormat::Rgb888 => ChannelLayout { bytes_per_pixel: 3, red: 2, green: 1, blue: 0, alpha: None },
        PixelFormat::Bgr888 => ChannelLayout { bytes_per_pixel: 3, red: 0, green: 1, blue: 2, alpha: None },
        _ => ChannelLayout { bytes_per_pixel: 0, red: 0, green: 0, blue: 0, alpha: None },
    }
}

/// The channel layout in memory of a libav format: the name read left to
/// right gives the bytes in order, `0` standing for a padding byte.
pub open spec fn av_layout(f: AvPixelFormat) -> ChannelLayout {
    match f {
        AvPixelFormat::Bgra => ChannelLayout { bytes_per_pixel: 4, red: 2, green: 1, blue: 0, alpha: Some(3u8) },
        AvPixelFormat::Bgr0 => ChannelLayout { bytes_per_pixel: 4, red: 2, green: 1, blue: 0, alpha: None },
        AvPixelFormat::Bgr24 => ChannelLayout { bytes_per_pixel: 3, red: 2, green: 1, blue: 0, alpha: None },
        AvPixelFormat::Rgb24 => ChannelLayout { bytes_per_pixel: 3, red: 0, green: 1, blue: 2, alpha: None },
        AvPixelFormat::Rgb0 => ChannelLayout { bytes_per_pixel: 4, red: 0, green: 1, blue: 2, alpha: None },
        AvPixelFormat::ZeroBgr => ChannelLayout { bytes_per_pixel: 4, red: 3, green: 2, blue: 1, alpha: None },
        AvPixelFormat::ZeroRgb => ChannelLayout { bytes_per_pixel: 4, red: 1, green: 2, blue: 3, alpha: None },
        AvPixelFormat::Rgba => ChannelLayout { bytes_per_pixel: 4, red: 0, green: 1, blue: 2, alpha: Some(3u8) },
        AvPixelFormat::Abgr => ChannelLayout { bytes_per_pixel: 4, red: 3, green: 2, blue: 1, alpha: Some(0u8) },
        AvPixelFormat::Argb => ChannelLayout { bytes_per_pixel: 4, red: 1, green: 2, blue: 3, alpha: Some(0u8) },
    }
}

/// The same channels read from the other end of the pixel: the layout a
/// format has when its word is taken as big-endian instead of little-endian.
pub open spec fn mirrored(l: ChannelLayout) -> ChannelLayout {
    let last = (l.bytes_per_pixel - 1) as int;
    ChannelLayout {
        bytes_per_pixel: l.bytes_per_pixel,
        red: (last - l.red) as u8,
        green: (last - l.green) as u8,
        blue: (last - l.blue) as u8,
        alpha: match l.alpha {
            Some(a) => Some((last - a) as u8),
            None => None,
        },
    }
}

/// The libav format whose bytes come in the opposite order.
pub open spec fn byte_reversed(f: AvPixelFormat) -> AvPixelFormat {
    match f {
        AvPixelFormat::Bgra => AvPixelFormat::Argb,
        AvPixelFormat::Argb => AvPixelFormat::Bgra,
        AvPixelFormat::Bgr0 => AvPixelFormat::ZeroRgb,
        AvPixelFormat::ZeroRgb => AvPixelFormat::Bgr0,
        AvPixelFormat::Bgr24 => AvPixelFormat::Rgb24,
        AvPixelFormat::Rgb24 => AvPixelFormat::Bgr24,
        AvPixelFormat::Rgb0 => AvPixelFormat::ZeroBgr,
        AvPixelFormat::ZeroBgr => AvPixelFormat::Rgb0,
        AvPixelFormat::Rgba => AvPixelFormat::Abgr,
        AvPixelFormat::Abgr => AvPixelFormat::Rgba,
    }
}

/// Two libav formats with the same layout are the same format.
pub proof fn lemma_av_layout_injective(f: AvPixelFormat, g: AvPixelFormat)
    requires
        av_layout(f) == av_layout(g),
    ensures
        f == g,
{
}

/// Reversing the byte order of a libav format mirrors its layout.
pub proof fn lemma_byte_reversed_mirrors(f: AvPixelFormat)
    ensures
        av_layout(byte_reversed(f)) == mirrored(av_layout(f)),
        byte_reversed(byte_reversed(f)) == f,
{
}

} // verus!
