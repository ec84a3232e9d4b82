use crate::pixel_format::{
    av_layout, byte_reversed, is_packed_rgb, lemma_av_layout_injective, lemma_byte_reversed_mirrors,
    mirrored, shm_layout, AvPixelFormat, BufferConfig, PixelFormat,
};
use crate::screencopy_probe::pixels::{decode_pixel, pixel_at, pixel_offset};
use vstd::prelude::*;

verus! {

/// What the encoder needs to know of a captured frame, besides where its
/// pixels are: the buffer's geometry and format and the presentation time
/// that the compositor reported.
#[derive(Clone, Copy, Debug, PartialEq, Eq, Structural)]
pub struct FrameInfo {
    pub frame_stride: u32,
    pub frame_width: u32,
    pub frame_height: u32,
    pub frame_format: PixelFormat,
    pub tv_sec_hi: u32,
    pub tv_sec_lo: u32,
    pub tv_nsec: u32,
}

/// The libav format in which the encoder reads a frame of the given
/// `wl_shm` format.
///
/// The chosen format lays the channels out in memory exactly as the
/// compositor wrote them, so the frame is handed over without any swizzle.
pub fn format_conversion(format: PixelFormat) -> (av: AvPixelFormat)
    requires
        is_packed_rgb(format),
    ensures
        av_layout(av) == shm_layout(format),
{
    match format {
        PixelFormat::Argb8888 => AvPixelFormat::Bgra,
        PixelFormat::Xrgb8888 => AvPixelFormat::Bgr0,
        PixelFormat::Rgb888 => AvPixelFormat::Bgr24,
        PixelFormat::Bgr888 => AvPixelFormat::Rgb24,
        PixelFormat::Xbgr8888 => AvPixelFormat::Rgb0,
        PixelFormat::Rgbx8888 => AvPixelFormat::ZeroBgr,
        PixelFormat::Bgrx8888 => AvPixelFormat::ZeroRgb,
        PixelFormat::Abgr8888 => AvPixelFormat::Rgba,
        PixelFormat::Rgba8888 => AvPixelFormat::Abgr,
        PixelFormat::Bgra8888 => AvPixelFormat::Argb,
        PixelFormat::Yuv420 | PixelFormat::Other(_) => {
            proof {
                assert(false);
            }
            AvPixelFormat::Bgra
        },
    }
}

/// The libav format with the same name as the given `wl_shm` format.
///
/// The names agree, but the two libraries read them from opposite ends of
/// the pixel: the chosen format sees the channels of a pixel mirrored.
pub fn format_conversion_by_name(format: PixelFormat) -> (av: AvPixelFormat)
    requires
        is_packed_rgb(format),
    ensures
        av_layout(av) == mirrored(shm_layout(format)),
{
    match format {
        PixelFormat::Argb8888 => AvPixelFormat::Argb,
        PixelFormat::Xrgb8888 => AvPixelFormat::ZeroRgb,
        PixelFormat::Rgb888 => AvPixelFormat::Rgb24,
        PixelFormat::Bgr888 => AvPixelFormat::Bgr24,
        PixelFormat::Xbgr8888 => AvPixelFormat::ZeroBgr,
        PixelFormat::Rgbx8888 => AvPixelFormat::Rgb0,
        PixelFormat::Bgrx8888 => AvPixelFormat::Bgr0,
        PixelFormat::Abgr8888 => AvPixelFormat::Abgr,
        PixelFormat::Rgba8888 => AvPixelFormat::Rgba,
        PixelFormat::Bgra8888 => AvPixelFormat::Bgra,
        PixelFormat::Yuv420 | PixelFormat::Other(_) => {
            proof {
                assert(false);
            }
            AvPixelFormat::Bgra
        },
    }
}

/// The two conversions differ exactly by byte order: the same-name format
/// is the byte-reversed counterpart of the format the encoder uses.
pub proof fn lemma_conversions_differ_by_byte_order(format: PixelFormat, by_layout: AvPixelFormat, by_name: AvPixelFormat)
    requires
        is_packed_rgb(format),
        av_layout(by_layout) == shm_layout(format),
        av_layout(by_name) == mirrored(shm_layout(format)),
    ensures
        by_name == byte_reversed(by_layout),
{
    lemma_byte_reversed_mirrors(by_layout);
    lemma_av_layout_injective(by_name, byte_reversed(by_layout));
}

/// Distinct `wl_shm` formats are handed to the encoder as distinct libav
/// formats.
pub proof fn lemma_format_conversion_injective(f: PixelFormat, g: PixelFormat, af: AvPixelFormat, ag: AvPixelFormat)
    requires
        is_packed_rgb(f),
        is_packed_rgb(g),
        av_layout(af) == shm_layout(f),
        av_layout(ag) == shm_layout(g),
        af == ag,
    ensures
        f == g,
{
}

/// A frame handed to the encoder in the converted format shows it the very
/// pixels that decoding the frame yields: at every pixel offset, reading
/// the bytes with the encoder's layout gives the decoded pixel.
pub proof fn lemma_encoder_sees_decoded_pixels(bytes: Seq<u8>, config: BufferConfig, av: AvPixelFormat, y: int, x: int)
    requires
        is_packed_rgb(config.format),
        av_layout(av) == shm_layout(config.format),
    ensures
        decode_pixel(bytes, pixel_offset(config, y, x), av_layout(av)) == pixel_at(bytes, config, y, x),
{
}

} // verus!
