use crate::pixel_format::{is_packed_rgb, shm_layout, BufferConfig, ChannelLayout, PixelFormat};
use vstd::prelude::*;

verus! {

/// One decoded pixel, eight bits per channel.
#[derive(Clone, Copy, Debug, PartialEq, Eq, Structural)]
pub struct RGBAPixel {
    pub r: u8,
    pub g: u8,
    pub b: u8,
    pub a: u8,
}

/// The pixel whose bytes start at `offset`, read with the given layout; a
/// format without an alpha channel decodes as fully opaque.
pub open spec fn decode_pixel(bytes: Seq<u8>, offset: int, layout: ChannelLayout) -> RGBAPixel {
    RGBAPixel {
        r: bytes[offset + layout.red],
        g: bytes[offset + layout.green],
        b: bytes[offset + layout.blue],
        a: match layout.alpha {
            Some(i) => bytes[offset + i],
            None => 0xFFu8,
        },
    }
}

/// The byte offset of pixel (`x`, `y`) in a frame of the given shape.
pub open spec fn pixel_offset(config: BufferConfig, y: int, x: int) -> int {
    y * config.stride + x * shm_layout(config.format).bytes_per_pixel
}

/// How many bytes a frame of the given shape spans: up to the end of the
/// last pixel of the last row.
pub open spec fn frame_extent(config: BufferConfig) -> int {
    if config.width == 0 || config.height == 0 {
        0
    } else {
        pixel_offset(config, config.height - 1, config.width as int)
    }
}

/// Pixel (`x`, `y`) of the frame held in `bytes`.
pub open spec fn pixel_at(bytes: Seq<u8>, config: BufferConfig, y: int, x: int) -> RGBAPixel {
    decode_pixel(bytes, pixel_offset(config, y, x), shm_layout(config.format))
}

proof fn lemma_pixel_within_frame(y: int, x: int, height: int, width: int, stride: int, bpp: int)
    by (nonlinear_arith)
    requires
        0 <= y < height,
        0 <= x < width,
        0 <= stride,
        0 <= bpp,
    ensures
        0 <= y * stride,
        0 <= x * bpp,
        y * stride + x * bpp + bpp <= (height - 1) * stride + width * bpp,
{
}

/// The number of bytes one pixel of a packed RGB format takes (none for a
/// format that cannot be decoded).
fn bytes_per_pixel(format: PixelFormat) -> (n: usize)
    ensures
        n == shm_layout(format).bytes_per_pixel,
{
    match format {
        PixelFormat::Rgb888 | PixelFormat::Bgr888 => 3,
        PixelFormat::Yuv420 | PixelFormat::Other(_) => 0,
        _ => 4,
    }
}

/// Decodes the pixel whose bytes start at `col`.
fn read_pixel(frame: &[u8], col: usize, format: PixelFormat) -> (pixel: RGBAPixel)
    requires
        is_packed_rgb(format),
        col + shm_layout(format).bytes_per_pixel <= frame@.len(),
    ensures
        pixel == decode_pixel(frame@, col as int, shm_layout(format)),
{
    proof {
        assert(frame.len() == frame@.len());
    }
    match format {
        PixelFormat::Rgbx8888 => RGBAPixel { r: frame[col + 3], g: frame[col + 2], b: frame[col + 1], a: 0xFF },
        PixelFormat::Bgrx8888 => RGBAPixel { b: frame[col + 3], g: frame[col + 2], r: frame[col + 1], a: 0xFF },
        PixelFormat::Xrgb8888 => RGBAPixel { a: 0xFF, r: frame[col + 2], g: frame[col + 1], b: frame[col] },
        PixelFormat::Xbgr8888 => RGBAPixel { a: 0xFF, b: frame[col + 2], g: frame[col + 1], r: frame[col] },
        PixelFormat::Rgba8888 => RGBAPixel { r: frame[col + 3], g: frame[col + 2], b: frame[col + 1], a: frame[col] },
        PixelFormat::Bgra8888 => RGBAPixel { b: frame[col + 3], g: frame[col + 2], r: frame[col + 1], a: frame[col] },
        PixelFormat::Argb8888 => RGBAPixel { a: frame[col + 3], r: frame[col + 2], g: frame[col + 1], b: frame[col] },
        PixelFormat::Abgr8888 => RGBAPixel { a: frame[col + 3], b: frame[col + 2], g: frame[col + 1], r: frame[col] },
        PixelFormat::Rgb888 => RGBAPixel { r: frame[col + 2], g: frame[col + 1], b: frame[col], a: 0xFF },
        PixelFormat::Bgr888 => RGBAPixel { b: frame[col + 2], g: frame[col + 1], r: frame[col], a: 0xFF },
        PixelFormat::Yuv420 | PixelFormat::Other(_) => {
            proof {
                assert(false);
            }
            RGBAPixel { r: 0, g: 0, b: 0, a: 0 }
        },
    }
}

/// Whether a frame of the given shape fits in `frame_len` bytes, so that
/// it can be decoded from them. A format that cannot be decoded counts no
/// bytes per pixel, so only its row strides are counted.
pub fn frame_fits(frame_len: usize, frame_config: &BufferConfig) -> (fits: bool)
    ensures
        fits == (frame_extent(*frame_config) <= frame_len),
{
    if frame_config.width == 0 || frame_config.height == 0 {
        return true;
    }
    let bpp = bytes_per_pixel(frame_config.format) as u128;
    let rows = (frame_config.height - 1) as u128;
    proof {
        assert(rows * (frame_config.stride as u128) <= 0xffff_ffffu128 * 0xffff_ffffu128) by (nonlinear_arith)
            requires
                rows <= 0xffff_ffffu128,
                frame_config.stride <= 0xffff_ffffu32,
        ;
        assert((frame_config.width as u128) * bpp <= 0xffff_ffffu128 * 4) by (nonlinear_arith)
            requires
                frame_config.width <= 0xffff_ffffu32,
                bpp <= 4,
        ;
    }
    let extent = rows * (frame_config.stride as u128) + (frame_config.width as u128) * bpp;
    extent <= frame_len as u128
}

/// Decodes a captured frame into rows of pixels.
///
/// `frame` holds the bytes of the shared-memory buffer that the compositor
/// copied the output into; row `y` starts `y * stride` bytes in. Row `y`
/// of the result holds the `width` pixels of that row, in order.
pub fn extract_frames_from_mmap(frame: &[u8], frame_config: &BufferConfig) -> (pixel_vec: Vec<Vec<RGBAPixel>>)
    requires
        frame_config.width > 0 && frame_config.height > 0 ==> is_packed_rgb(frame_config.format),
        frame_extent(*frame_config) <= frame@.len(),
    ensures
        pixel_vec@.len() == frame_config.height,
        forall|y: int| 0 <= y < frame_config.height ==> #[trigger] pixel_vec@[y]@.len() == frame_config.width,
        forall|y: int, x: int|
            0 <= y < frame_config.height && 0 <= x < frame_config.width
                ==> #[trigger] pixel_vec@[y]@[x] == pixel_at(frame@, *frame_config, y, x),
{
    let format = frame_config.format;
    let width = frame_config.width as usize;
    let height = frame_config.height as usize;
    let stride = frame_config.stride as usize;
    let bpp = bytes_per_pixel(format);
    let ghost config = *frame_config;

    let mut pixel_vec: Vec<Vec<RGBAPixel>> = Vec::new();

    for y in 0..height
        invariant
            config == *frame_config,
            format == config.format,
            width > 0 && height > 0 ==> is_packed_rgb(format),
            width == config.width,
            height == config.height,
            stride == config.stride,
            bpp == shm_layout(format).bytes_per_pixel,
            frame_extent(config) <= frame@.len(),
            pixel_vec@.len() == y,
            forall|yy: int| 0 <= yy < y ==> #[trigger] pixel_vec@[yy]@.len() == width,
            forall|yy: int, x: int|
                0 <= yy < y && 0 <= x < width
                    ==> #[trigger] pixel_vec@[yy]@[x] == pixel_at(frame@, config, yy, x),
    {
        let mut row_vec: Vec<RGBAPixel> = Vec::new();

        for x in 0..width
            invariant
                config == *frame_config,
                format == config.format,
                width > 0 && height > 0 ==> is_packed_rgb(format),
                width == config.width,
                height == config.height,
                stride == config.stride,
                bpp == shm_layout(format).bytes_per_pixel,
                frame_extent(config) <= frame@.len(),
                y < height,
                row_vec@.len() == x,
                forall|xx: int| 0 <= xx < x ==> #[trigger] row_vec@[xx] == pixel_at(frame@, config, y as int, xx),
        {
            proof {
                assert(frame.len() == frame@.len());
                lemma_pixel_within_frame(y as int, x as int, height as int, width as int, stride as int, bpp as int);
            }
            let col = stride * y + x * bpp;
            let pixel = read_pixel(frame, col, format);
            row_vec.push(pixel);
        }

        pixel_vec.push(row_vec);
    }

    pixel_vec
}

} // verus!
