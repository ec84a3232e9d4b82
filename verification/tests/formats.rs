use screencap::ffmpeg_encoder::{format_conversion, format_conversion_by_name};
use screencap::pixel_format::{AvPixelFormat, PixelFormat};

const PACKED: [PixelFormat; 10] = [
    PixelFormat::Argb8888,
    PixelFormat::Xrgb8888,
    PixelFormat::Rgb888,
    PixelFormat::Bgr888,
    PixelFormat::Xbgr8888,
    PixelFormat::Rgbx8888,
    PixelFormat::Bgrx8888,
    PixelFormat::Abgr8888,
    PixelFormat::Rgba8888,
    PixelFormat::Bgra8888,
];

fn reversed(f: AvPixelFormat) -> AvPixelFormat {
    match f {
        AvPixelFormat::Bgra => AvPixelFormat::Argb,
        AvPixelFormat::Argb => AvPixelFormat::Bgra,
        AvPixelFormat::Bgr0 => AvPixelFormat::ZeroRgb,
        AvPixelFormat::ZeroRgb => AvPixelFormat::Bgr0,
        AvPixelFormat::Bgr24 => AvPixelFormat::Rgb24,
        AvPixelFormat::Rgb24 => AvPixelFormat::Bgr24,
        AvPixelFormat::Rgb0 => AvPixelFormat::ZeroBgr,
        AvPixelFormat::ZeroBgr => AvPixelFormat::Rgb0,
        AvPixelFormat::Rgba => AvPixelFormat::Abgr,
        AvPixelFormat::Abgr => AvPixelFormat::Rgba,
    }
}

#[test]
fn encoder_formats_follow_memory_order() {
    assert_eq!(format_conversion(PixelFormat::Argb8888), AvPixelFormat::Bgra);
    assert_eq!(format_conversion(PixelFormat::Xrgb8888), AvPixelFormat::Bgr0);
    assert_eq!(format_conversion(PixelFormat::Rgb888), AvPixelFormat::Bgr24);
    assert_eq!(format_conversion(PixelFormat::Bgr888), AvPixelFormat::Rgb24);
    assert_eq!(format_conversion(PixelFormat::Xbgr8888), AvPixelFormat::Rgb0);
    assert_eq!(format_conversion(PixelFormat::Rgbx8888), AvPixelFormat::ZeroBgr);
    assert_eq!(format_conversion(PixelFormat::Bgrx8888), AvPixelFormat::ZeroRgb);
    assert_eq!(format_conversion(PixelFormat::Abgr8888), AvPixelFormat::Rgba);
    assert_eq!(format_conversion(PixelFormat::Rgba8888), AvPixelFormat::Abgr);
    assert_eq!(format_conversion(PixelFormat::Bgra8888), AvPixelFormat::Argb);
}

#[test]
fn same_name_formats() {
    assert_eq!(format_conversion_by_name(PixelFormat::Argb8888), AvPixelFormat::Argb);
    assert_eq!(format_conversion_by_name(PixelFormat::Xrgb8888), AvPixelFormat::ZeroRgb);
    assert_eq!(format_conversion_by_name(PixelFormat::Bgr888), AvPixelFormat::Bgr24);
    assert_eq!(format_conversion_by_name(PixelFormat::Rgbx8888), AvPixelFormat::Rgb0);
}

#[test]
fn the_two_conversions_differ_by_byte_order() {
    for f in PACKED {
        assert_eq!(format_conversion_by_name(f), reversed(format_conversion(f)));
    }
}

#[test]
fn encoder_formats_are_distinct() {
    for (i, f) in PACKED.iter().enumerate() {
        for g in &PACKED[i + 1..] {
            assert_ne!(format_conversion(*f), format_conversion(*g));
        }
    }
}
