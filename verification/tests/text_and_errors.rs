use screencap::pixel_format::PixelFormat;
use screencap::text::{push_decimal, str_equals};
use screencap::wl_capture::error::{CaptureError, FormatError, WlObjectError};

fn decimal(n: u32) -> String {
    let mut s = String::new();
    push_decimal(&mut s, n);
    s
}

#[test]
fn decimal_numbers() {
    assert_eq!(decimal(0), "0");
    assert_eq!(decimal(7), "7");
    assert_eq!(decimal(10), "10");
    assert_eq!(decimal(1903), "1903");
    assert_eq!(decimal(u32::MAX), "4294967295");
    let mut s = String::from("v");
    push_decimal(&mut s, 3);
    assert_eq!(s, "v3");
}

#[test]
fn string_equality() {
    assert!(str_equals("wl_shm", "wl_shm"));
    assert!(!str_equals("wl_shm", "wl_sh"));
    assert!(!str_equals("wl_output", "wl_outpub"));
    assert!(str_equals("", ""));
}

#[test]
fn object_error_messages() {
    assert_eq!(WlObjectError::MissingWlrScreencopy.message(), "The compositor does not support wlr_screencopy.");
    assert_eq!(WlObjectError::MissingWlOutput.message(), "The compositor does not support wl_output.");
    assert_eq!(WlObjectError::MissingWlShm.message(), "The compositor does not support wl_shm");
    assert_eq!(
        WlObjectError::MismatchedWlrScreencopyVersion(2).message(),
        "Expected wlr_screencopy version 3, got version: 2."
    );
}

#[test]
fn format_error_messages() {
    assert_eq!(
        FormatError::UnsupportedFormat(PixelFormat::Rgb888).message(),
        "The pixel format Rgb888 is not yet supported."
    );
    // Formats without a variant of their own still go by their protocol name.
    assert_eq!(
        FormatError::UnsupportedFormat(PixelFormat::Other(0x36314752)).message(),
        "The pixel format Rgb565 is not yet supported."
    );
    assert_eq!(
        FormatError::UnsupportedFormat(PixelFormat::Other(0x20203843)).message(),
        "The pixel format C8 is not yet supported."
    );
    assert_eq!(
        FormatError::UnsupportedFormat(PixelFormat::Other(0x48345258)).message(),
        "The pixel format Xrgb16161616f is not yet supported."
    );
    // A code the protocol does not define is spelled by its number.
    assert_eq!(
        FormatError::UnsupportedFormat(PixelFormat::Other(7)).message(),
        "The pixel format Other(7) is not yet supported."
    );
    assert_eq!(FormatError::UndetectedFormat(42).message(), "The pixel format id 42 is not recognized.");
    assert_eq!(
        CaptureError::Format(FormatError::UndetectedFormat(5)).message(),
        FormatError::UndetectedFormat(5).message()
    );
    assert_eq!(
        CaptureError::Object(WlObjectError::MissingWlShm).message(),
        "The compositor does not support wl_shm"
    );
}

#[test]
fn debug_names_match_messages() {
    for f in [PixelFormat::Argb8888, PixelFormat::Bgr888, PixelFormat::Yuv420, PixelFormat::Other(7)] {
        assert_eq!(
            FormatError::UnsupportedFormat(f).message(),
            format!("The pixel format {:?} is not yet supported.", f)
        );
    }
}
