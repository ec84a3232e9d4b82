use crate::pixel_format::PixelFormat;
use crate::text::{decimal, push_decimal};
use crate::wl_capture::format_names::{other_format_text, push_format_code_name, shm_format_name};
use vstd::prelude::*;
use vstd::string::StringExecFns;

verus! {

/// A global object that the capture needs and the compositor does not offer
/// in a usable form.
#[derive(Clone, Copy, Debug, PartialEq, Eq, Structural)]
pub enum WlObjectError {
    MissingWlrScreencopy,
    MissingWlOutput,
    MissingWlShm,
    MismatchedWlrScreencopyVersion(u32),
}

/// A pixel format that the capture cannot work with.
#[derive(Clone, Copy, Debug, PartialEq, Eq, Structural)]
pub enum FormatError {
    UnsupportedFormat(PixelFormat),
    UndetectedFormat(u32),
}

/// Any error that stops the capture.
#[derive(Clone, Copy, Debug, PartialEq, Eq, Structural)]
pub enum CaptureError {
    Object(WlObjectError),
    Format(FormatError),
}

/// The name of a pixel format: the protocol's name for it, or, for a code
/// the protocol does not define, the code itself.
pub open spec fn format_name(format: PixelFormat) -> Seq<char> {
    match format {
        PixelFormat::Argb8888 => "Argb8888"@,
        PixelFormat::Xrgb8888 => "Xrgb8888"@,
        PixelFormat::Rgb888 => "Rgb888"@,
        PixelFormat::Bgr888 => "Bgr888"@,
        PixelFormat::Xbgr8888 => "Xbgr8888"@,
        PixelFormat::Rgbx8888 => "Rgbx8888"@,
        PixelFormat::Bgrx8888 => "Bgrx8888"@,
        PixelFormat::Abgr8888 => "Abgr8888"@,
        PixelFormat::Rgba8888 => "Rgba8888"@,
        PixelFormat::Bgra8888 => "Bgra8888"@,
        PixelFormat::Yuv420 => "Yuv420"@,
        PixelFormat::Other(code) => other_format_text(code, shm_format_name(code)),
    }
}

/// Appends the name of `format` to `out`.
pub fn push_format_name(out: &mut String, format: PixelFormat)
    ensures
        final(out)@ == old(out)@ + format_name(format),
{
    match format {
        PixelFormat::Argb8888 => out.append("Argb8888"),
        PixelFormat::Xrgb8888 => out.append("Xrgb8888"),
        PixelFormat::Rgb888 => out.append("Rgb888"),
        PixelFormat::Bgr888 => out.append("Bgr888"),
        PixelFormat::Xbgr8888 => out.append("Xbgr8888"),
        PixelFormat::Rgbx8888 => out.append("Rgbx8888"),
        PixelFormat::Bgrx8888 => out.append("Bgrx8888"),
        PixelFormat::Abgr8888 => out.append("Abgr8888"),
        PixelFormat::Rgba8888 => out.append("Rgba8888"),
        PixelFormat::Bgra8888 => out.append("Bgra8888"),
        PixelFormat::Yuv420 => out.append("Yuv420"),
        PixelFormat::Other(code) => push_format_code_name(out, code),
    }
}

/// The message that describes a missing or unusable global object.
pub open spec fn object_error_message(e: WlObjectError) -> Seq<char> {
    match e {
        WlObjectError::MissingWlrScreencopy => "The compositor does not support wlr_screencopy."@,
        WlObjectError::MissingWlOutput => "The compositor does not support wl_output."@,
        WlObjectError::MissingWlShm => "The compositor does not support wl_shm"@,
        WlObjectError::MismatchedWlrScreencopyVersion(version) =>
            "Expected wlr_screencopy version 3, got version: "@ + decimal(version as nat) + "."@,
    }
}

/// The message that describes an unusable pixel format.
pub open spec fn format_error_message(e: FormatError) -> Seq<char> {
    match e {
        FormatError::UnsupportedFormat(format) =>
            "The pixel format "@ + format_name(format) + " is not yet supported."@,
        FormatError::UndetectedFormat(id) =>
            "The pixel format id "@ + decimal(id as nat) + " is not recognized."@,
    }
}

impl WlObjectError {
    /// The message that describes this error to the user.
    pub fn message(&self) -> (text: String)
        ensures
            text@ == object_error_message(*self),
    {
        match self {
            WlObjectError::MissingWlrScreencopy => String::from_str("The compositor does not support wlr_screencopy."),
            WlObjectError::MissingWlOutput => String::from_str("The compositor does not support wl_output."),
            WlObjectError::MissingWlShm => String::from_str("The compositor does not support wl_shm"),
            WlObjectError::MismatchedWlrScreencopyVersion(version) => {
                let mut text = String::from_str("Expected wlr_screencopy version 3, got version: ");
                push_decimal(&mut text, *version);
                text.append(".");
                text
            },
        }
    }
}

impl FormatError {
    /// The message that describes this error to the user.
    pub fn message(&self) -> (text: String)
        ensures
            text@ == format_error_message(*self),
    {
        match self {
            FormatError::UnsupportedFormat(format) => {
                let mut text = String::from_str("The pixel format ");
                push_format_name(&mut text, *format);
                text.append(" is not yet supported.");
                text
            },
            FormatError::UndetectedFormat(id) => {
                let mut text = String::from_str("The pixel format id ");
                push_decimal(&mut text, *id);
                text.append(" is not recognized.");
                text
            },
        }
    }
}

impl CaptureError {
    /// The message that describes this error to the user.
    pub fn message(&self) -> (text: String)
        ensures
            text@ == match *self {
                CaptureError::Object(e) => object_error_message(e),
                CaptureError::Format(e) => format_error_message(e),
            },
    {
        match self {
            CaptureError::Object(e) => e.message(),
            CaptureError::Format(e) => e.message(),
        }
    }
}

} // verus!
