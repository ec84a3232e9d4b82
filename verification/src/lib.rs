//! Screen capture of a Wayland output, with the pixel, buffer-pool and
//! protocol-state logic proved in Verus.

pub mod halt;
pub mod pixel_format;
pub mod ffmpeg_encoder;
pub mod screencopy_probe;
pub mod packet_buffer;
pub mod wl_capture;
pub mod text;
