//! A standalone probe of the `wlr_screencopy` protocol: it captures the
//! output once a second into one shared-memory buffer and decodes the pixels.

pub mod pixels;
pub mod session;
