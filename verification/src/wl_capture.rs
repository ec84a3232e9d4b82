//! Capture of a Wayland output through the image-copy-capture and
//! `wlr_screencopy` protocols: the state each protocol's events drive, and the
//! pool of shared-memory buffers that frames are copied into.

pub mod capture_loop;
pub mod dispatch;
pub mod error;
pub mod events;
pub mod format_names;
pub mod shm_pool;
pub mod wayland_event_handler;
