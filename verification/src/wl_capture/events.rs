use crate::ffmpeg_encoder::FrameInfo;
use crate::pixel_format::{is_packed_rgb, shm_layout, BufferConfig, PixelFormat, WireFormat};
use crate::screencopy_probe::session::is_probe_format;
use crate::text::str_equals;
use crate::wl_capture::error::{CaptureError, FormatError, WlObjectError};
use crate::wl_capture::shm_pool::{planned_action, request_of, BufferAction, BufferPool, BufferRequest, BufferSlot};
use vstd::prelude::*;

verus! {

/// The plain state of a `wlr_screencopy` capture: what the compositor told
/// about the output and the frame, the pool that frames are copied into,
/// and the error that stopped the capture, if one did.
///
/// Once an error is recorded the state is inconsistent and no further event
/// is handled.
pub struct Data {
    pub screen_width: i32,
    pub screen_height: i32,
    pub buffer_pool: BufferPool,
    pub buffer_config: Option<BufferConfig>,
    pub event_error: Option<CaptureError>,
}

/// What to do about a global that the registry announced.
#[derive(Clone, Copy, Debug, PartialEq, Eq, Structural)]
pub enum RegistryAction {
    /// Nothing: the global is of no use here.
    Ignore,
    /// An error was recorded: raise the halt flag.
    Halt,
    /// Bind the screencopy manager at the announced version.
    BindScreencopyManager(u32),
    /// Bind the output at the announced version.
    BindOutput(u32),
    /// Bind the shared-memory global at the announced version.
    BindShm(u32),
}

/// An event of a `zwlr_screencopy_frame_v1` object.
#[derive(Clone, Copy, Debug, PartialEq, Eq, Structural)]
pub enum ScreencopyFrameEvent {
    Buffer { format: WireFormat, width: u32, height: u32, stride: u32 },
    Flags,
    Damage,
    LinuxDmabuf,
    BufferDone,
    Ready { tv_sec_hi: u32, tv_sec_lo: u32, tv_nsec: u32 },
    Failed,
}

/// What to do after a frame event.
#[derive(Clone, Copy, Debug, PartialEq, Eq, Structural)]
pub enum FrameAction {
    /// Nothing.
    Idle,
    /// An error was recorded: raise the halt flag.
    Halt,
    /// The current slot of the pool was prepared as described: bring its
    /// buffer into being if needed, then ask for the frame to be copied,
    /// with damage, into it.
    CopyInto(BufferAction),
    /// Send the frame to the encoder (raising the halt flag if it is gone),
    /// then destroy the frame object.
    SendAndDestroy(FrameInfo),
    /// Destroy the frame object.
    Destroy,
}

/// The formats that frames are captured in.
pub open spec fn is_capture_format(format: PixelFormat) -> bool {
    format == PixelFormat::Argb8888 || format == PixelFormat::Xrgb8888 || format == PixelFormat::Xbgr8888
}

/// The pool slot request for a frame of the given shape. The shape arrives
/// unsigned and is handed on as the signed values the pool works with.
pub open spec fn frame_request(config: BufferConfig) -> BufferRequest {
    request_of(config.width as i32, config.height as i32, config.stride as i32, config.format)
}

/// The pool can hand out a buffer of the given shape: one is free, the
/// current slot exists, and the byte size of the buffer fits.
pub open spec fn can_take_buffer(pool: BufferPool, config: BufferConfig) -> bool {
    &&& pool.dirty_size != pool.size
    &&& pool.current_ptr < pool.buffer_pool@.len()
    &&& i32::MIN <= (config.stride as i32) * (config.height as i32) <= i32::MAX
}

/// The frame handed to the encoder for a buffer of the given shape.
pub open spec fn frame_info_of(config: BufferConfig, tv_sec_hi: u32, tv_sec_lo: u32, tv_nsec: u32) -> FrameInfo {
    FrameInfo {
        frame_stride: config.stride,
        frame_width: config.width,
        frame_height: config.height,
        frame_format: config.format,
        tv_sec_hi,
        tv_sec_lo,
        tv_nsec,
    }
}

/// The pool is left as it was.
pub open spec fn same_pool(a: BufferPool, b: BufferPool) -> bool {
    &&& a.buffer_pool@ == b.buffer_pool@
    &&& a.size == b.size
    &&& a.dirty_size == b.dirty_size
    &&& a.current_ptr == b.current_ptr
}

/// The state is left as it was.
pub open spec fn same_data(a: Data, b: Data) -> bool {
    &&& a.screen_width == b.screen_width
    &&& a.screen_height == b.screen_height
    &&& same_pool(a.buffer_pool, b.buffer_pool)
    &&& a.buffer_config == b.buffer_config
    &&& a.event_error == b.event_error
}

/// Whether an earlier event left the state inconsistent.
pub fn is_state_inconsistent(state: &Data) -> (inconsistent: bool)
    ensures
        inconsistent == state.event_error is Some,
{
    state.event_error.is_some()
}

impl Data {
    /// A state before any event: no output size, no buffer shape, no error.
    pub fn new(buffer_pool: BufferPool) -> (data: Data)
        ensures
            data.screen_width == 0,
            data.screen_height == 0,
            same_pool(data.buffer_pool, buffer_pool),
            data.buffer_config is None,
            data.event_error is None,
    {
        Data { screen_width: 0, screen_height: 0, buffer_pool, buffer_config: None, event_error: None }
    }

    /// Handles a global announced by the registry.
    ///
    /// The screencopy manager is bound only at version 3; any other version
    /// is recorded as an error. Outputs and shared memory are bound at the
    /// version announced.
    pub fn on_global(&mut self, interface: &str, version: u32) -> (action: RegistryAction)
        ensures
            old(self).event_error is Some ==> action == RegistryAction::Ignore && same_data(*final(self), *old(self)),
            old(self).event_error is None ==> {
                if interface@ == "zwlr_screencopy_manager_v1"@ {
                    if version == 3 {
                        action == RegistryAction::BindScreencopyManager(version) && same_data(*final(self), *old(self))
                    } else {
                        &&& action == RegistryAction::Halt
                        &&& final(self).event_error == Some(
                            CaptureError::Object(WlObjectError::MismatchedWlrScreencopyVersion(version)),
                        )
                        &&& same_data(*final(self), Data { event_error: final(self).event_error, ..*old(self) })
                    }
                } else if interface@ == "wl_output"@ {
                    action == RegistryAction::BindOutput(version) && same_data(*final(self), *old(self))
                } else if interface@ == "wl_shm"@ {
                    action == RegistryAction::BindShm(version) && same_data(*final(self), *old(self))
                } else {
                    action == RegistryAction::Ignore && same_data(*final(self), *old(self))
                }
            },
    {
        if is_state_inconsistent(self) {
            return RegistryAction::Ignore;
        }
        if str_equals(interface, "zwlr_screencopy_manager_v1") {
            if version == 3 {
                return RegistryAction::BindScreencopyManager(version);
            } else {
                self.event_error = Some(CaptureError::Object(WlObjectError::MismatchedWlrScreencopyVersion(version)));
                return RegistryAction::Halt;
            }
        }
        if str_equals(interface, "wl_output") {
            return RegistryAction::BindOutput(version);
        }
        if str_equals(interface, "wl_shm") {
            return RegistryAction::BindShm(version);
        }
        RegistryAction::Ignore
    }

    /// Handles a mode of the output: the current mode gives the screen size.
    pub fn on_output_mode(&mut self, is_current: bool, width: i32, height: i32)
        ensures
            old(self).event_error is None && is_current ==> same_data(
                *final(self),
                Data { screen_width: width, screen_height: height, ..*old(self) },
            ),
            !(old(self).event_error is None && is_current) ==> same_data(*final(self), *old(self)),
    {
        if is_state_inconsistent(self) {
            return;
        }
        if is_current {
            self.screen_width = width;
            self.screen_height = height;
        }
    }

    /// Handles an event of the frame being captured.
    pub fn on_frame_event(&mut self, event: ScreencopyFrameEvent) -> (action: FrameAction)
        requires
            old(self).event_error is None ==> match event {
                ScreencopyFrameEvent::BufferDone => old(self).buffer_config matches Some(config)
                    && can_take_buffer(old(self).buffer_pool, config),
                ScreencopyFrameEvent::Ready { .. } => old(self).buffer_config is Some,
                _ => true,
            },
        ensures
            old(self).event_error is Some ==> action == FrameAction::Idle && same_data(*final(self), *old(self)),
            old(self).event_error is None ==> (event matches ScreencopyFrameEvent::Buffer {
                format: WireFormat::Value(f),
                width,
                height,
                stride,
            } ==> (f == PixelFormat::Argb8888 || f == PixelFormat::Xrgb8888 || f == PixelFormat::Xbgr8888) ==> {
                &&& action == FrameAction::Idle
                &&& final(self).event_error is None
                &&& final(self).buffer_config == Some(BufferConfig { format: f, width, height, stride })
            }),
            old(self).event_error is None ==> match event {
                ScreencopyFrameEvent::Buffer { format, width, height, stride } => match format {
                    WireFormat::Value(f) => if is_capture_format(f) {
                        &&& action == FrameAction::Idle
                        &&& same_data(
                            *final(self),
                            Data {
                                buffer_config: Some(BufferConfig { format: f, width, height, stride }),
                                ..*old(self)
                            },
                        )
                    } else {
                        &&& action == FrameAction::Halt
                        &&& same_data(
                            *final(self),
                            Data {
                                event_error: Some(CaptureError::Format(FormatError::UnsupportedFormat(f))),
                                ..*old(self)
                            },
                        )
                    },
                    WireFormat::Unknown(code) => {
                        &&& action == FrameAction::Halt
                        &&& same_data(
                            *final(self),
                            Data {
                                event_error: Some(CaptureError::Format(FormatError::UndetectedFormat(code))),
                                ..*old(self)
                            },
                        )
                    },
                },
                ScreencopyFrameEvent::BufferDone => {
                    let config = old(self).buffer_config.unwrap();
                    let pool = old(self).buffer_pool;
                    &&& action == FrameAction::CopyInto(
                        planned_action(pool.buffer_pool@[pool.current_ptr as int], frame_request(config)),
                    )
                    &&& final(self).buffer_pool.buffer_pool@ == pool.buffer_pool@.update(
                        pool.current_ptr as int,
                        Some(BufferSlot { format: config.format, size: frame_request(config).size }),
                    )
                    &&& final(self).buffer_pool.size == pool.size
                    &&& final(self).buffer_pool.dirty_size == pool.dirty_size
                    &&& final(self).buffer_pool.current_ptr == pool.current_ptr
                    &&& final(self).screen_width == old(self).screen_width
                    &&& final(self).screen_height == old(self).screen_height
                    &&& final(self).buffer_config == old(self).buffer_config
                    &&& final(self).event_error == old(self).event_error
                },
                ScreencopyFrameEvent::Ready { tv_sec_hi, tv_sec_lo, tv_nsec } => {
                    &&& action == FrameAction::SendAndDestroy(
                        frame_info_of(old(self).buffer_config.unwrap(), tv_sec_hi, tv_sec_lo, tv_nsec),
                    )
                    &&& same_data(*final(self), *old(self))
                },
                ScreencopyFrameEvent::Failed => action == FrameAction::Destroy && same_data(*final(self), *old(self)),
                _ => action == FrameAction::Idle && same_data(*final(self), *old(self)),
            },
    {
        if is_state_inconsistent(self) {
            return FrameAction::Idle;
        }
        match event {
            ScreencopyFrameEvent::Buffer { format, width, height, stride } => {
                let selected_format = match format {
                    WireFormat::Value(value) => match value {
                        PixelFormat::Argb8888 | PixelFormat::Xrgb8888 | PixelFormat::Xbgr8888 => value,
                        _ => {
                            self.event_error = Some(CaptureError::Format(FormatError::UnsupportedFormat(value)));
                            return FrameAction::Halt;
                        },
                    },
                    WireFormat::Unknown(value) => {
                        self.event_error = Some(CaptureError::Format(FormatError::UndetectedFormat(value)));
                        return FrameAction::Halt;
                    },
                };
                self.buffer_config = Some(BufferConfig { format: selected_format, width, height, stride });
                FrameAction::Idle
            },
            ScreencopyFrameEvent::Flags | ScreencopyFrameEvent::Damage | ScreencopyFrameEvent::LinuxDmabuf => {
                FrameAction::Idle
            },
            ScreencopyFrameEvent::BufferDone => {
                let buffer_cfg = self.buffer_config.unwrap();
                let result = self.buffer_pool.get_buffer(
                    buffer_cfg.width as i32,
                    buffer_cfg.height as i32,
                    buffer_cfg.stride as i32,
                    buffer_cfg.format,
                );
                FrameAction::CopyInto(result.unwrap())
            },
            ScreencopyFrameEvent::Ready { tv_sec_hi, tv_sec_lo, tv_nsec } => {
                let frame_config = self.buffer_config.unwrap();
                FrameAction::SendAndDestroy(
                    FrameInfo {
                        frame_stride: frame_config.stride,
                        frame_width: frame_config.width,
                        frame_height: frame_config.height,
                        frame_format: frame_config.format,
                        tv_sec_hi,
                        tv_sec_lo,
                        tv_nsec,
                    },
                )
            },
            ScreencopyFrameEvent::Failed => FrameAction::Destroy,
        }
    }
}

/// Frames are captured in exactly three formats, the 32-bit RGB formats
/// ARGB, XRGB and XBGR; all three decode with four bytes per pixel, and they
/// are the very formats that the standalone probe accepts.
pub proof fn lemma_capture_formats(f: PixelFormat)
    ensures
        is_capture_format(f) <==> (f == PixelFormat::Argb8888 || f == PixelFormat::Xrgb8888 || f
            == PixelFormat::Xbgr8888),
        is_capture_format(f) ==> is_packed_rgb(f) && shm_layout(f).bytes_per_pixel == 4,
        is_capture_format(f) <==> is_probe_format(WireFormat::Value(f)),
{
}

} // verus!
