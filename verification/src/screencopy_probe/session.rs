use crate::pixel_format::{BufferConfig, PixelFormat, WireFormat};
use crate::text::str_equals;
use crate::wl_capture::error::WlObjectError;
use vstd::prelude::*;

verus! {

/// The globals that the probe binds from the registry.
#[derive(Clone, Copy, Debug, PartialEq, Eq, Structural)]
pub enum ProbeGlobal {
    ScreencopyManager,
    Output,
    Shm,
}

/// The state of the probe: the protocol objects as they are, and the shape
/// of the buffer that the compositor asked for.
pub struct Data<Manager, Frame, Output, Shm, Pool, Buffer> {
    pub zwlr_screencopy_manager: Option<Manager>,
    pub zwlr_screencopy_frame: Option<Frame>,
    pub wl_output: Option<Output>,
    pub wl_shm: Option<Shm>,
    pub wl_shm_pool: Option<Pool>,
    pub result_buffer: Option<Buffer>,
    pub result_config: Option<BufferConfig>,
}

/// What to create before the frame can be copied: the shared-memory pool,
/// of the given byte size, when there is none yet, and in any case a
/// buffer of the given shape at the start of the pool.
#[derive(Clone, Copy, Debug, PartialEq, Eq, Structural)]
pub struct BufferPlan {
    pub pool_size: Option<i32>,
    pub width: i32,
    pub height: i32,
    pub stride: i32,
    pub format: PixelFormat,
}

/// The global that an interface of the given version is bound as, if any.
/// Only version 3 of the screencopy manager is used.
pub open spec fn probe_global(interface: Seq<char>, version: u32) -> Option<ProbeGlobal> {
    if interface == "zwlr_screencopy_manager_v1"@ {
        if version == 3 {
            Some(ProbeGlobal::ScreencopyManager)
        } else {
            None
        }
    } else if interface == "wl_output"@ {
        Some(ProbeGlobal::Output)
    } else if interface == "wl_shm"@ {
        Some(ProbeGlobal::Shm)
    } else {
        None
    }
}

/// The formats that the probe captures in.
pub open spec fn is_probe_format(format: WireFormat) -> bool {
    format == WireFormat::Value(PixelFormat::Argb8888) || format == WireFormat::Value(PixelFormat::Xrgb8888)
        || format == WireFormat::Value(PixelFormat::Xbgr8888)
}

/// The byte size of a buffer of the given shape, with the shape taken as
/// the signed values that the protocol requests carry.
pub open spec fn buffer_byte_size(config: BufferConfig) -> int {
    (config.height as i32) * (config.stride as i32)
}

impl<Manager, Frame, Output, Shm, Pool, Buffer> Data<Manager, Frame, Output, Shm, Pool, Buffer> {
    /// The state before any event: nothing bound, no buffer asked for.
    pub fn new() -> (data: Self)
        ensures
            data.zwlr_screencopy_manager is None,
            data.zwlr_screencopy_frame is None,
            data.wl_output is None,
            data.wl_shm is None,
            data.wl_shm_pool is None,
            data.result_buffer is None,
            data.result_config is None,
    {
        Data {
            zwlr_screencopy_manager: None,
            zwlr_screencopy_frame: None,
            wl_output: None,
            wl_shm: None,
            wl_shm_pool: None,
            result_buffer: None,
            result_config: None,
        }
    }

    /// Which global to bind, if any, for an announced interface.
    pub fn on_global(interface: &str, version: u32) -> (bind: Option<ProbeGlobal>)
        ensures
            bind == probe_global(interface@, version),
    {
        if str_equals(interface, "zwlr_screencopy_manager_v1") {
            if version == 3 {
                return Some(ProbeGlobal::ScreencopyManager);
            }
            return None;
        }
        if str_equals(interface, "wl_output") {
            return Some(ProbeGlobal::Output);
        }
        if str_equals(interface, "wl_shm") {
            return Some(ProbeGlobal::Shm);
        }
        None
    }

    /// The first global that the probe needs and the registry did not
    /// announce, checked in the order manager, output, shared memory.
    pub fn missing_global(&self) -> (missing: Option<WlObjectError>)
        ensures
            missing == if self.zwlr_screencopy_manager is None {
                Some(WlObjectError::MissingWlrScreencopy)
            } else if self.wl_output is None {
                Some(WlObjectError::MissingWlOutput)
            } else if self.wl_shm is None {
                Some(WlObjectError::MissingWlShm)
            } else {
                None
            },
    {
        if self.zwlr_screencopy_manager.is_none() {
            Some(WlObjectError::MissingWlrScreencopy)
        } else if self.wl_output.is_none() {
            Some(WlObjectError::MissingWlOutput)
        } else if self.wl_shm.is_none() {
            Some(WlObjectError::MissingWlShm)
        } else {
            None
        }
    }

    /// The compositor released the buffer: it is taken out of the state, to
    /// be destroyed.
    pub fn on_buffer_release(&mut self) -> (buffer: Buffer)
        requires
            old(self).result_buffer is Some,
        ensures
            Some(buffer) == old(self).result_buffer,
            *final(self) == (Data { result_buffer: None, ..*old(self) }),
    {
        self.result_buffer.take().unwrap()
    }

    /// The compositor asked for a buffer of the given shape, in a format the
    /// probe captures in.
    pub fn on_buffer(&mut self, format: WireFormat, width: u32, height: u32, stride: u32)
        requires
            is_probe_format(format),
        ensures
            format matches WireFormat::Value(f) && *final(self) == (Data {
                result_config: Some(BufferConfig { format: f, width, height, stride }),
                ..*old(self)
            }),
    {
        let selected_format = match format {
            WireFormat::Value(value) => value,
            WireFormat::Unknown(_) => {
                proof {
                    assert(false);
                }
                PixelFormat::Argb8888
            },
        };
        self.result_config = Some(BufferConfig { format: selected_format, width, height, stride });
    }

    /// What to create once the compositor has said everything about the
    /// buffer it wants: the pool if there is none yet (sized for one
    /// buffer), then a buffer of the asked shape.
    pub fn on_buffer_done(&self) -> (plan: BufferPlan)
        requires
            self.result_config matches Some(config) && (self.wl_shm_pool is None ==> i32::MIN <= buffer_byte_size(config) <= i32::MAX),
        ensures
            ({
                let config = self.result_config.unwrap();
                plan == BufferPlan {
                    pool_size: if self.wl_shm_pool is None { Some(buffer_byte_size(config) as i32) } else { None },
                    width: config.width as i32,
                    height: config.height as i32,
                    stride: config.stride as i32,
                    format: config.format,
                }
            }),
    {
        let buffer_cfg = self.result_config.unwrap();
        let pool_size = if self.wl_shm_pool.is_none() {
            Some(buffer_cfg.height as i32 * buffer_cfg.stride as i32)
        } else {
            None
        };
        BufferPlan {
            pool_size,
            width: buffer_cfg.width as i32,
            height: buffer_cfg.height as i32,
            stride: buffer_cfg.stride as i32,
            format: buffer_cfg.format,
        }
    }

    /// The frame is over, ready or failed: it is taken out of the state, to
    /// be destroyed.
    pub fn finish_frame(&mut self) -> (frame: Frame)
        requires
            old(self).zwlr_screencopy_frame is Some,
        ensures
            Some(frame) == old(self).zwlr_screencopy_frame,
            *final(self) == (Data { zwlr_screencopy_frame: None, ..*old(self) }),
    {
        self.zwlr_screencopy_frame.take().unwrap()
    }
}

/// The probe binds the output and the shared-memory global whatever version
/// the registry announces; only the screencopy manager's version is checked,
/// and it must be 3.
pub proof fn lemma_probe_globals(version: u32)
    ensures
        probe_global("wl_output"@, version) == Some(ProbeGlobal::Output),
        probe_global("wl_shm"@, version) == Some(ProbeGlobal::Shm),
        probe_global("zwlr_screencopy_manager_v1"@, version) is Some <==> version == 3,
        probe_global("zwlr_screencopy_manager_v1"@, version) is Some ==> probe_global(
            "zwlr_screencopy_manager_v1"@,
            version,
        ) == Some(ProbeGlobal::ScreencopyManager),
{
    reveal_strlit("wl_output");
    reveal_strlit("wl_shm");
    reveal_strlit("zwlr_screencopy_manager_v1");
    assert("wl_output"@.len() != "zwlr_screencopy_manager_v1"@.len());
    assert("wl_output"@ != "zwlr_screencopy_manager_v1"@);
    assert("wl_shm"@.len() != "zwlr_screencopy_manager_v1"@.len());
    assert("wl_shm"@ != "zwlr_screencopy_manager_v1"@);
    assert("wl_shm"@.len() != "wl_output"@.len());
    assert("wl_shm"@ != "wl_output"@);
}

} // verus!
