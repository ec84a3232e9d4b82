use crate::pixel_format::{PixelFormat, WireFormat};
use crate::text::str_equals;
use std::collections::HashMap;
use vstd::prelude::*;

verus! {

broadcast use vstd::std_specs::hash::group_hash_axioms;

/// The kinds of global objects that the capture binds from the registry.
#[derive(Clone, Copy, Debug, PartialEq, Eq, Structural)]
pub enum WaylandObjects {
    WlOutput,
    WlShm,
    CopyManager,
    CaptureSource,
}

/// The buffer constraints that the capture session is announcing, collected
/// until the session says it is done.
#[derive(Clone, Copy, Debug, PartialEq, Eq, Structural)]
pub struct BufferConfigBuilder {
    pub has_wanted_type: bool,
    pub buffer_width: u32,
    pub buffer_height: u32,
}

/// The presentation time of the frame being captured.
#[derive(Clone, Copy, Debug, PartialEq, Eq, Structural)]
pub struct FrameTimestamp {
    pub sec_low: u32,
    pub sec_high: u32,
    pub nsec: u32,
}

/// The size of the output, as its current mode gives it.
#[derive(Clone, Copy, Debug, PartialEq, Eq, Structural)]
pub struct CaptureConfigBuilder {
    pub capture_width: i32,
    pub capture_height: i32,
}

/// The state of an image-copy-capture of one output.
///
/// The protocol objects are held as they are; the registry keys record,
/// for each global name that was bound, which of them it stands for.
pub struct ApplicationState<Output, Shm, SourceManager, CopyManager, Frame, Session> {
    pub wl_output: Option<Output>,
    pub wl_shm: Option<Shm>,
    pub copy_capture_source_manager: Option<SourceManager>,
    pub copy_capture_manager: Option<CopyManager>,
    pub copy_capture_frame: Option<Frame>,
    pub copy_capture_session: Option<Session>,
    pub buffer_type: Option<PixelFormat>,
    pub buffer_width: Option<u32>,
    pub buffer_height: Option<u32>,
    pub object_keys: HashMap<u32, WaylandObjects>,
    pub buffer_config_builder: BufferConfigBuilder,
    pub frame_timestamp: FrameTimestamp,
    pub capture_config: Option<CaptureConfigBuilder>,
}

/// A protocol object taken out of the state because its global went away;
/// it still has to be released or destroyed.
pub enum RemovedObject<Output, Shm, SourceManager, CopyManager> {
    WlOutput(Output),
    WlShm(Shm),
    CopyManager(CopyManager),
    CaptureSource(SourceManager),
}

/// An event of the capture session.
#[derive(Clone, Copy, Debug, PartialEq, Eq, Structural)]
pub enum SessionEvent {
    BufferSize { width: u32, height: u32 },
    ShmFormat { format: WireFormat },
    DmabufDevice,
    DmabufFormat,
    Done,
    Stopped,
}

/// An event of the frame being captured that the capture handles.
#[derive(Clone, Copy, Debug, PartialEq, Eq, Structural)]
pub enum CaptureFrameEvent {
    Transform,
    Damage,
    PresentationTime { tv_sec_hi: u32, tv_sec_lo: u32, tv_nsec: u32 },
    Ready,
}

/// The kind of object that a global of the given interface and version is
/// bound as, if it is bound at all. The copy manager is only taken at
/// version 1.
pub open spec fn global_kind(interface: Seq<char>, version: u32) -> Option<WaylandObjects> {
    if interface == "ext_image_copy_capture_manager_v1"@ {
        if version == 1 {
            Some(WaylandObjects::CopyManager)
        } else {
            None
        }
    } else if interface == "wl_output"@ {
        Some(WaylandObjects::WlOutput)
    } else if interface == "wl_shm"@ {
        Some(WaylandObjects::WlShm)
    } else if interface == "ext_image_capture_source_v1"@ {
        Some(WaylandObjects::CaptureSource)
    } else {
        None
    }
}

/// The registry keys after a global is announced.
pub open spec fn keys_after_global(
    keys: Map<u32, WaylandObjects>,
    name: u32,
    interface: Seq<char>,
    version: u32,
) -> Map<u32, WaylandObjects> {
    match global_kind(interface, version) {
        Some(kind) => keys.insert(name, kind),
        None => keys,
    }
}

/// Removing a global that was just announced and bound leaves the registry
/// keys as removing it alone would, and its name no longer has a key.
pub proof fn lemma_global_then_remove(keys: Map<u32, WaylandObjects>, name: u32, interface: Seq<char>, version: u32)
    requires
        global_kind(interface, version) is Some,
    ensures
        keys_after_global(keys, name, interface, version).remove(name) == keys.remove(name),
        !keys_after_global(keys, name, interface, version).remove(name).contains_key(name),
{
    assert(keys_after_global(keys, name, interface, version).remove(name) =~= keys.remove(name));
}

impl<Output, Shm, SourceManager, CopyManager, Frame, Session> ApplicationState<
    Output,
    Shm,
    SourceManager,
    CopyManager,
    Frame,
    Session,
> {
    /// Whether the protocol objects are all the same in both states.
    pub open spec fn same_objects(self, other: Self) -> bool {
        &&& self.wl_output == other.wl_output
        &&& self.wl_shm == other.wl_shm
        &&& self.copy_capture_source_manager == other.copy_capture_source_manager
        &&& self.copy_capture_manager == other.copy_capture_manager
        &&& self.copy_capture_frame == other.copy_capture_frame
        &&& self.copy_capture_session == other.copy_capture_session
    }

    /// Whether what the session announced about buffers is the same in both
    /// states.
    pub open spec fn same_buffer_config(self, other: Self) -> bool {
        &&& self.buffer_type == other.buffer_type
        &&& self.buffer_width == other.buffer_width
        &&& self.buffer_height == other.buffer_height
        &&& self.buffer_config_builder == other.buffer_config_builder
    }

    /// Whether everything but the protocol objects is the same in both
    /// states.
    pub open spec fn same_plain(self, other: Self) -> bool {
        &&& self.same_buffer_config(other)
        &&& self.object_keys@ == other.object_keys@
        &&& self.frame_timestamp == other.frame_timestamp
        &&& self.capture_config == other.capture_config
    }

    /// Whether the object of the given kind is present.
    pub open spec fn holds(self, kind: WaylandObjects) -> bool {
        match kind {
            WaylandObjects::WlOutput => self.wl_output is Some,
            WaylandObjects::WlShm => self.wl_shm is Some,
            WaylandObjects::CopyManager => self.copy_capture_manager is Some,
            WaylandObjects::CaptureSource => self.copy_capture_source_manager is Some,
        }
    }

    /// The state before any event: nothing bound, nothing announced.
    pub fn new() -> (state: Self)
        ensures
            state.wl_output is None,
            state.wl_shm is None,
            state.copy_capture_source_manager is None,
            state.copy_capture_manager is None,
            state.copy_capture_frame is None,
            state.copy_capture_session is None,
            state.buffer_type is None,
            state.buffer_width is None,
            state.buffer_height is None,
            state.object_keys@ == Map::<u32, WaylandObjects>::empty(),
            state.buffer_config_builder == (BufferConfigBuilder { has_wanted_type: false, buffer_width: 0, buffer_height: 0 }),
            state.frame_timestamp == (FrameTimestamp { sec_low: 0, sec_high: 0, nsec: 0 }),
            state.capture_config is None,
    {
        ApplicationState {
            wl_output: None,
            wl_shm: None,
            copy_capture_source_manager: None,
            copy_capture_manager: None,
            copy_capture_frame: None,
            copy_capture_session: None,
            buffer_type: None,
            buffer_width: None,
            buffer_height: None,
            object_keys: HashMap::new(),
            buffer_config_builder: BufferConfigBuilder { has_wanted_type: false, buffer_width: 0, buffer_height: 0 },
            frame_timestamp: FrameTimestamp { sec_low: 0, sec_high: 0, nsec: 0 },
            capture_config: None,
        }
    }

    /// Handles a global announced by the registry: records its name under
    /// the kind it is bound as, and says which kind to bind (the object is
    /// bound at the announced version and stored by the caller).
    pub fn on_global(&mut self, name: u32, interface: &str, version: u32) -> (bind: Option<WaylandObjects>)
        ensures
            bind == global_kind(interface@, version),
            final(self).object_keys@ == keys_after_global(old(self).object_keys@, name, interface@, version),
            final(self).same_objects(*old(self)),
            final(self).same_buffer_config(*old(self)),
            final(self).frame_timestamp == old(self).frame_timestamp,
            final(self).capture_config == old(self).capture_config,
    {
        let kind = if str_equals(interface, "ext_image_copy_capture_manager_v1") {
            if version != 1 {
                return None;
            }
            WaylandObjects::CopyManager
        } else if str_equals(interface, "wl_output") {
            WaylandObjects::WlOutput
        } else if str_equals(interface, "wl_shm") {
            WaylandObjects::WlShm
        } else if str_equals(interface, "ext_image_capture_source_v1") {
            WaylandObjects::CaptureSource
        } else {
            return None;
        };
        self.object_keys.insert(name, kind);
        Some(kind)
    }

    /// Handles the removal of a global: if its name was bound, the object it
    /// stands for is taken out of the state (for the caller to release or
    /// destroy) and the name is forgotten.
    pub fn remove_object(&mut self, name: u32) -> (removed: Option<RemovedObject<Output, Shm, SourceManager, CopyManager>>)
        ensures
            !old(self).object_keys@.contains_key(name) ==> {
                &&& removed is None
                &&& final(self).same_objects(*old(self))
                &&& final(self).same_plain(*old(self))
            },
            old(self).object_keys@.contains_key(name) ==> {
                let kind = old(self).object_keys@[name];
                &&& final(self).object_keys@ == old(self).object_keys@.remove(name)
                &&& !final(self).holds(kind)
                &&& removed is Some <==> old(self).holds(kind)
                &&& match kind {
                    WaylandObjects::WlOutput => {
                        &&& (old(self).wl_output matches Some(o) ==> removed == Some(RemovedObject::<Output, Shm, SourceManager, CopyManager>::WlOutput(o)))
                        &&& *final(self) == (ApplicationState { wl_output: None, object_keys: final(self).object_keys, ..*old(self) })
                    },
                    WaylandObjects::WlShm => {
                        &&& (old(self).wl_shm matches Some(o) ==> removed == Some(RemovedObject::<Output, Shm, SourceManager, CopyManager>::WlShm(o)))
                        &&& *final(self) == (ApplicationState { wl_shm: None, object_keys: final(self).object_keys, ..*old(self) })
                    },
                    WaylandObjects::CopyManager => {
                        &&& (old(self).copy_capture_manager matches Some(o) ==> removed == Some(RemovedObject::<Output, Shm, SourceManager, CopyManager>::CopyManager(o)))
                        &&& *final(self) == (ApplicationState { copy_capture_manager: None, object_keys: final(self).object_keys, ..*old(self) })
                    },
                    WaylandObjects::CaptureSource => {
                        &&& (old(self).copy_capture_source_manager matches Some(o) ==> removed == Some(RemovedObject::<Output, Shm, SourceManager, CopyManager>::CaptureSource(o)))
                        &&& *final(self) == (ApplicationState { copy_capture_source_manager: None, object_keys: final(self).object_keys, ..*old(self) })
                    },
                }
            },
    {
        let object_type = match self.object_keys.get(&name) {
            Some(kind) => *kind,
            None => return None,
        };
        let removed = match object_type {
            WaylandObjects::WlOutput => match self.wl_output.take() {
                Some(o) => Some(RemovedObject::WlOutput(o)),
                None => None,
            },
            WaylandObjects::WlShm => match self.wl_shm.take() {
                Some(o) => Some(RemovedObject::WlShm(o)),
                None => None,
            },
            WaylandObjects::CopyManager => match self.copy_capture_manager.take() {
                Some(o) => Some(RemovedObject::CopyManager(o)),
                None => None,
            },
            WaylandObjects::CaptureSource => match self.copy_capture_source_manager.take() {
                Some(o) => Some(RemovedObject::CaptureSource(o)),
                None => None,
            },
        };
        self.object_keys.remove(&name);
        removed
    }
}

/// What the capture session has told about buffers: the announced format
/// and size, and what is being collected for the next announcement.
#[derive(Clone, Copy, Debug, PartialEq, Eq, Structural)]
pub struct SessionConfig {
    pub buffer_type: Option<PixelFormat>,
    pub buffer_width: Option<u32>,
    pub buffer_height: Option<u32>,
    pub builder: BufferConfigBuilder,
}

/// The announcements after every announced value is withdrawn.
pub open spec fn invalidated(c: SessionConfig) -> SessionConfig {
    SessionConfig {
        buffer_type: None,
        buffer_width: None,
        buffer_height: None,
        builder: invalidated_config(c.buffer_type, c.buffer_width, c.buffer_height, c.builder),
    }
}

/// What a session event does to what the session has told about buffers.
pub open spec fn next_session_config(c: SessionConfig, event: SessionEvent) -> SessionConfig {
    match event {
        SessionEvent::BufferSize { width, height } => {
            let base = invalidated(c);
            SessionConfig { builder: BufferConfigBuilder { buffer_width: width, buffer_height: height, ..base.builder }, ..base }
        },
        SessionEvent::ShmFormat { format } => {
            let base = invalidated(c);
            if format == WireFormat::Value(PixelFormat::Yuv420) {
                SessionConfig { builder: BufferConfigBuilder { has_wanted_type: true, ..base.builder }, ..base }
            } else {
                base
            }
        },
        SessionEvent::DmabufDevice | SessionEvent::DmabufFormat => invalidated(c),
        SessionEvent::Done => SessionConfig {
            buffer_type: Some(PixelFormat::Yuv420),
            buffer_width: Some(c.builder.buffer_width),
            buffer_height: Some(c.builder.buffer_height),
            builder: c.builder,
        },
        SessionEvent::Stopped => c,
    }
}

/// A batch of constraints that gives a size and offers YUV 4:2:0, in either
/// order, is what the session announces when it says it is done, whatever
/// was announced before.
pub proof fn lemma_batch_is_announced(c: SessionConfig, width: u32, height: u32)
    ensures
        ({
            let size = SessionEvent::BufferSize { width, height };
            let yuv = SessionEvent::ShmFormat { format: WireFormat::Value(PixelFormat::Yuv420) };
            let size_first = next_session_config(next_session_config(c, size), yuv);
            let format_first = next_session_config(next_session_config(c, yuv), size);
            &&& size_first.builder.has_wanted_type
            &&& format_first.builder.has_wanted_type
            &&& next_session_config(size_first, SessionEvent::Done) == SessionConfig {
                buffer_type: Some(PixelFormat::Yuv420),
                buffer_width: Some(width),
                buffer_height: Some(height),
                builder: size_first.builder,
            }
            &&& next_session_config(format_first, SessionEvent::Done) == SessionConfig {
                buffer_type: Some(PixelFormat::Yuv420),
                buffer_width: Some(width),
                buffer_height: Some(height),
                builder: format_first.builder,
            }
        }),
{
}

/// The session has announced nothing: the constraints are still being
/// collected.
pub open spec fn is_collecting(c: SessionConfig) -> bool {
    &&& c.buffer_type is None
    &&& c.buffer_width is None
    &&& c.buffer_height is None
}

/// The offer of YUV 4:2:0 as a shared-memory format.
pub open spec fn yuv_offer() -> SessionEvent {
    SessionEvent::ShmFormat { format: WireFormat::Value(PixelFormat::Yuv420) }
}

/// What the session has told after a sequence of events, in order.
pub open spec fn after_events(c: SessionConfig, events: Seq<SessionEvent>) -> SessionConfig
    decreases events.len(),
{
    if events.len() == 0 {
        c
    } else {
        next_session_config(after_events(c, events.drop_last()), events.last())
    }
}

/// While the session is collecting, no event but `Done` announces anything
/// and nothing collected is lost: the YUV 4:2:0 offer, once made, stays
/// whatever other formats are offered, and a size is kept until another
/// size replaces it.
pub proof fn lemma_collecting_keeps_offer(c: SessionConfig, event: SessionEvent)
    requires
        is_collecting(c),
        event != SessionEvent::Done,
    ensures
        is_collecting(next_session_config(c, event)),
        next_session_config(c, event).builder.has_wanted_type == (c.builder.has_wanted_type || event == yuv_offer()),
        next_session_config(c, event).builder.buffer_width == match event {
            SessionEvent::BufferSize { width, .. } => width,
            _ => c.builder.buffer_width,
        },
        next_session_config(c, event).builder.buffer_height == match event {
            SessionEvent::BufferSize { height, .. } => height,
            _ => c.builder.buffer_height,
        },
{
}

/// A batch of constraints that offers YUV 4:2:0 among any other formats
/// and sizes, in any order, is announced as YUV 4:2:0 when the session is
/// done, at the size collected.
pub proof fn lemma_batch_with_yuv_is_announced(c: SessionConfig, events: Seq<SessionEvent>)
    requires
        is_collecting(c),
        forall|i: int| 0 <= i < events.len() ==> events[i] != SessionEvent::Done,
        events.contains(yuv_offer()),
    ensures
        is_collecting(after_events(c, events)),
        after_events(c, events).builder.has_wanted_type,
        next_session_config(after_events(c, events), SessionEvent::Done) == (SessionConfig {
            buffer_type: Some(PixelFormat::Yuv420),
            buffer_width: Some(after_events(c, events).builder.buffer_width),
            buffer_height: Some(after_events(c, events).builder.buffer_height),
            builder: after_events(c, events).builder,
        }),
{
    lemma_collecting_batch(c, events);
}

/// Within a batch, the collected offer is the initial one or any YUV 4:2:0
/// offer among the events, and nothing is announced.
proof fn lemma_collecting_batch(c: SessionConfig, events: Seq<SessionEvent>)
    requires
        is_collecting(c),
        forall|i: int| 0 <= i < events.len() ==> events[i] != SessionEvent::Done,
    ensures
        is_collecting(after_events(c, events)),
        after_events(c, events).builder.has_wanted_type == (c.builder.has_wanted_type || events.contains(yuv_offer())),
    decreases events.len(),
{
    if events.len() > 0 {
        let front = events.drop_last();
        assert forall|i: int| 0 <= i < front.len() implies front[i] != SessionEvent::Done by {
            assert(front[i] == events[i]);
        }
        lemma_collecting_batch(c, front);
        assert(events.last() != SessionEvent::Done);
        lemma_collecting_keeps_offer(after_events(c, front), events.last());
        assert(events =~= front.push(events.last()));
        if events.contains(yuv_offer()) {
            let k = choose|k: int| 0 <= k < events.len() && events[k] == yuv_offer();
            if k < front.len() {
                assert(front[k] == yuv_offer());
            }
        }
        if front.contains(yuv_offer()) {
            let k = choose|k: int| 0 <= k < front.len() && front[k] == yuv_offer();
            assert(events[k] == yuv_offer());
        }
    }
}

/// Once the session is done, any new constraint withdraws the whole
/// announcement and starts collecting afresh.
pub proof fn lemma_new_constraint_withdraws(c: SessionConfig, event: SessionEvent)
    requires
        c.buffer_type is Some,
        c.buffer_width is Some,
        c.buffer_height is Some,
        event != SessionEvent::Done,
        event != SessionEvent::Stopped,
    ensures
        next_session_config(c, event).buffer_type is None,
        next_session_config(c, event).buffer_width is None,
        next_session_config(c, event).buffer_height is None,
        next_session_config(c, event).builder == match event {
            SessionEvent::BufferSize { width, height } => BufferConfigBuilder {
                has_wanted_type: false,
                buffer_width: width,
                buffer_height: height,
            },
            SessionEvent::ShmFormat { format } => BufferConfigBuilder {
                has_wanted_type: format == WireFormat::Value(PixelFormat::Yuv420),
                buffer_width: 0,
                buffer_height: 0,
            },
            _ => BufferConfigBuilder { has_wanted_type: false, buffer_width: 0, buffer_height: 0 },
        },
{
}

/// The buffer announcements after the session revoked them: each announced
/// value is withdrawn, and what was collected for it is reset.
pub open spec fn invalidated_config(
    buffer_type: Option<PixelFormat>,
    buffer_width: Option<u32>,
    buffer_height: Option<u32>,
    builder: BufferConfigBuilder,
) -> BufferConfigBuilder {
    BufferConfigBuilder {
        has_wanted_type: if buffer_type is Some { false } else { builder.has_wanted_type },
        buffer_width: if buffer_width is Some { 0 } else { builder.buffer_width },
        buffer_height: if buffer_height is Some { 0 } else { builder.buffer_height },
    }
}

impl<Output, Shm, SourceManager, CopyManager, Frame, Session> ApplicationState<
    Output,
    Shm,
    SourceManager,
    CopyManager,
    Frame,
    Session,
> {
    /// The collected constraints once the announced ones are withdrawn.
    pub open spec fn invalidated_builder(self) -> BufferConfigBuilder {
        invalidated_config(self.buffer_type, self.buffer_width, self.buffer_height, self.buffer_config_builder)
    }

    /// What the session has told about buffers.
    pub open spec fn session_config(self) -> SessionConfig {
        SessionConfig {
            buffer_type: self.buffer_type,
            buffer_width: self.buffer_width,
            buffer_height: self.buffer_height,
            builder: self.buffer_config_builder,
        }
    }

    /// Withdraws the buffer constraints announced so far, resetting what was
    /// collected for each of them.
    fn invalidate_current_buffer_config(&mut self)
        ensures
            final(self).buffer_type is None,
            final(self).buffer_width is None,
            final(self).buffer_height is None,
            final(self).buffer_config_builder == old(self).invalidated_builder(),
            final(self).same_objects(*old(self)),
            final(self).object_keys@ == old(self).object_keys@,
            final(self).frame_timestamp == old(self).frame_timestamp,
            final(self).capture_config == old(self).capture_config,
    {
        if self.buffer_width.is_some() {
            self.buffer_width = None;
            self.buffer_config_builder.buffer_width = 0;
        }
        if self.buffer_height.is_some() {
            self.buffer_height = None;
            self.buffer_config_builder.buffer_height = 0;
        }
        if self.buffer_type.is_some() {
            self.buffer_type = None;
            self.buffer_config_builder.has_wanted_type = false;
        }
    }

    /// Handles a mode of the output: the first current mode gives the size
    /// of the capture, and later modes do not change it.
    pub fn on_output_mode(&mut self, is_current: bool, width: i32, height: i32)
        ensures
            final(self).capture_config == if is_current && old(self).capture_config is None {
                Some(CaptureConfigBuilder { capture_width: width, capture_height: height })
            } else {
                old(self).capture_config
            },
            final(self).same_objects(*old(self)),
            final(self).same_buffer_config(*old(self)),
            final(self).object_keys@ == old(self).object_keys@,
            final(self).frame_timestamp == old(self).frame_timestamp,
    {
        if is_current && self.capture_config.is_none() {
            self.capture_config = Some(CaptureConfigBuilder { capture_width: width, capture_height: height });
        }
    }

    /// Handles an event of the capture session.
    ///
    /// Every new constraint withdraws those announced before; when the
    /// session is done, the collected size is announced together with the
    /// YUV 4:2:0 format, which the session must have offered.
    pub fn on_session_event(&mut self, event: SessionEvent)
        requires
            event == SessionEvent::Done ==> old(self).buffer_config_builder.has_wanted_type,
        ensures
            final(self).session_config() == next_session_config(old(self).session_config(), event),
            final(self).object_keys@ == old(self).object_keys@,
            final(self).frame_timestamp == old(self).frame_timestamp,
            final(self).capture_config == old(self).capture_config,
            final(self).wl_output == old(self).wl_output,
            final(self).wl_shm == old(self).wl_shm,
            final(self).copy_capture_source_manager == old(self).copy_capture_source_manager,
            final(self).copy_capture_manager == old(self).copy_capture_manager,
            final(self).copy_capture_frame == old(self).copy_capture_frame,
            final(self).copy_capture_session == if event == SessionEvent::Stopped {
                None
            } else {
                old(self).copy_capture_session
            },
    {
        match event {
            SessionEvent::BufferSize { width, height } => {
                self.invalidate_current_buffer_config();
                self.buffer_config_builder.buffer_height = height;
                self.buffer_config_builder.buffer_width = width;
            },
            SessionEvent::ShmFormat { format } => {
                self.invalidate_current_buffer_config();
                if let WireFormat::Value(PixelFormat::Yuv420) = format {
                    self.buffer_config_builder.has_wanted_type = true;
                }
            },
            SessionEvent::DmabufDevice => {
                self.invalidate_current_buffer_config();
            },
            SessionEvent::DmabufFormat => {
                self.invalidate_current_buffer_config();
            },
            SessionEvent::Done => {
                self.buffer_height = Some(self.buffer_config_builder.buffer_height);
                self.buffer_width = Some(self.buffer_config_builder.buffer_width);
                self.buffer_type = Some(PixelFormat::Yuv420);
            },
            SessionEvent::Stopped => {
                self.copy_capture_session = None;
            },
        }
    }

    /// Handles an event of the frame being captured: the presentation time
    /// is recorded. Whether the frame object is to be destroyed is returned:
    /// it is, once the frame is ready.
    pub fn on_frame_event(&mut self, event: CaptureFrameEvent) -> (destroy_frame: bool)
        requires
            event == CaptureFrameEvent::Ready ==> old(self).copy_capture_frame is Some,
        ensures
            destroy_frame == (event == CaptureFrameEvent::Ready),
            final(self).frame_timestamp == match event {
                CaptureFrameEvent::PresentationTime { tv_sec_hi, tv_sec_lo, tv_nsec } => FrameTimestamp {
                    sec_low: tv_sec_lo,
                    sec_high: tv_sec_hi,
                    nsec: tv_nsec,
                },
                _ => old(self).frame_timestamp,
            },
            final(self).same_objects(*old(self)),
            final(self).same_buffer_config(*old(self)),
            final(self).object_keys@ == old(self).object_keys@,
            final(self).capture_config == old(self).capture_config,
    {
        match event {
            CaptureFrameEvent::Transform | CaptureFrameEvent::Damage => false,
            CaptureFrameEvent::PresentationTime { tv_sec_hi, tv_sec_lo, tv_nsec } => {
                self.frame_timestamp.sec_low = tv_sec_lo;
                self.frame_timestamp.sec_high = tv_sec_hi;
                self.frame_timestamp.nsec = tv_nsec;
                false
            },
            CaptureFrameEvent::Ready => true,
        }
    }
}

/// The output, the shared-memory global and the capture source manager are
/// bound whatever version the registry announces; the copy manager is bound
/// only at version 1.
pub proof fn lemma_bound_globals(version: u32)
    ensures
        global_kind("wl_output"@, version) == Some(WaylandObjects::WlOutput),
        global_kind("wl_shm"@, version) == Some(WaylandObjects::WlShm),
        global_kind("ext_image_capture_source_v1"@, version) == Some(WaylandObjects::CaptureSource),
        global_kind("ext_image_copy_capture_manager_v1"@, version) is Some <==> version == 1,
        global_kind("ext_image_copy_capture_manager_v1"@, version) is Some ==> global_kind(
            "ext_image_copy_capture_manager_v1"@,
            version,
        ) == Some(WaylandObjects::CopyManager),
{
    reveal_strlit("wl_output");
    reveal_strlit("wl_shm");
    reveal_strlit("ext_image_capture_source_v1");
    reveal_strlit("ext_image_copy_capture_manager_v1");
    assert("wl_output"@.len() != "ext_image_copy_capture_manager_v1"@.len());
    assert("wl_output"@ != "ext_image_copy_capture_manager_v1"@);
    assert("wl_shm"@.len() != "ext_image_copy_capture_manager_v1"@.len());
    assert("wl_shm"@ != "ext_image_copy_capture_manager_v1"@);
    assert("wl_shm"@.len() != "wl_output"@.len());
    assert("wl_shm"@ != "wl_output"@);
    assert("ext_image_capture_source_v1"@.len() != "ext_image_copy_capture_manager_v1"@.len());
    assert("ext_image_capture_source_v1"@ != "ext_image_copy_capture_manager_v1"@);
    assert("ext_image_capture_source_v1"@.len() != "wl_output"@.len());
    assert("ext_image_capture_source_v1"@ != "wl_output"@);
    assert("ext_image_capture_source_v1"@.len() != "wl_shm"@.len());
    assert("ext_image_capture_source_v1"@ != "wl_shm"@);
}

} // verus!
