use screencap::pixel_format::{PixelFormat, WireFormat};
use screencap::wl_capture::capture_loop::{needs_new_frame, start_capture_frame};
use screencap::wl_capture::dispatch::{
    ApplicationState, BufferConfigBuilder, CaptureConfigBuilder, CaptureFrameEvent, FrameTimestamp, RemovedObject,
    SessionEvent, WaylandObjects,
};
use screencap::wl_capture::shm_pool::{BufferAction, BufferPool, BufferRequest};
use screencap::wl_capture::wayland_event_handler;

type State = ApplicationState<&'static str, &'static str, &'static str, &'static str, &'static str, &'static str>;

#[test]
fn globals_come_and_go() {
    let mut state = State::new();
    assert_eq!(state.on_global(10, "wl_output", 4), Some(WaylandObjects::WlOutput));
    state.wl_output = Some("output");
    assert_eq!(state.on_global(11, "wl_shm", 1), Some(WaylandObjects::WlShm));
    state.wl_shm = Some("shm");
    assert_eq!(state.on_global(12, "ext_image_copy_capture_manager_v1", 2), None);
    assert_eq!(state.on_global(13, "ext_image_copy_capture_manager_v1", 1), Some(WaylandObjects::CopyManager));
    assert_eq!(state.on_global(14, "ext_image_capture_source_v1", 1), Some(WaylandObjects::CaptureSource));
    assert_eq!(state.on_global(15, "wl_seat", 9), None);
    assert_eq!(state.object_keys.len(), 4);

    assert!(matches!(state.remove_object(10), Some(RemovedObject::WlOutput("output"))));
    assert_eq!(state.wl_output, None);
    assert!(!state.object_keys.contains_key(&10));
    // The manager was announced but never stored: the name is forgotten all the same.
    assert!(state.remove_object(13).is_none());
    assert!(!state.object_keys.contains_key(&13));
    // Unknown names change nothing.
    assert!(state.remove_object(99).is_none());
    assert_eq!(state.wl_shm, Some("shm"));
    assert_eq!(state.object_keys.len(), 2);
}

#[test]
fn session_announces_a_batch() {
    let mut state = State::new();
    state.on_session_event(SessionEvent::ShmFormat { format: WireFormat::Value(PixelFormat::Yuv420) });
    state.on_session_event(SessionEvent::BufferSize { width: 1920, height: 1080 });
    state.on_session_event(SessionEvent::Done);
    assert_eq!(state.buffer_width, Some(1920));
    assert_eq!(state.buffer_height, Some(1080));
    assert_eq!(state.buffer_type, Some(PixelFormat::Yuv420));

    // A new constraint withdraws everything and restarts the collection.
    state.on_session_event(SessionEvent::BufferSize { width: 640, height: 480 });
    assert_eq!((state.buffer_width, state.buffer_height, state.buffer_type), (None, None, None));
    assert_eq!(
        state.buffer_config_builder,
        BufferConfigBuilder { has_wanted_type: false, buffer_width: 640, buffer_height: 480 }
    );
    state.on_session_event(SessionEvent::ShmFormat { format: WireFormat::Value(PixelFormat::Xrgb8888) });
    state.on_session_event(SessionEvent::DmabufDevice);
    assert!(!state.buffer_config_builder.has_wanted_type);
    state.on_session_event(SessionEvent::ShmFormat { format: WireFormat::Value(PixelFormat::Yuv420) });
    state.on_session_event(SessionEvent::Done);
    assert_eq!((state.buffer_width, state.buffer_height), (Some(640), Some(480)));

    // Size first, then format, after a finished batch.
    state.on_session_event(SessionEvent::BufferSize { width: 320, height: 200 });
    state.on_session_event(SessionEvent::ShmFormat { format: WireFormat::Value(PixelFormat::Yuv420) });
    state.on_session_event(SessionEvent::Done);
    assert_eq!((state.buffer_width, state.buffer_height), (Some(320), Some(200)));
    assert_eq!(state.buffer_type, Some(PixelFormat::Yuv420));
    state.on_session_event(SessionEvent::BufferSize { width: 640, height: 480 });
    state.on_session_event(SessionEvent::ShmFormat { format: WireFormat::Value(PixelFormat::Yuv420) });
    state.on_session_event(SessionEvent::Done);

    state.copy_capture_session = Some("session");
    state.on_session_event(SessionEvent::Stopped);
    assert_eq!(state.copy_capture_session, None);
    assert_eq!(state.buffer_width, Some(640));
}

#[test]
fn first_current_mode_wins() {
    let mut state = State::new();
    state.on_output_mode(false, 1, 1);
    assert_eq!(state.capture_config, None);
    state.on_output_mode(true, 2560, 1440);
    state.on_output_mode(true, 1920, 1080);
    assert_eq!(state.capture_config, Some(CaptureConfigBuilder { capture_width: 2560, capture_height: 1440 }));
}

#[test]
fn frame_events() {
    let mut state = State::new();
    state.copy_capture_frame = Some("frame");
    assert!(!state.on_frame_event(CaptureFrameEvent::Transform));
    assert!(!state.on_frame_event(CaptureFrameEvent::PresentationTime { tv_sec_hi: 1, tv_sec_lo: 2, tv_nsec: 3 }));
    assert_eq!(state.frame_timestamp, FrameTimestamp { sec_low: 2, sec_high: 1, nsec: 3 });
    assert!(state.on_frame_event(CaptureFrameEvent::Ready));
}

#[test]
fn capture_loop_prepares_a_buffer() {
    let mut state = State::new();
    let mut pool = BufferPool::new(1);
    pool.buffer_pool = vec![None];
    assert!(needs_new_frame(&state, &pool));
    state.copy_capture_session = Some("session");
    state.wl_shm = Some("shm");
    state.on_session_event(SessionEvent::BufferSize { width: 100, height: 50 });
    state.on_session_event(SessionEvent::ShmFormat { format: WireFormat::Value(PixelFormat::Yuv420) });
    state.on_session_event(SessionEvent::Done);
    let request = BufferRequest { width: 100, height: 50, stride: 400, format: PixelFormat::Yuv420, size: 20000 };
    assert_eq!(start_capture_frame(&state, &mut pool), BufferAction::Allocate(request));
    assert_eq!(start_capture_frame(&state, &mut pool), BufferAction::Reuse);
    state.copy_capture_frame = Some("frame");
    assert!(!needs_new_frame(&state, &pool));
    state.copy_capture_frame = None;
    pool.dirty_size = 1;
    assert!(!needs_new_frame(&state, &pool));
}

#[test]
fn the_other_handler() {
    type Other = wayland_event_handler::ApplicationState<u8, u8, u8, u8, u8>;
    let mut state = Other::new();
    assert_eq!(state.on_global(1, "wl_output", 3), Some(wayland_event_handler::WaylandObjects::WlOutput));
    state.wl_output = Some(1);
    assert_eq!(state.on_global(2, "ext_image_capture_source_v1", 1), None);
    assert_eq!(state.on_global(3, "ext_image_copy_capture_manager_v1", 1), Some(wayland_event_handler::WaylandObjects::CopyManager));
    state.copy_capture_manager = Some(3);
    assert!(matches!(state.remove_object(3), Some(wayland_event_handler::RemovedObject::CopyManager(3))));
    assert_eq!(state.copy_capture_manager, None);
    assert_eq!(state.wl_output, Some(1));
    state.on_output_mode(true, 10, 20);
    state.on_output_mode(true, 30, 40);
    assert_eq!((state.capture_width, state.capture_height), (Some(10), Some(20)));
}
