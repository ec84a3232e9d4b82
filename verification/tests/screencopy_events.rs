use screencap::ffmpeg_encoder::FrameInfo;
use screencap::pixel_format::{BufferConfig, PixelFormat, WireFormat};
use screencap::wl_capture::error::{CaptureError, FormatError, WlObjectError};
use screencap::wl_capture::events::{is_state_inconsistent, Data, FrameAction, RegistryAction, ScreencopyFrameEvent};
use screencap::wl_capture::shm_pool::{BufferAction, BufferPool, BufferRequest};

fn fresh() -> Data {
    let mut pool = BufferPool::new(2);
    pool.buffer_pool = vec![None, None];
    Data::new(pool)
}

#[test]
fn registry_binds_what_it_needs() {
    let mut data = fresh();
    assert_eq!(data.on_global("zwlr_screencopy_manager_v1", 3), RegistryAction::BindScreencopyManager(3));
    assert_eq!(data.on_global("wl_output", 4), RegistryAction::BindOutput(4));
    assert_eq!(data.on_global("wl_shm", 1), RegistryAction::BindShm(1));
    assert_eq!(data.on_global("wl_seat", 7), RegistryAction::Ignore);
    assert!(!is_state_inconsistent(&data));
}

#[test]
fn wrong_screencopy_version_stops_everything() {
    let mut data = fresh();
    assert_eq!(data.on_global("zwlr_screencopy_manager_v1", 2), RegistryAction::Halt);
    assert_eq!(
        data.event_error,
        Some(CaptureError::Object(WlObjectError::MismatchedWlrScreencopyVersion(2)))
    );
    assert!(is_state_inconsistent(&data));
    // Nothing is handled any more.
    assert_eq!(data.on_global("wl_output", 4), RegistryAction::Ignore);
    data.on_output_mode(true, 1920, 1080);
    assert_eq!((data.screen_width, data.screen_height), (0, 0));
    let event = ScreencopyFrameEvent::Buffer {
        format: WireFormat::Value(PixelFormat::Argb8888),
        width: 1,
        height: 1,
        stride: 4,
    };
    assert_eq!(data.on_frame_event(event), FrameAction::Idle);
    assert_eq!(data.buffer_config, None);
}

#[test]
fn output_mode_sets_the_screen_size() {
    let mut data = fresh();
    data.on_output_mode(false, 800, 600);
    assert_eq!((data.screen_width, data.screen_height), (0, 0));
    data.on_output_mode(true, 1920, 1080);
    assert_eq!((data.screen_width, data.screen_height), (1920, 1080));
    data.on_output_mode(true, 1280, 720);
    assert_eq!((data.screen_width, data.screen_height), (1280, 720));
}

#[test]
fn a_whole_frame() {
    let mut data = fresh();
    let event = ScreencopyFrameEvent::Buffer {
        format: WireFormat::Value(PixelFormat::Xrgb8888),
        width: 1920,
        height: 1080,
        stride: 7680,
    };
    assert_eq!(data.on_frame_event(event), FrameAction::Idle);
    let config = BufferConfig { format: PixelFormat::Xrgb8888, width: 1920, height: 1080, stride: 7680 };
    assert_eq!(data.buffer_config, Some(config));
    assert_eq!(data.on_frame_event(ScreencopyFrameEvent::Flags), FrameAction::Idle);
    assert_eq!(data.on_frame_event(ScreencopyFrameEvent::Damage), FrameAction::Idle);
    let request = BufferRequest {
        width: 1920,
        height: 1080,
        stride: 7680,
        format: PixelFormat::Xrgb8888,
        size: 7680 * 1080,
    };
    assert_eq!(
        data.on_frame_event(ScreencopyFrameEvent::BufferDone),
        FrameAction::CopyInto(BufferAction::Allocate(request))
    );
    let ready = ScreencopyFrameEvent::Ready { tv_sec_hi: 0, tv_sec_lo: 12, tv_nsec: 345 };
    assert_eq!(
        data.on_frame_event(ready),
        FrameAction::SendAndDestroy(FrameInfo {
            frame_stride: 7680,
            frame_width: 1920,
            frame_height: 1080,
            frame_format: PixelFormat::Xrgb8888,
            tv_sec_hi: 0,
            tv_sec_lo: 12,
            tv_nsec: 345,
        })
    );
    // The next frame of the same shape reuses the buffer.
    assert_eq!(
        data.on_frame_event(ScreencopyFrameEvent::BufferDone),
        FrameAction::CopyInto(BufferAction::Reuse)
    );
    assert_eq!(data.on_frame_event(ScreencopyFrameEvent::Failed), FrameAction::Destroy);
}

#[test]
fn unusable_formats_are_errors() {
    let mut data = fresh();
    let rgb = ScreencopyFrameEvent::Buffer { format: WireFormat::Value(PixelFormat::Rgb888), width: 1, height: 1, stride: 3 };
    assert_eq!(data.on_frame_event(rgb), FrameAction::Halt);
    assert_eq!(data.event_error, Some(CaptureError::Format(FormatError::UnsupportedFormat(PixelFormat::Rgb888))));

    let mut data = fresh();
    let odd = ScreencopyFrameEvent::Buffer { format: WireFormat::Unknown(0xdead), width: 1, height: 1, stride: 4 };
    assert_eq!(data.on_frame_event(odd), FrameAction::Halt);
    assert_eq!(data.event_error, Some(CaptureError::Format(FormatError::UndetectedFormat(0xdead))));
    assert_eq!(data.buffer_config, None);
}
