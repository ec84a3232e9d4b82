use screencap::pixel_format::{BufferConfig, PixelFormat, WireFormat};
use screencap::screencopy_probe::session::{BufferPlan, Data, ProbeGlobal};
use screencap::wl_capture::error::WlObjectError;

type Probe = Data<u8, u8, u8, u8, u8, u8>;

#[test]
fn probe_globals() {
    assert_eq!(Probe::on_global("zwlr_screencopy_manager_v1", 3), Some(ProbeGlobal::ScreencopyManager));
    assert_eq!(Probe::on_global("zwlr_screencopy_manager_v1", 2), None);
    assert_eq!(Probe::on_global("wl_output", 2), Some(ProbeGlobal::Output));
    assert_eq!(Probe::on_global("wl_shm", 1), Some(ProbeGlobal::Shm));
    assert_eq!(Probe::on_global("xdg_wm_base", 1), None);

    let mut probe = Probe::new();
    assert_eq!(probe.missing_global(), Some(WlObjectError::MissingWlrScreencopy));
    probe.zwlr_screencopy_manager = Some(1);
    assert_eq!(probe.missing_global(), Some(WlObjectError::MissingWlOutput));
    probe.wl_output = Some(2);
    assert_eq!(probe.missing_global(), Some(WlObjectError::MissingWlShm));
    probe.wl_shm = Some(3);
    assert_eq!(probe.missing_global(), None);
}

#[test]
fn probe_frame_cycle() {
    let mut probe = Probe::new();
    probe.on_buffer(WireFormat::Value(PixelFormat::Xbgr8888), 640, 480, 2560);
    assert_eq!(
        probe.result_config,
        Some(BufferConfig { format: PixelFormat::Xbgr8888, width: 640, height: 480, stride: 2560 })
    );
    let plan = probe.on_buffer_done();
    assert_eq!(
        plan,
        BufferPlan { pool_size: Some(2560 * 480), width: 640, height: 480, stride: 2560, format: PixelFormat::Xbgr8888 }
    );
    probe.wl_shm_pool = Some(9);
    assert_eq!(probe.on_buffer_done().pool_size, None);

    probe.result_buffer = Some(7);
    assert_eq!(probe.on_buffer_release(), 7);
    assert_eq!(probe.result_buffer, None);

    probe.zwlr_screencopy_frame = Some(5);
    assert_eq!(probe.finish_frame(), 5);
    assert_eq!(probe.zwlr_screencopy_frame, None);
}
