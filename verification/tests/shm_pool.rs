use screencap::pixel_format::PixelFormat;
use screencap::wl_capture::shm_pool::{BufferAction, BufferPool, BufferRequest, BufferSlot};

fn pool_with_slots(size: usize) -> BufferPool {
    let mut pool = BufferPool::new(size);
    pool.buffer_pool = vec![None; size];
    pool
}

#[test]
fn new_pool_is_empty() {
    let pool = BufferPool::new(8);
    assert!(pool.buffer_pool.is_empty());
    assert_eq!((pool.size, pool.dirty_size, pool.current_ptr), (8, 0, 0));
    assert!(pool.has_free_buffer());
}

#[test]
fn full_pool_refuses() {
    let mut pool = pool_with_slots(2);
    pool.dirty_size = 2;
    assert!(!pool.has_free_buffer());
    assert_eq!(pool.get_buffer(10, 10, 40, PixelFormat::Argb8888), Err(()));
    assert_eq!(pool.buffer_pool, vec![None, None]);
    pool.bump_unavailable(1);
    assert_eq!(pool.dirty_size, 1);
    assert!(pool.has_free_buffer());
}

#[test]
fn allocate_reuse_reallocate() {
    let mut pool = pool_with_slots(2);
    let request = BufferRequest { width: 10, height: 20, stride: 40, format: PixelFormat::Xrgb8888, size: 800 };
    assert_eq!(pool.get_buffer(10, 20, 40, PixelFormat::Xrgb8888), Ok(BufferAction::Allocate(request)));
    assert_eq!(pool.buffer_pool[0], Some(BufferSlot { format: PixelFormat::Xrgb8888, size: 800 }));
    assert_eq!(pool.get_buffer(10, 20, 40, PixelFormat::Xrgb8888), Ok(BufferAction::Reuse));
    // Another format of the same size.
    let argb = BufferRequest { format: PixelFormat::Argb8888, ..request };
    assert_eq!(pool.get_buffer(10, 20, 40, PixelFormat::Argb8888), Ok(BufferAction::Reallocate(argb)));
    // Another size of the same format.
    let taller = BufferRequest { height: 21, size: 840, ..argb };
    assert_eq!(pool.get_buffer(10, 21, 40, PixelFormat::Argb8888), Ok(BufferAction::Reallocate(taller)));
    assert_eq!(pool.buffer_pool[1], None);
    assert_eq!(pool.dirty_size, 0);
}
