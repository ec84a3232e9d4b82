use crate::wl_capture::dispatch::ApplicationState;
use crate::wl_capture::shm_pool::{planned_action, request_of, BufferAction, BufferPool, BufferSlot};
use vstd::prelude::*;

verus! {

/// The capture loop asks for a new frame when none is in flight and the
/// pool has a buffer to copy it into.
pub fn needs_new_frame<Output, Shm, SourceManager, CopyManager, Frame, Session>(
    application_state: &ApplicationState<Output, Shm, SourceManager, CopyManager, Frame, Session>,
    buffer_pool: &BufferPool,
) -> (needed: bool)
    ensures
        needed == (application_state.copy_capture_frame is None && buffer_pool.dirty_size != buffer_pool.size),
{
    application_state.copy_capture_frame.is_none() && buffer_pool.has_free_buffer()
}

/// The row stride of a capture buffer: four bytes per pixel.
pub open spec fn capture_stride(width: u32) -> int {
    (width as i32) * 4
}

/// Prepares a buffer for a new frame of the announced size and format.
///
/// The session, the shared-memory global and the announced size and format
/// must all be there, and the pool must have a buffer free. The current
/// slot of the pool is prepared for a buffer four bytes per pixel wide; the
/// result says what has to happen to that slot before the frame is copied
/// into it.
pub fn start_capture_frame<Output, Shm, SourceManager, CopyManager, Frame, Session>(
    application_state: &ApplicationState<Output, Shm, SourceManager, CopyManager, Frame, Session>,
    buffer_pool: &mut BufferPool,
) -> (action: BufferAction)
    requires
        application_state.copy_capture_session is Some,
        application_state.wl_shm is Some,
        application_state.buffer_width matches Some(width) && i32::MIN <= capture_stride(width) <= i32::MAX,
        application_state.buffer_height is Some,
        application_state.buffer_type is Some,
        old(buffer_pool).dirty_size != old(buffer_pool).size,
        old(buffer_pool).current_ptr < old(buffer_pool).buffer_pool@.len(),
        i32::MIN <= capture_stride(application_state.buffer_width.unwrap()) * (application_state.buffer_height.unwrap() as i32) <= i32::MAX,
    ensures
        ({
            let width = application_state.buffer_width.unwrap();
            let height = application_state.buffer_height.unwrap();
            let format = application_state.buffer_type.unwrap();
            let request = request_of(width as i32, height as i32, capture_stride(width) as i32, format);
            let pool = *old(buffer_pool);
            &&& action == planned_action(pool.buffer_pool@[pool.current_ptr as int], request)
            &&& final(buffer_pool).buffer_pool@ == pool.buffer_pool@.update(
                pool.current_ptr as int,
                Some(BufferSlot { format, size: request.size }),
            )
            &&& final(buffer_pool).size == pool.size
            &&& final(buffer_pool).dirty_size == pool.dirty_size
            &&& final(buffer_pool).current_ptr == pool.current_ptr
        }),
{
    let buffer_width = application_state.buffer_width.unwrap() as i32;
    let buffer_height = application_state.buffer_height.unwrap() as i32;
    let buffer_format = application_state.buffer_type.unwrap();
    let buffer_stride = buffer_width * 4;

    buffer_pool.get_buffer(buffer_width, buffer_height, buffer_stride, buffer_format).unwrap()
}

} // verus!
