use crate::pixel_format::PixelFormat;
use vstd::prelude::*;

verus! {

/// What is known of a buffer that a slot of the pool holds: its pixel
/// format and its size in bytes.
#[derive(Clone, Copy, Debug, PartialEq, Eq, Structural)]
pub struct BufferSlot {
    pub format: PixelFormat,
    pub size: i32,
}

/// The shape of a shared-memory buffer to create.
#[derive(Clone, Copy, Debug, PartialEq, Eq, Structural)]
pub struct BufferRequest {
    pub width: i32,
    pub height: i32,
    pub stride: i32,
    pub format: PixelFormat,
    pub size: i32,
}

/// What has to happen to the current slot before its buffer can be handed
/// out.
#[derive(Clone, Copy, Debug, PartialEq, Eq, Structural)]
pub enum BufferAction {
    /// The slot already holds a buffer of the right format and size.
    Reuse,
    /// The slot is empty: create a buffer of this shape in it.
    Allocate(BufferRequest),
    /// The slot holds a buffer of another format or size: destroy it and
    /// create one of this shape in its place.
    Reallocate(BufferRequest),
}

/// A ring of shared-memory buffers that captured frames are copied into.
///
/// `size` is the number of buffers the pool may hold, `dirty_size` the
/// number of them still held by readers, and `current_ptr` the slot that
/// the next frame goes to.
pub struct BufferPool {
    pub buffer_pool: Vec<Option<BufferSlot>>,
    pub size: usize,
    pub dirty_size: usize,
    pub current_ptr: usize,
}

/// What a request for a buffer of the given format and byte size asks of a
/// slot in the given state.
pub open spec fn planned_action(slot: Option<BufferSlot>, request: BufferRequest) -> BufferAction {
    match slot {
        None => BufferAction::Allocate(request),
        Some(buffer) => if buffer.format != request.format || buffer.size != request.size {
            BufferAction::Reallocate(request)
        } else {
            BufferAction::Reuse
        },
    }
}

/// The request for a buffer of the given shape; its size is a whole number
/// of rows.
pub open spec fn request_of(width: i32, height: i32, stride: i32, format: PixelFormat) -> BufferRequest {
    BufferRequest { width, height, stride, format, size: (stride * height) as i32 }
}

impl BufferPool {
    /// An empty pool meant for `size` buffers.
    pub fn new(size: usize) -> (pool: BufferPool)
        ensures
            pool.buffer_pool@ == Seq::<Option<BufferSlot>>::empty(),
            pool.size == size,
            pool.dirty_size == 0,
            pool.current_ptr == 0,
    {
        let pool = Vec::with_capacity(size);

        BufferPool { buffer_pool: pool, size, dirty_size: 0, current_ptr: 0 }
    }

    /// Whether a buffer can be handed out: not all of them are held.
    pub fn has_free_buffer(&self) -> (free: bool)
        ensures
            free == (self.dirty_size != self.size),
    {
        self.dirty_size != self.size
    }

    /// Marks `amount` held buffers as given back.
    pub fn bump_unavailable(&mut self, amount: usize)
        requires
            amount <= old(self).dirty_size,
        ensures
            final(self).dirty_size == old(self).dirty_size - amount,
            final(self).buffer_pool@ == old(self).buffer_pool@,
            final(self).size == old(self).size,
            final(self).current_ptr == old(self).current_ptr,
    {
        self.dirty_size -= amount;
    }

    /// Prepares the current slot for a frame of the given shape.
    ///
    /// Fails when every buffer is held. Otherwise the current slot is
    /// recorded as holding a buffer of the requested format and size, and
    /// the result says whether that buffer already exists, must be created,
    /// or must replace the one the slot held.
    pub fn get_buffer(&mut self, width: i32, height: i32, stride: i32, format: PixelFormat) -> (action: Result<BufferAction, ()>)
        requires
            old(self).dirty_size != old(self).size ==> {
                &&& old(self).current_ptr < old(self).buffer_pool@.len()
                &&& i32::MIN <= stride * height <= i32::MAX
            },
        ensures
            action is Err <==> old(self).dirty_size == old(self).size,
            action == Ok::<BufferAction, ()>(BufferAction::Reuse) <==> {
                &&& old(self).dirty_size != old(self).size
                &&& old(self).buffer_pool@[old(self).current_ptr as int] == Some(
                    BufferSlot { format, size: request_of(width, height, stride, format).size },
                )
            },
            action is Err ==> *final(self) == *old(self),
            action matches Ok(a) ==> {
                let request = request_of(width, height, stride, format);
                &&& a == planned_action(old(self).buffer_pool@[old(self).current_ptr as int], request)
                &&& final(self).buffer_pool@ == old(self).buffer_pool@.update(
                    old(self).current_ptr as int,
                    Some(BufferSlot { format, size: request.size }),
                )
                &&& final(self).size == old(self).size
                &&& final(self).dirty_size == old(self).dirty_size
                &&& final(self).current_ptr == old(self).current_ptr
            },
    {
        if !self.has_free_buffer() {
            return Err(());
        }

        let size = stride * height;
        let request = BufferRequest { width, height, stride, format, size };
        let action = match self.buffer_pool[self.current_ptr] {
            None => BufferAction::Allocate(request),
            Some(buffer) => {
                if buffer.format != format || buffer.size != size {
                    BufferAction::Reallocate(request)
                } else {
                    BufferAction::Reuse
                }
            },
        };
        self.buffer_pool.set(self.current_ptr, Some(BufferSlot { format, size }));

        Ok(action)
    }
}

/// Asking twice in a row for a buffer of the same shape, from the same slot,
/// finds the buffer in place the second time and leaves the slots as the
/// first request left them.
pub proof fn lemma_repeated_request_reuses(
    slots: Seq<Option<BufferSlot>>,
    current: int,
    width: i32,
    height: i32,
    stride: i32,
    format: PixelFormat,
)
    requires
        0 <= current < slots.len(),
    ensures
        ({
            let request = request_of(width, height, stride, format);
            let recorded = Some(BufferSlot { format, size: request.size });
            let after_first = slots.update(current, recorded);
            &&& planned_action(after_first[current], request) == BufferAction::Reuse
            &&& after_first.update(current, recorded) == after_first
        }),
{
    let request = request_of(width, height, stride, format);
    let recorded = Some(BufferSlot { format, size: request.size });
    let after_first = slots.update(current, recorded);
    assert(after_first.update(current, recorded) =~= after_first);
}

/// A slot's buffer is reused exactly when it already has the requested
/// format and byte size. An empty slot gets a new buffer, and a buffer of
/// another format, or of any other size, larger or smaller, is replaced by
/// one of the requested shape.
pub proof fn lemma_reuse_only_exact(slot: Option<BufferSlot>, request: BufferRequest)
    ensures
        planned_action(slot, request) == BufferAction::Reuse <==> slot == Some(
            BufferSlot { format: request.format, size: request.size },
        ),
        slot is None ==> planned_action(slot, request) == BufferAction::Allocate(request),
        slot matches Some(buffer) ==> (buffer.format != request.format || buffer.size != request.size)
            ==> planned_action(slot, request) == BufferAction::Reallocate(request),
{
}

} // verus!
