use std::sync::atomic::AtomicBool;
use std::sync::atomic::Ordering;
use vstd::prelude::*;

verus! {

/// Reads the process-wide halt flag that every worker polls.
///
/// The flag is shared between threads, so its value at the time of the read
/// depends on what the other threads did: nothing can be promised of it.
pub fn is_halt(flag: &AtomicBool) -> bool {
    flag.load(Ordering::Relaxed)
}

/// Raises the halt flag, asking every worker to wind down.
pub fn set_halt(flag: &AtomicBool) {
    flag.store(true, Ordering::Relaxed);
}

} // verus!
