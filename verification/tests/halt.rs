use screencap::halt::{is_halt, set_halt};
use std::sync::atomic::AtomicBool;

#[test]
fn halting_is_seen() {
    let flag = AtomicBool::new(false);
    assert!(!is_halt(&flag));
    set_halt(&flag);
    assert!(is_halt(&flag));
    set_halt(&flag);
    assert!(is_halt(&flag));
}
