use std::mem::size_of;
use theseus_libc::{fpos_t, FILE};

fn duplicates<T: Copy + Clone>(held: Option<&T>) -> (Option<T>, Option<T>) {
    (held.copied(), held.cloned())
}

#[test]
fn handles_can_be_duplicated() {
    let (copied, cloned) = duplicates::<FILE>(None);
    assert!(copied.is_none());
    assert!(cloned.is_none());
    let (copied, cloned) = duplicates::<fpos_t>(None);
    assert!(copied.is_none());
    assert!(cloned.is_none());
}

#[test]
fn handles_carry_no_state() {
    assert_eq!(size_of::<FILE>(), 0);
    assert_eq!(size_of::<fpos_t>(), 0);
}

#[test]
fn handles_are_never_built() {
    // With no value of the type, the empty case is the only case, and the
    // compiler gives it no room of its own.
    assert_eq!(size_of::<Option<FILE>>(), 0);
    assert_eq!(size_of::<Option<fpos_t>>(), 0);
    let none: Vec<FILE> = Vec::new();
    let kept: Vec<FILE> = none.iter().map(|handle| handle.clone()).collect();
    assert!(kept.is_empty());
    let none: Vec<fpos_t> = Vec::new();
    let kept: Vec<fpos_t> = none.iter().map(|handle| handle.clone()).collect();
    assert!(kept.is_empty());
}
