//! Flags that several tasks share.

use std::sync::atomic::{AtomicBool, Ordering};
use std::sync::Arc;
use vstd::prelude::*;

verus! {

/// A flag that several tasks share. What it says at a moment is what the last
/// of them to set it has said, so nothing can be promised of one reading.
pub trait FlagAtomic {
    fn is_true(&self) -> bool;

    fn set_bool(&self, value: bool);
}

impl FlagAtomic for Arc<AtomicBool> {
    fn is_true(&self) -> bool {
        self.load(Ordering::Relaxed)
    }

    fn set_bool(&self, value: bool) {
        self.store(value, Ordering::Relaxed);
    }
}

} // verus!
