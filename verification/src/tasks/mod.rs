//! The tasks that the two cores run.

use vstd::prelude::*;

pub mod i2c_task;
pub mod led_task;
pub mod usb_task;

verus! {

/// Words of stack that the second core gets for the task it runs.
pub const SECOND_CORE_STACK_WORDS: usize = 4096;

/// A unit of work that a core's run loop invokes over and over.
///
/// One invocation does what is due at that moment and returns; it never
/// waits.
pub trait Task {
    fn run(&mut self);
}

} // verus!
