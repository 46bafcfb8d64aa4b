//! A platform window-shell core: it binds a native toolkit's event loop to a
//! toolkit-independent application callback interface.  The native side is
//! driven from outside; this crate holds the verified logic: input
//! translation, the timer registry, the idle queue, window lifetime tracked
//! through weak handles, and coordinate scaling.

use vstd::prelude::*;

pub mod idle;
pub mod input;
pub mod keys;
pub mod scale;
pub mod timer;
pub mod window;

verus! {

/// Errors surfaced to callers of the shell.
#[derive(Clone, Copy, Debug, PartialEq, Eq, Structural)]
pub enum Error {
    /// A window was built without an application callback object.
    NoHandler,
    /// The window behind a handle is gone; the operation has no target.
    Null,
}

} // verus!
