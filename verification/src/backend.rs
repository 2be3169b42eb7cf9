//! What the backend says of itself.

use vstd::prelude::*;

verus! {

/// This backend brings no widgets of a native style.
pub const HAS_NATIVE_STYLE: bool = false;

/// This backend can always be used.
pub const IS_AVAILABLE: bool = true;

/// The backend: the entry point through which windows are made and the
/// event loop is run. It holds no state of its own.
#[derive(Clone, Copy, Debug, PartialEq, Eq, Structural)]
pub struct Backend;

} // verus!
