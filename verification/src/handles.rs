//! Plain-value stand-ins for the platform's window and icon handles.
use vstd::prelude::*;

verus! {

/// A window handle, held as the integer value of the platform handle.
#[derive(Clone, Copy, Debug, PartialEq, Eq, Structural)]
pub struct Hwnd(pub isize);

/// An icon handle, held as the integer value of the platform handle.
#[derive(Clone, Copy, Debug, PartialEq, Eq, Structural)]
pub struct Hicon(pub isize);

} // verus!
