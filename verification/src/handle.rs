//! Opaque handles to host-managed objects.

use vstd::prelude::*;

verus! {

/// An opaque, host-assigned 32-bit identifier for an object living in host
/// memory (a buffer, shader, or program).  The native side never looks
/// inside it; it is only handed back to the host on later calls.  The
/// reserved value 0 stands for "no object".
///
/// The view of a handle is the raw 32-bit value that crosses the boundary.
#[derive(Clone, Copy, PartialEq, Eq, Structural, Debug)]
pub struct JSObject(u32);

impl View for JSObject {
    type V = u32;

    closed spec fn view(&self) -> u32 {
        self.0
    }
}

impl JSObject {
    /// The reserved null handle, meaning "no object".
    pub fn null() -> (h: Self)
        ensures
            h@ == 0,
    {
        JSObject(0)
    }

    /// Wraps a raw identifier received from the host.
    pub fn from_raw(value: u32) -> (h: Self)
        ensures
            h@ == value,
    {
        JSObject(value)
    }

    /// The raw 32-bit value passed back across the boundary.
    pub fn raw(self) -> (value: u32)
        ensures
            value == self@,
    {
        self.0
    }

    /// Whether this is the reserved null handle.
    pub fn is_null(self) -> (b: bool)
        ensures
            b == (self@ == 0),
    {
        self.0 == 0
    }
}

} // verus!
