//! Handles: the opaque values by which the system names its resources. Here a
//! handle is the plain machine word; zero names nothing.

use vstd::prelude::*;

verus! {

/// What every handle type offers.
pub trait Handle: Sized {
    /// The machine word behind the handle.
    spec fn ptr_spec(&self) -> usize;

    /// The handle made of a machine word.
    fn from_ptr(p: usize) -> (r: Self)
        ensures
            r.ptr_spec() == p,
    ;

    /// The machine word behind the handle.
    fn as_ptr(&self) -> (r: usize)
        ensures
            r == self.ptr_spec(),
    ;

    /// The handle that names nothing.
    fn null() -> (r: Self)
        ensures
            r.ptr_spec() == 0,
    {
        Self::from_ptr(0)
    }

    /// The handle that marks a failed or finished resource: all bits set.
    fn invalid() -> (r: Self)
        ensures
            r.ptr_spec() == usize::MAX,
    {
        Self::from_ptr(usize::MAX)
    }

    /// Whether the handle names nothing.
    fn is_null(&self) -> (r: bool)
        ensures
            r == (self.ptr_spec() == 0),
    {
        self.as_ptr() == 0
    }
}

/// Handle to a window.
#[derive(Clone, Copy, Debug, PartialEq, Eq, Structural)]
pub struct HWND(pub usize);

impl Handle for HWND {
    open spec fn ptr_spec(&self) -> usize {
        self.0
    }

    fn from_ptr(p: usize) -> (r: Self) {
        HWND(p)
    }

    fn as_ptr(&self) -> (r: usize) {
        self.0
    }
}

/// Handle to a loaded module.
#[derive(Clone, Copy, Debug, PartialEq, Eq, Structural)]
pub struct HINSTANCE(pub usize);

impl Handle for HINSTANCE {
    open spec fn ptr_spec(&self) -> usize {
        self.0
    }

    fn from_ptr(p: usize) -> (r: Self) {
        HINSTANCE(p)
    }

    fn as_ptr(&self) -> (r: usize) {
        self.0
    }
}

/// Handle to an icon.
#[derive(Clone, Copy, Debug, PartialEq, Eq, Structural)]
pub struct HICON(pub usize);

impl Handle for HICON {
    open spec fn ptr_spec(&self) -> usize {
        self.0
    }

    fn from_ptr(p: usize) -> (r: Self) {
        HICON(p)
    }

    fn as_ptr(&self) -> (r: usize) {
        self.0
    }
}

/// Handle to a font.
#[derive(Clone, Copy, Debug, PartialEq, Eq, Structural)]
pub struct HFONT(pub usize);

impl Handle for HFONT {
    open spec fn ptr_spec(&self) -> usize {
        self.0
    }

    fn from_ptr(p: usize) -> (r: Self) {
        HFONT(p)
    }

    fn as_ptr(&self) -> (r: usize) {
        self.0
    }
}

/// Handle to a table of keyboard accelerators.
#[derive(Clone, Copy, Debug, PartialEq, Eq, Structural)]
pub struct HACCEL(pub usize);

impl Handle for HACCEL {
    open spec fn ptr_spec(&self) -> usize {
        self.0
    }

    fn from_ptr(p: usize) -> (r: Self) {
        HACCEL(p)
    }

    fn as_ptr(&self) -> (r: usize) {
        self.0
    }
}

} // verus!
