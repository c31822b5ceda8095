//! Deferred window positions: a structure in which the new positions of
//! several windows are collected, to be applied in one go.

use vstd::prelude::*;
use crate::co::{ERROR, HWND_PLACE, SWP};
use crate::handles::{Handle, HWND};
use crate::structs::{POINT, SIZE};
use crate::sys::{Request, RequestView};

verus! {

/// Handle to a deferred window position structure.
#[derive(Clone, Copy, Debug, PartialEq, Eq, Structural)]
pub struct HDWP(pub usize);

impl Handle for HDWP {
    open spec fn ptr_spec(&self) -> usize {
        self.0
    }

    fn from_ptr(p: usize) -> (r: Self) {
        HDWP(p)
    }

    fn as_ptr(&self) -> (r: usize) {
        self.0
    }
}

impl user_Hdwp for HDWP {

}

/// Where in the Z order a window is to be put: behind a given window, at a
/// named place, or where it is.
#[derive(Clone, Copy, Debug, PartialEq, Eq, Structural)]
pub enum HwndPlace {
    Hwnd(HWND),
    Place(HWND_PLACE),
    Unchanged,
}

impl HwndPlace {
    /// The machine word that stands for the place in a call: the window's
    /// handle, the named place's number, or zero.
    pub open spec fn spec_as_ptr(self) -> usize {
        match self {
            HwndPlace::Hwnd(hwnd) => hwnd.0,
            HwndPlace::Place(place) => place.0 as usize,
            HwndPlace::Unchanged => 0,
        }
    }

    pub fn as_ptr(&self) -> (r: usize)
        ensures
            r == self.spec_as_ptr(),
    {
        match self {
            HwndPlace::Hwnd(hwnd) => hwnd.0,
            HwndPlace::Place(place) => #[verifier::truncate] (place.0 as usize),
            HwndPlace::Unchanged => 0,
        }
    }
}

/// Owner of a deferred window position structure: when it is given up, the
/// collected positions are applied and the structure is freed.
#[derive(Debug, PartialEq, Eq)]
pub struct HdwpGuard {
    pub handle: HDWP,
}

impl HdwpGuard {
    /// Gives the structure up. Says what to ask of the system for it:
    /// nothing where the handle is null or invalid, else to apply the
    /// positions.
    pub fn end(self) -> (r: Option<Request>)
        ensures
            (self.handle.0 == 0 || self.handle.0 == usize::MAX) ==> r is None,
            !(self.handle.0 == 0 || self.handle.0 == usize::MAX) ==> r is Some && r->Some_0@ == (
            RequestView::EndDeferWindowPos { hdwp: self.handle.0 }),
    {
        if self.handle.0 == 0 || self.handle.0 == usize::MAX {
            None
        } else {
            Some(Request::EndDeferWindowPos { hdwp: self.handle.0 })
        }
    }

    /// Gives the handle out and the ownership up: nothing will be asked of
    /// the system for it.
    pub fn leak(self) -> (r: HDWP)
        ensures
            r == self.handle,
    {
        self.handle
    }
}

/// The methods of [`HDWP`].
pub trait user_Hdwp: Handle {
    /// The request for a new structure with room for `num_windows` windows.
    fn BeginDeferWindowPos(num_windows: u32) -> (r: Request)
        ensures
            r@ == (RequestView::BeginDeferWindowPos { num_windows: num_windows as i32 }),
    {
        Request::BeginDeferWindowPos { num_windows: #[verifier::truncate] (num_windows as i32) }
    }

    /// Reads the answer to [`user_Hdwp::BeginDeferWindowPos`]: the owner of
    /// the structure that the system returned, or, where it returned null,
    /// the system's error.
    fn BeginDeferWindowPos_ret(ret: usize, last_error: ERROR) -> (r: Result<HdwpGuard, ERROR>)
        ensures
            ret != 0 ==> r is Ok && r->Ok_0.handle == HDWP(ret),
            ret == 0 ==> r == Err::<HdwpGuard, ERROR>(last_error),
    {
        if ret != 0 {
            Ok(HdwpGuard { handle: HDWP(ret) })
        } else {
            Err(last_error)
        }
    }

    /// The request to add to the structure the window `hwnd`, to be put at
    /// `top_left` with the extent `sz`, at the given place in the Z order.
    fn DeferWindowPos(
        &self,
        hwnd: &HWND,
        hwnd_insert_after: HwndPlace,
        top_left: POINT,
        sz: SIZE,
        flags: SWP,
    ) -> (r: Request)
        ensures
            r@ == (RequestView::DeferWindowPos {
                hdwp: self.ptr_spec(),
                hwnd: *hwnd,
                hwnd_insert_after: hwnd_insert_after.spec_as_ptr(),
                x: top_left.x,
                y: top_left.y,
                cx: sz.cx,
                cy: sz.cy,
                flags: flags.0,
            }),
    {
        Request::DeferWindowPos {
            hdwp: self.as_ptr(),
            hwnd: *hwnd,
            hwnd_insert_after: hwnd_insert_after.as_ptr(),
            x: top_left.x,
            y: top_left.y,
            cx: sz.cx,
            cy: sz.cy,
            flags: flags.0,
        }
    }

    /// Reads the answer to [`user_Hdwp::DeferWindowPos`].
    ///
    /// The system returns the structure's handle after the call, which may
    /// be another than before: the handle takes that value. Where the system
    /// returned null, the structure is lost: the handle becomes invalid, so
    /// that nothing more is asked for it, and the system's error is
    /// returned.
    fn DeferWindowPos_ret(&mut self, ret: usize, last_error: ERROR) -> (r: Result<(), ERROR>)
        ensures
            ret != 0 ==> final(self).ptr_spec() == ret && r == Ok::<(), ERROR>(()),
            ret == 0 ==> final(self).ptr_spec() == usize::MAX && r == Err::<(), ERROR>(
                last_error,
            ),
    {
        if ret != 0 {
            *self = Self::from_ptr(ret);
            Ok(())
        } else {
            *self = Self::invalid();
            Err(last_error)
        }
    }
}

} // verus!
