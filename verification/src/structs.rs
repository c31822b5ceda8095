//! Plain values that cross the system boundary as they are.

use vstd::prelude::*;

verus! {

/// A position, in pixels.
#[derive(Clone, Copy, Debug, PartialEq, Eq, Structural)]
pub struct POINT {
    pub x: i32,
    pub y: i32,
}

impl POINT {
    pub fn new(x: i32, y: i32) -> (r: POINT)
        ensures
            r.x == x,
            r.y == y,
    {
        POINT { x, y }
    }
}

/// An extent, in pixels.
#[derive(Clone, Copy, Debug, PartialEq, Eq, Structural)]
pub struct SIZE {
    pub cx: i32,
    pub cy: i32,
}

impl SIZE {
    pub fn new(cx: i32, cy: i32) -> (r: SIZE)
        ensures
            r.cx == cx,
            r.cy == cy,
    {
        SIZE { cx, cy }
    }
}

/// A globally unique identifier, in the five groups in which it is
/// written; the last group has 48 bits.
#[derive(Clone, Copy, Debug, PartialEq, Eq, Structural)]
pub struct GUID {
    pub data1: u32,
    pub data2: u16,
    pub data3: u16,
    pub data4: u16,
    pub data5: u64,
}

impl GUID {
    pub fn new(data1: u32, data2: u16, data3: u16, data4: u16, data5: u64) -> (r: GUID)
        ensures
            r == (GUID { data1, data2, data3, data4, data5 }),
    {
        GUID { data1, data2, data3, data4, data5 }
    }
}

} // verus!
