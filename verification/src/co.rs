//! Constant types of the window system: each is a thin, typed wrapper over the
//! raw integer that crosses the system boundary.

use vstd::prelude::*;

verus! {

/// Window styles (`WS_*`).
#[derive(Clone, Copy, Debug, PartialEq, Eq, Structural)]
pub struct WS(pub u32);

impl WS {
    pub const GROUP: u32 = 0x0002_0000;
    pub const TABSTOP: u32 = 0x0001_0000;
    pub const VISIBLE: u32 = 0x1000_0000;
    pub const CHILD: u32 = 0x4000_0000;

    /// The styles of `self` together with those of `other`.
    pub fn or(self, other: WS) -> (r: WS)
        ensures
            r.0 == self.0 | other.0,
    {
        WS(self.0 | other.0)
    }
}

/// Extended window styles (`WS_EX_*`).
#[derive(Clone, Copy, Debug, PartialEq, Eq, Structural)]
pub struct WS_EX(pub u32);

impl WS_EX {
    pub const LEFT: u32 = 0;
    pub const CLIENTEDGE: u32 = 0x0000_0200;
}

/// Button styles (`BS_*`), the low bits of a button's window style.
#[derive(Clone, Copy, Debug, PartialEq, Eq, Structural)]
pub struct BS(pub u32);

impl BS {
    pub const RADIOBUTTON: u32 = 0x0004;
    pub const AUTORADIOBUTTON: u32 = 0x0009;

    /// The same bits, read as window styles.
    pub fn into_ws(self) -> (r: WS)
        ensures
            r.0 == self.0,
    {
        WS(self.0)
    }
}

/// Check states of a button (`BST_*`).
#[derive(Clone, Copy, Debug, PartialEq, Eq, Structural)]
pub struct BST(pub u32);

impl BST {
    pub const UNCHECKED: u32 = 0;
    pub const CHECKED: u32 = 1;
    pub const INDETERMINATE: u32 = 2;
}

/// Show commands of a window (`SW_*`).
#[derive(Clone, Copy, Debug, PartialEq, Eq, Structural)]
pub struct SW(pub i32);

impl SW {
    pub const HIDE: i32 = 0;
    pub const SHOWNORMAL: i32 = 1;
    pub const SHOWMINIMIZED: i32 = 2;
    pub const SHOWMAXIMIZED: i32 = 3;
    pub const SHOW: i32 = 5;
}

/// Which of a window's two icons a `WM_SETICON` speaks of.
#[derive(Clone, Copy, Debug, PartialEq, Eq, Structural)]
pub struct ICON_SZ(pub u8);

impl ICON_SZ {
    pub const SMALL: u8 = 0;
    pub const BIG: u8 = 1;
}

/// Load options of an image (`LR_*`).
#[derive(Clone, Copy, Debug, PartialEq, Eq, Structural)]
pub struct LR(pub u32);

impl LR {
    pub const DEFAULTCOLOR: u32 = 0;
}

/// Options of a change of position (`SWP_*`).
#[derive(Clone, Copy, Debug, PartialEq, Eq, Structural)]
pub struct SWP(pub u32);

impl SWP {
    pub const NOSIZE: u32 = 0x0001;
    pub const NOMOVE: u32 = 0x0002;
    pub const NOZORDER: u32 = 0x0004;
}

/// Places in the Z order that stand where a window handle is expected.
#[derive(Clone, Copy, Debug, PartialEq, Eq, Structural)]
pub struct HWND_PLACE(pub isize);

impl HWND_PLACE {
    pub const TOP: isize = 0;
    pub const BOTTOM: isize = 1;
    pub const TOPMOST: isize = -1;
    pub const NOTOPMOST: isize = -2;
}

/// Window message identifiers (`WM_*`, and the `BM_*` of buttons).
#[derive(Clone, Copy, Debug, PartialEq, Eq, Structural)]
pub struct WM(pub u32);

impl WM {
    pub const CLOSE: u32 = 0x0010;
    pub const SETFONT: u32 = 0x0030;
    pub const SETICON: u32 = 0x0080;
    pub const NCDESTROY: u32 = 0x0082;
    pub const BM_GETCHECK: u32 = 0x00f0;
    pub const BM_SETCHECK: u32 = 0x00f1;
    pub const BM_CLICK: u32 = 0x00f5;
    pub const BM_SETDONTCLICK: u32 = 0x00f8;
}

/// Notification codes that a button sends to its parent (`BN_*`).
#[derive(Clone, Copy, Debug, PartialEq, Eq, Structural)]
pub struct BN(pub u16);

impl BN {
    pub const CLICKED: u16 = 0;
    pub const DBLCLK: u16 = 5;
    pub const SETFOCUS: u16 = 6;
    pub const KILLFOCUS: u16 = 7;
}

/// How a position given to a media stream is meant.
#[derive(Clone, Copy, Debug, PartialEq, Eq, Structural)]
pub struct SEEKING_FLAGS(pub u32);

impl SEEKING_FLAGS {
    pub const NoPositioning: u32 = 0x0;
    pub const AbsolutePositioning: u32 = 0x1;
    pub const RelativePositioning: u32 = 0x2;
    pub const IncrementalPositioning: u32 = 0x3;
    pub const SeekToKeyFrame: u32 = 0x4;
    pub const ReturnTime: u32 = 0x8;
    pub const Segment: u32 = 0x10;
    pub const NoFlush: u32 = 0x20;
}

/// A system error code, as `GetLastError` gives it.
#[derive(Clone, Copy, Debug, PartialEq, Eq, Structural)]
pub struct ERROR(pub u32);

impl ERROR {
    pub const SUCCESS: u32 = 0;
    pub const S_FALSE: u32 = 1;
    pub const INVALID_HANDLE: u32 = 6;
}

/// The status that a method of a COM interface returns.
#[derive(Clone, Copy, Debug, PartialEq, Eq, Structural)]
pub struct HRESULT(pub u32);

impl HRESULT {
    pub const S_OK: u32 = 0;
    pub const S_FALSE: u32 = 1;
    pub const E_NOTIMPL: u32 = 0x8000_4001;
    pub const E_FAIL: u32 = 0x8000_4005;
}

} // verus!
