//! Window messages: what each one looks like on its way to a window
//! procedure, and what the value that comes back means.

use vstd::prelude::*;
use crate::co::{BST, ICON_SZ, WM};
use crate::handles::{HFONT, HICON};

verus! {

/// A message in the form in which every window procedure takes it.
#[derive(Clone, Copy, Debug, PartialEq, Eq, Structural)]
pub struct WndMsg {
    pub msg_id: WM,
    pub wparam: usize,
    pub lparam: isize,
}

/// Asks a button for its check state.
#[derive(Clone, Copy, Debug, PartialEq, Eq, Structural)]
pub struct BmGetCheck {}

impl BmGetCheck {
    pub open spec fn wm(self) -> WndMsg {
        WndMsg { msg_id: WM(WM::BM_GETCHECK), wparam: 0, lparam: 0 }
    }

    pub fn as_generic_wm(&self) -> (r: WndMsg)
        ensures
            r == self.wm(),
    {
        WndMsg { msg_id: WM(WM::BM_GETCHECK), wparam: 0, lparam: 0 }
    }

    /// The check state that the answer `v` stands for: its low 32 bits.
    pub fn convert_ret(&self, v: isize) -> (r: BST)
        ensures
            r == BST(v as u32),
    {
        BST(#[verifier::truncate] (v as u32))
    }
}

/// Sets the check state of a button.
#[derive(Clone, Copy, Debug, PartialEq, Eq, Structural)]
pub struct BmSetCheck {
    pub state: BST,
}

impl BmSetCheck {
    pub open spec fn wm(self) -> WndMsg {
        WndMsg { msg_id: WM(WM::BM_SETCHECK), wparam: self.state.0 as usize, lparam: 0 }
    }

    pub fn as_generic_wm(&self) -> (r: WndMsg)
        ensures
            r == self.wm(),
    {
        WndMsg { msg_id: WM(WM::BM_SETCHECK), wparam: self.state.0 as usize, lparam: 0 }
    }
}

/// Simulates a click on a button.
#[derive(Clone, Copy, Debug, PartialEq, Eq, Structural)]
pub struct BmClick {}

impl BmClick {
    pub open spec fn wm(self) -> WndMsg {
        WndMsg { msg_id: WM(WM::BM_CLICK), wparam: 0, lparam: 0 }
    }

    pub fn as_generic_wm(&self) -> (r: WndMsg)
        ensures
            r == self.wm(),
    {
        WndMsg { msg_id: WM(WM::BM_CLICK), wparam: 0, lparam: 0 }
    }
}

/// Tells a radio button whether to leave its state alone when it gains the
/// focus.
#[derive(Clone, Copy, Debug, PartialEq, Eq, Structural)]
pub struct BmSetDontClick {
    pub dont_click: bool,
}

impl BmSetDontClick {
    pub open spec fn wm(self) -> WndMsg {
        WndMsg {
            msg_id: WM(WM::BM_SETDONTCLICK),
            wparam: if self.dont_click { 1 } else { 0 },
            lparam: 0,
        }
    }

    pub fn as_generic_wm(&self) -> (r: WndMsg)
        ensures
            r == self.wm(),
    {
        let w: usize = if self.dont_click { 1 } else { 0 };
        WndMsg { msg_id: WM(WM::BM_SETDONTCLICK), wparam: w, lparam: 0 }
    }
}

/// Sets the font of a control.
#[derive(Clone, Copy, Debug, PartialEq, Eq, Structural)]
pub struct WmSetFont {
    pub hfont: HFONT,
    pub redraw: bool,
}

impl WmSetFont {
    pub open spec fn wm(self) -> WndMsg {
        WndMsg {
            msg_id: WM(WM::SETFONT),
            wparam: self.hfont.0,
            lparam: if self.redraw { 1 } else { 0 },
        }
    }

    pub fn as_generic_wm(&self) -> (r: WndMsg)
        ensures
            r == self.wm(),
    {
        let l: isize = if self.redraw { 1 } else { 0 };
        WndMsg { msg_id: WM(WM::SETFONT), wparam: self.hfont.0, lparam: l }
    }
}

/// Gives a window its small or its big icon.
#[derive(Clone, Copy, Debug, PartialEq, Eq, Structural)]
pub struct WmSetIcon {
    pub hicon: HICON,
    pub size: ICON_SZ,
}

impl WmSetIcon {
    pub open spec fn wm(self) -> WndMsg {
        WndMsg {
            msg_id: WM(WM::SETICON),
            wparam: self.size.0 as usize,
            lparam: self.hicon.0 as isize,
        }
    }

    pub fn as_generic_wm(&self) -> (r: WndMsg)
        ensures
            r == self.wm(),
    {
        WndMsg {
            msg_id: WM(WM::SETICON),
            wparam: self.size.0 as usize,
            lparam: #[verifier::truncate] (self.hicon.0 as isize),
        }
    }

    /// The icon that the window had before, if it had one.
    pub fn convert_ret(&self, v: isize) -> (r: Option<HICON>)
        ensures
            r == (if v == 0 { None } else { Some(HICON(v as usize)) }),
    {
        if v == 0 {
            None
        } else {
            Some(HICON(#[verifier::truncate] (v as usize)))
        }
    }
}

} // verus!
