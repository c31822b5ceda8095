//! What windows that hold controls, and controls, have in common.

use vstd::prelude::*;
use crate::gui::events::MsgEvents;
use crate::handles::HWND;

verus! {

/// A window that can hold child controls.
pub trait Parent {
    /// The window's handle; null until the window is created.
    spec fn spec_hwnd(&self) -> HWND;

    /// The handlers registered on the window.
    spec fn spec_events(&self) -> Seq<(crate::co::WM, crate::gui::events::Reaction)>;

    /// The identifiers of the controls that are to be created together with
    /// the window, in the order in which they were announced.
    spec fn spec_children(&self) -> Seq<u16>;

    fn hwnd_ref(&self) -> (r: &HWND)
        ensures
            *r == self.spec_hwnd(),
    ;

    fn events_ref(&self) -> (r: &MsgEvents)
        ensures
            r@ == self.spec_events(),
    ;

    /// Announces a control that is to be created when the window is.
    fn add_child_to_be_created(&mut self, ctrl_id: u16)
        ensures
            final(self).spec_hwnd() == old(self).spec_hwnd(),
            final(self).spec_events() == old(self).spec_events(),
            final(self).spec_children() == old(self).spec_children().push(ctrl_id),
    ;
}

/// A control inside a window.
pub trait Child {
    /// The control's handle; null until the control is created.
    spec fn spec_hctrl(&self) -> HWND;

    fn hctrl_ref(&self) -> (r: &HWND)
        ensures
            *r == self.spec_hctrl(),
    ;
}

} // verus!
