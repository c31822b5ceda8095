//! What every dialog keeps: the resource it is made from, its handle, its
//! handlers and the controls that wait for it.

use vstd::prelude::*;
use crate::co::WM;
use crate::gui::events::{MsgEvents, Reaction};
use crate::handles::HWND;

verus! {

#[derive(Debug)]
pub struct DialogBase {
    pub hwnd: HWND,
    pub hparent: Option<HWND>,
    pub dialog_id: i32,
    pub events: MsgEvents,
    pub children: Vec<u16>,
}

impl DialogBase {
    /// A dialog that is not created yet and has no handler and no control.
    pub fn new(hparent: Option<HWND>, dialog_id: i32) -> (r: DialogBase)
        ensures
            r.hwnd == HWND(0),
            r.hparent == hparent,
            r.dialog_id == dialog_id,
            r.events@ == Seq::<(WM, Reaction)>::empty(),
            r.children@ == Seq::<u16>::empty(),
    {
        DialogBase {
            hwnd: HWND(0),
            hparent,
            dialog_id,
            events: MsgEvents::new(),
            children: Vec::new(),
        }
    }

    pub fn hwnd_ref(&self) -> (r: &HWND)
        ensures
            *r == self.hwnd,
    {
        &self.hwnd
    }

    pub fn events_ref(&self) -> (r: &MsgEvents)
        ensures
            *r == self.events,
    {
        &self.events
    }

    /// Announces a control that is to be created when the dialog is.
    pub fn add_child_to_be_created(&mut self, ctrl_id: u16)
        ensures
            final(self).hwnd == old(self).hwnd,
            final(self).hparent == old(self).hparent,
            final(self).dialog_id == old(self).dialog_id,
            final(self).events == old(self).events,
            final(self).children@ == old(self).children@.push(ctrl_id),
    {
        self.children.push(ctrl_id);
    }
}

} // verus!
