//! The handlers that a window has for the messages it receives, kept in the
//! order in which they were registered.

use vstd::prelude::*;
use crate::co::{BN, WM};

verus! {

/// What is to happen when a message arrives.
#[derive(Clone, Copy, Debug, PartialEq, Eq, Structural)]
pub enum Reaction {
    /// Destroy the window that received the message.
    DestroyWindow,
    /// Ask the message loop to end with the given exit code.
    PostQuitMessage(i32),
    /// Run the handler that the caller keeps under this number.
    Call(u32),
}

/// The handlers of a window, by message.
#[derive(Debug)]
pub struct MsgEvents {
    msgs: Vec<(WM, Reaction)>,
}

impl View for MsgEvents {
    type V = Seq<(WM, Reaction)>;

    closed spec fn view(&self) -> Seq<(WM, Reaction)> {
        self.msgs@
    }
}

impl MsgEvents {
    /// No handler at all.
    pub fn new() -> (r: MsgEvents)
        ensures
            r@ == Seq::<(WM, Reaction)>::empty(),
    {
        MsgEvents { msgs: Vec::new() }
    }

    /// Whether no handler was registered.
    pub fn is_empty(&self) -> (r: bool)
        ensures
            r == (self@.len() == 0),
    {
        self.msgs.len() == 0
    }

    /// How many handlers were registered.
    pub fn len(&self) -> (r: usize)
        ensures
            r == self@.len(),
    {
        self.msgs.len()
    }

    /// The `i`-th registration.
    pub fn get(&self, i: usize) -> (r: (WM, Reaction))
        requires
            i < self@.len(),
        ensures
            r == self@[i as int],
    {
        self.msgs[i]
    }

    /// Registers `reaction` for the message `ident`, after all earlier ones.
    pub fn add_msg(&mut self, ident: WM, reaction: Reaction)
        ensures
            final(self)@ == old(self)@.push((ident, reaction)),
    {
        self.msgs.push((ident, reaction));
    }

    /// Registers `reaction` for `WM_CLOSE`.
    pub fn wm_close(&mut self, reaction: Reaction)
        ensures
            final(self)@ == old(self)@.push((WM(WM::CLOSE), reaction)),
    {
        self.add_msg(WM(WM::CLOSE), reaction);
    }

    /// Registers `reaction` for `WM_NCDESTROY`.
    pub fn wm_nc_destroy(&mut self, reaction: Reaction)
        ensures
            final(self)@ == old(self)@.push((WM(WM::NCDESTROY), reaction)),
    {
        self.add_msg(WM(WM::NCDESTROY), reaction);
    }
}

/// The handlers for the notifications of one button, which reach its parent
/// under the button's control identifier.
#[derive(Debug)]
pub struct ButtonEvents {
    ctrl_id: u16,
    cmds: Vec<(BN, u32)>,
}

impl ButtonEvents {
    /// The control whose notifications these handlers are for.
    pub closed spec fn spec_ctrl_id(&self) -> u16 {
        self.ctrl_id
    }

    /// The registrations, oldest first: a notification code with the number
    /// of the handler to run.
    pub closed spec fn cmds(&self) -> Seq<(BN, u32)> {
        self.cmds@
    }

    /// No handler yet, for the control `ctrl_id`.
    pub fn new(ctrl_id: u16) -> (r: ButtonEvents)
        ensures
            r.spec_ctrl_id() == ctrl_id,
            r.cmds() == Seq::<(BN, u32)>::empty(),
    {
        ButtonEvents { ctrl_id, cmds: Vec::new() }
    }

    pub fn ctrl_id(&self) -> (r: u16)
        ensures
            r == self.spec_ctrl_id(),
    {
        self.ctrl_id
    }

    /// How many handlers were registered.
    pub fn len(&self) -> (r: usize)
        ensures
            r == self.cmds().len(),
    {
        self.cmds.len()
    }

    /// The `i`-th registration.
    pub fn get(&self, i: usize) -> (r: (BN, u32))
        requires
            i < self.cmds().len(),
        ensures
            r == self.cmds()[i as int],
    {
        self.cmds[i]
    }

    /// Registers the handler `token` for the notification `code`.
    pub fn add_cmd(&mut self, code: BN, token: u32)
        ensures
            final(self).spec_ctrl_id() == old(self).spec_ctrl_id(),
            final(self).cmds() == old(self).cmds().push((code, token)),
    {
        self.cmds.push((code, token));
    }

    /// Registers the handler `token` for a click.
    pub fn bn_clicked(&mut self, token: u32)
        ensures
            final(self).spec_ctrl_id() == old(self).spec_ctrl_id(),
            final(self).cmds() == old(self).cmds().push((BN(BN::CLICKED), token)),
    {
        self.add_cmd(BN(BN::CLICKED), token);
    }
}

} // verus!
