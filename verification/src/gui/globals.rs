//! State that all controls of a program share.

use vstd::prelude::*;

verus! {

/// The source of control identifiers for controls that were given none. It
/// hands out consecutive numbers, each once.
#[derive(Debug)]
pub struct AutoCtrlId {
    next: u16,
}

impl AutoCtrlId {
    /// The identifier that will be handed out next.
    pub closed spec fn spec_next(&self) -> u16 {
        self.next
    }

    /// A source whose first identifier is `first`.
    pub fn starting_at(first: u16) -> (r: AutoCtrlId)
        ensures
            r.spec_next() == first,
    {
        AutoCtrlId { next: first }
    }

    /// The identifier that will be handed out next.
    pub fn peek(&self) -> (r: u16)
        ensures
            r == self.spec_next(),
    {
        self.next
    }

    /// Hands out the next identifier.
    pub fn auto_ctrl_id(&mut self) -> (r: u16)
        requires
            old(self).spec_next() < u16::MAX,
        ensures
            r == old(self).spec_next(),
            final(self).spec_next() == old(self).spec_next() + 1,
    {
        let new_id: u16 = self.next;
        self.next = self.next + 1;
        new_id
    }
}

} // verus!
