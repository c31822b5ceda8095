//! How a control comes to be: made from options, or found in a dialog
//! resource by its identifier.

use vstd::prelude::*;

verus! {

#[derive(Debug)]
pub enum OptsId<O> {
    /// The control is created with these options.
    Wnd(O),
    /// The control exists in a dialog resource under this identifier.
    Dlg(u16),
}

} // verus!
