//! The dialog in which the user chooses the name under which to save a file.

use vstd::prelude::*;
use crate::com::iunknown::{ole_IUnknown, ComInterface, IUnknownVT};
use crate::structs::GUID;
use crate::sys::{ComArg, Request, RequestView};

verus! {

/// The table of methods of `IModalWindow`.
#[derive(Clone, Copy, Debug, PartialEq, Eq, Structural)]
pub struct IModalWindowVT {
    pub IUnknownVT: IUnknownVT,
    pub Show: usize,
}

/// The table of methods of `IFileDialog`.
#[derive(Clone, Copy, Debug, PartialEq, Eq, Structural)]
pub struct IFileDialogVT {
    pub IModalWindowVT: IModalWindowVT,
    pub SetFileTypes: usize,
    pub SetFileTypeIndex: usize,
    pub GetFileTypeIndex: usize,
    pub Advise: usize,
    pub Unadvise: usize,
    pub SetOptions: usize,
    pub GetOptions: usize,
    pub SetDefaultFolder: usize,
    pub SetFolder: usize,
    pub GetFolder: usize,
    pub GetCurrentSelection: usize,
    pub SetFileName: usize,
    pub GetFileName: usize,
    pub SetTitle: usize,
    pub SetOkButtonLabel: usize,
    pub SetFileNameLabel: usize,
    pub GetResult: usize,
    pub AddPlace: usize,
    pub SetDefaultExtension: usize,
    pub Close: usize,
    pub SetClientGuid: usize,
    pub ClearClientData: usize,
    pub SetFilter: usize,
}

/// The table of methods of [`IFileSaveDialog`]: the address of each method.
#[derive(Clone, Copy, Debug, PartialEq, Eq, Structural)]
pub struct IFileSaveDialogVT {
    pub IFileDialogVT: IFileDialogVT,
    pub SetSaveAsItem: usize,
    pub SetProperties: usize,
    pub SetCollectedProperties: usize,
    pub GetProperties: usize,
    pub ApplyProperties: usize,
}

/// An item of the shell's namespace: a file, a folder, a virtual object.
#[derive(Clone, Copy, Debug, PartialEq, Eq, Structural)]
pub struct IShellItem {
    pub ptr: usize,
}

impl ole_IUnknown for IShellItem {
    open spec fn spec_ptr(&self) -> usize {
        self.ptr
    }

    fn ptr(&self) -> (r: usize) {
        self.ptr
    }
}

impl shell_IShellItem for IShellItem {

}

/// The `IFileSaveDialog` COM interface: the object and its table of methods.
#[derive(Clone, Copy, Debug, PartialEq, Eq, Structural)]
pub struct IFileSaveDialog {
    pub ptr: usize,
    pub vt: IFileSaveDialogVT,
}

impl ComInterface for IFileSaveDialog {
    open spec fn spec_iid() -> GUID {
        GUID {
            data1: 0x84bc_cd23,
            data2: 0x5fde,
            data3: 0x4cdb,
            data4: 0xaea4,
            data5: 0xaf64_b83d_78ab,
        }
    }

    fn iid() -> (r: GUID) {
        GUID::new(0x84bc_cd23, 0x5fde, 0x4cdb, 0xaea4, 0xaf64_b83d_78ab)
    }
}

impl ole_IUnknown for IFileSaveDialog {
    open spec fn spec_ptr(&self) -> usize {
        self.ptr
    }

    fn ptr(&self) -> (r: usize) {
        self.ptr
    }
}

impl shell_IModalWindow for IFileSaveDialog {

}

impl shell_IFileDialog for IFileSaveDialog {

}

impl shell_IFileSaveDialog for IFileSaveDialog {
    open spec fn spec_vt(&self) -> IFileSaveDialogVT {
        self.vt
    }

    fn vt(&self) -> (r: &IFileSaveDialogVT) {
        &self.vt
    }
}

/// The objects that are shell items.
pub trait shell_IShellItem: ole_IUnknown {

}

/// The objects that are modal windows.
pub trait shell_IModalWindow: ole_IUnknown {

}

/// The objects that are file dialogs.
pub trait shell_IFileDialog: shell_IModalWindow {

}

/// The methods of [`IFileSaveDialog`].
pub trait shell_IFileSaveDialog: shell_IFileDialog {
    /// The object's table of methods.
    spec fn spec_vt(&self) -> IFileSaveDialogVT;

    fn vt(&self) -> (r: &IFileSaveDialogVT)
        ensures
            *r == self.spec_vt(),
    ;

    /// The call that sets the item under whose name the file is saved at
    /// first: the method `SetSaveAsItem` of the table, on this object, with
    /// the item as its one argument. Its status is read by
    /// [`ok_to_hrresult`](crate::com::iunknown::ok_to_hrresult).
    fn SetSaveAsItem<I: shell_IShellItem>(&self, psi: &I) -> (r: Request)
        ensures
            r@ == (RequestView::ComCall {
                func: self.spec_vt().SetSaveAsItem,
                this: self.spec_ptr(),
                args: seq![ComArg::Ptr(psi.spec_ptr())],
            }),
    {
        let func: usize = self.vt().SetSaveAsItem;
        let args = vec![ComArg::Ptr(psi.ptr())];
        assert(args@ =~= seq![ComArg::Ptr(psi.spec_ptr())]);
        Request::ComCall { func, this: self.ptr(), args }
    }
}

} // verus!
