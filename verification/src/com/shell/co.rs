//! Constant types of the shell.

use vstd::prelude::*;

verus! {

/// The effects of a drag-and-drop operation.
#[derive(Clone, Copy, Debug, PartialEq, Eq, Structural)]
pub struct DROPEFFECT(pub u32);

impl DROPEFFECT {
    pub const NONE: u32 = 0;
    pub const COPY: u32 = 1;
    pub const MOVE: u32 = 2;
    pub const LINK: u32 = 4;
    pub const SCROLL: u32 = 0x8000_0000;
}

/// Where in the list of places of a file dialog an item is added.
#[derive(Clone, Copy, Debug, PartialEq, Eq, Structural)]
pub struct FDAP(pub u32);

impl FDAP {
    pub const BOTTOM: u32 = 0;
    pub const TOP: u32 = 1;
}

/// Options of a file dialog.
#[derive(Clone, Copy, Debug, PartialEq, Eq, Structural)]
pub struct FOS(pub u32);

impl FOS {
    pub const OVERWRITEPROMPT: u32 = 0x2;
    pub const STRICTFILETYPES: u32 = 0x4;
    pub const NOCHANGEDIR: u32 = 0x8;
    pub const PICKFOLDERS: u32 = 0x20;
    pub const FORCEFILESYSTEM: u32 = 0x40;
    pub const ALLNONSTORAGEITEMS: u32 = 0x80;
    pub const NOVALIDATE: u32 = 0x100;
    pub const ALLOWMULTISELECT: u32 = 0x200;
    pub const PATHMUSTEXIST: u32 = 0x800;
    pub const FILEMUSTEXIST: u32 = 0x1000;
    pub const CREATEPROMPT: u32 = 0x2000;
    pub const SHAREAWARE: u32 = 0x4000;
    pub const NOREADONLYRETURN: u32 = 0x8000;
    pub const NOTESTFILECREATE: u32 = 0x1_0000;
    pub const HIDEMRUPLACES: u32 = 0x2_0000;
    pub const HIDEPINNEDPLACES: u32 = 0x4_0000;
    pub const NODEREFERENCELINKS: u32 = 0x10_0000;
    pub const OKBUTTONNEEDSINTERACTION: u32 = 0x20_0000;
    pub const DONTADDTORECENT: u32 = 0x200_0000;
    pub const FORCESHOWHIDDEN: u32 = 0x1000_0000;
    pub const DEFAULTNOMINIMODE: u32 = 0x2000_0000;
    pub const FORCEPREVIEWPANEON: u32 = 0x4000_0000;
    pub const SUPPORTSTREAMABLEITEMS: u32 = 0x8000_0000;
}

/// Attributes of an item of the shell's namespace.
#[derive(Clone, Copy, Debug, PartialEq, Eq, Structural)]
pub struct SFGAO(pub u32);

impl SFGAO {
    pub const CANCOPY: u32 = 1;
    pub const CANMOVE: u32 = 2;
    pub const CANLINK: u32 = 4;
    pub const STORAGE: u32 = 0x0000_0008;
    pub const CANRENAME: u32 = 0x0000_0010;
    pub const CANDELETE: u32 = 0x0000_0020;
    pub const HASPROPSHEET: u32 = 0x0000_0040;
    pub const DROPTARGET: u32 = 0x0000_0100;
    pub const CAPABILITYMASK: u32 = 0x0000_0177;
    pub const SYSTEM: u32 = 0x0000_1000;
    pub const ENCRYPTED: u32 = 0x0000_2000;
    pub const ISSLOW: u32 = 0x0000_4000;
    pub const GHOSTED: u32 = 0x0000_8000;
    pub const LINK: u32 = 0x0001_0000;
    pub const SHARE: u32 = 0x0002_0000;
    pub const READONLY: u32 = 0x0004_0000;
    pub const HIDDEN: u32 = 0x0008_0000;
    pub const FILESYSANCESTOR: u32 = 0x1000_0000;
    pub const FOLDER: u32 = 0x2000_0000;
    pub const FILESYSTEM: u32 = 0x4000_0000;
    pub const HASSUBFOLDER: u32 = 0x8000_0000;
    pub const CONTENTSMASK: u32 = 0x8000_0000;
    pub const VALIDATE: u32 = 0x0100_0000;
    pub const REMOVABLE: u32 = 0x0200_0000;
    pub const COMPRESSED: u32 = 0x0400_0000;
    pub const BROWSABLE: u32 = 0x0800_0000;
    pub const NONENUMERATED: u32 = 0x0010_0000;
    pub const NEWCONTENT: u32 = 0x0020_0000;
    pub const CANMONIKER: u32 = 0x0040_0000;
    pub const HASSTORAGE: u32 = 0x0040_0000;
    pub const STREAM: u32 = 0x0040_0000;
    pub const STORAGEANCESTOR: u32 = 0x0080_0000;
    pub const STORAGECAPMASK: u32 = 0x70c5_0008;
    pub const PKEYSFGAOMASK: u32 = 0x8104_4000;
}

/// The forms in which the name of a shell item can be asked for.
#[derive(Clone, Copy, Debug, PartialEq, Eq, Structural)]
pub struct SIGDN(pub u32);

impl SIGDN {
    pub const NORMALDISPLAY: u32 = 0;
    pub const PARENTRELATIVEPARSING: u32 = 0x8001_8001;
    pub const DESKTOPABSOLUTEPARSING: u32 = 0x8002_8000;
    pub const PARENTRELATIVEEDITING: u32 = 0x8003_1001;
    pub const DESKTOPABSOLUTEEDITING: u32 = 0x8004_c000;
    pub const FILESYSPATH: u32 = 0x8005_8000;
    pub const URL: u32 = 0x8006_8000;
    pub const PARENTRELATIVEFORADDRESSBAR: u32 = 0x8007_c001;
    pub const PARENTRELATIVE: u32 = 0x8008_0001;
    pub const PARENTRELATIVEFORUI: u32 = 0x8009_4001;
}

/// How the thumbnail and the preview of a taskbar tab are made.
#[derive(Clone, Copy, Debug, PartialEq, Eq, Structural)]
pub struct STPFLAG(pub u32);

impl STPFLAG {
    pub const NONE: u32 = 0;
    pub const USEAPPTHUMBNAILALWAYS: u32 = 0x1;
    pub const USEAPPTHUMBNAILWHENACTIVE: u32 = 0x2;
    pub const USEAPPPEEKALWAYS: u32 = 0x4;
    pub const USEAPPPEEKWHENACTIVE: u32 = 0x8;
}

/// The states of the progress indicator on a taskbar button.
#[derive(Clone, Copy, Debug, PartialEq, Eq, Structural)]
pub struct TBPF(pub u32);

impl TBPF {
    pub const NOPROGRESS: u32 = 0;
    pub const INDETERMINATE: u32 = 0x1;
    pub const NORMAL: u32 = 0x2;
    pub const ERROR: u32 = 0x4;
    pub const PAUSED: u32 = 0x8;
}

} // verus!
