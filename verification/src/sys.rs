//! The vocabulary of the exchange with the system: what can be asked of it,
//! what it can answer, and one step of a task that takes several exchanges.

use vstd::prelude::*;
use crate::co::{ERROR, LR, SW, WS, WS_EX};
use crate::handles::{HACCEL, HFONT, HICON, HINSTANCE, HWND};
use crate::msg::WndMsg;
use crate::structs::{GUID, POINT, SIZE};

verus! {

/// One thing to be done by the system on the library's behalf.
#[derive(Debug, PartialEq, Eq)]
pub enum Request {
    /// Deliver `msg` to the window and wait for its answer.
    SendMessage { hwnd: HWND, msg: WndMsg },
    /// Put `msg` into the window's queue and return at once.
    PostMessage { hwnd: HWND, msg: WndMsg },
    /// Measure `text` in the interface font, with room for a check mark.
    CalcTextBoundBoxCheck { text: String },
    /// Create a child control, and subclass it if `subclass` says so.
    CreateWindowEx {
        class_name: String,
        title: Option<String>,
        pos: POINT,
        size: SIZE,
        hparent: HWND,
        ctrl_id: u16,
        ex_style: WS_EX,
        style: WS,
        subclass: bool,
    },
    /// Find the control of a dialog that has the given identifier, and
    /// subclass it if `subclass` says so.
    GetDlgItem { hdlg: HWND, ctrl_id: u16, subclass: bool },
    /// Say which font the interface uses.
    UiFont,
    /// Create a modeless dialog from the resource `dialog_id`, owned by the
    /// given window if any.
    CreateDialogParam { dialog_id: i32, owner: Option<HWND> },
    /// Say which module the window belongs to.
    ParentHinstance { hwnd: HWND },
    /// Load the accelerator table with the given resource identifier.
    LoadAccelerators { hinst: HINSTANCE, id: i32 },
    /// Load the icon with the given resource identifier, in the given size.
    LoadImageIcon { hinst: HINSTANCE, id: i32, cx: i32, cy: i32, load: LR },
    /// Show, hide, minimise or maximise the window.
    ShowWindow { hwnd: HWND, cmd: SW },
    /// Pump messages until the window is closed.
    RunLoop { hwnd: HWND, haccel: Option<HACCEL> },
    /// Allocate a structure that collects the positions of `num_windows`
    /// windows.
    BeginDeferWindowPos { num_windows: i32 },
    /// Add the position of one window to such a structure.
    DeferWindowPos {
        hdwp: usize,
        hwnd: HWND,
        hwnd_insert_after: usize,
        x: i32,
        y: i32,
        cx: i32,
        cy: i32,
        flags: u32,
    },
    /// Move all the windows collected in such a structure, and free it.
    EndDeferWindowPos { hdwp: usize },
    /// Call the method at the address `func` on the COM object `this`, with
    /// the given arguments after the object itself.
    ComCall { func: usize, this: usize, args: Vec<ComArg> },
}

/// One argument of a call of a COM method.
#[derive(Clone, Copy, Debug, PartialEq, Eq, Structural)]
pub enum ComArg {
    /// Another COM object.
    Ptr(usize),
    /// A 32-bit value.
    U32(u32),
    /// A 64-bit value.
    I64(i64),
    /// The address of a `GUID` with this value, which the method reads.
    Guid(GUID),
    /// The address of a 64-bit value that holds this at first, and which the
    /// method may overwrite.
    OutI64(i64),
    /// The address of a `GUID` that holds this at first, and which the
    /// method may overwrite.
    OutGuid(GUID),
}

/// A request with its strings as sequences of characters.
pub ghost enum RequestView {
    SendMessage { hwnd: HWND, msg: WndMsg },
    PostMessage { hwnd: HWND, msg: WndMsg },
    CalcTextBoundBoxCheck { text: Seq<char> },
    CreateWindowEx {
        class_name: Seq<char>,
        title: Option<Seq<char>>,
        pos: POINT,
        size: SIZE,
        hparent: HWND,
        ctrl_id: u16,
        ex_style: WS_EX,
        style: WS,
        subclass: bool,
    },
    GetDlgItem { hdlg: HWND, ctrl_id: u16, subclass: bool },
    UiFont,
    CreateDialogParam { dialog_id: i32, owner: Option<HWND> },
    ParentHinstance { hwnd: HWND },
    LoadAccelerators { hinst: HINSTANCE, id: i32 },
    LoadImageIcon { hinst: HINSTANCE, id: i32, cx: i32, cy: i32, load: LR },
    ShowWindow { hwnd: HWND, cmd: SW },
    RunLoop { hwnd: HWND, haccel: Option<HACCEL> },
    BeginDeferWindowPos { num_windows: i32 },
    DeferWindowPos {
        hdwp: usize,
        hwnd: HWND,
        hwnd_insert_after: usize,
        x: i32,
        y: i32,
        cx: i32,
        cy: i32,
        flags: u32,
    },
    EndDeferWindowPos { hdwp: usize },
    ComCall { func: usize, this: usize, args: Seq<ComArg> },
}

impl View for Request {
    type V = RequestView;

    open spec fn view(&self) -> RequestView {
        match *self {
            Request::SendMessage { hwnd, msg } => RequestView::SendMessage { hwnd, msg },
            Request::PostMessage { hwnd, msg } => RequestView::PostMessage { hwnd, msg },
            Request::CalcTextBoundBoxCheck { text } => RequestView::CalcTextBoundBoxCheck {
                text: text@,
            },
            Request::CreateWindowEx {
                class_name,
                title,
                pos,
                size,
                hparent,
                ctrl_id,
                ex_style,
                style,
                subclass,
            } => RequestView::CreateWindowEx {
                class_name: class_name@,
                title: match title {
                    Some(t) => Some(t@),
                    None => None,
                },
                pos,
                size,
                hparent,
                ctrl_id,
                ex_style,
                style,
                subclass,
            },
            Request::GetDlgItem { hdlg, ctrl_id, subclass } => RequestView::GetDlgItem {
                hdlg,
                ctrl_id,
                subclass,
            },
            Request::UiFont => RequestView::UiFont,
            Request::CreateDialogParam { dialog_id, owner } => RequestView::CreateDialogParam {
                dialog_id,
                owner,
            },
            Request::ParentHinstance { hwnd } => RequestView::ParentHinstance { hwnd },
            Request::LoadAccelerators { hinst, id } => RequestView::LoadAccelerators { hinst, id },
            Request::LoadImageIcon { hinst, id, cx, cy, load } => RequestView::LoadImageIcon {
                hinst,
                id,
                cx,
                cy,
                load,
            },
            Request::ShowWindow { hwnd, cmd } => RequestView::ShowWindow { hwnd, cmd },
            Request::RunLoop { hwnd, haccel } => RequestView::RunLoop { hwnd, haccel },
            Request::BeginDeferWindowPos { num_windows } => RequestView::BeginDeferWindowPos {
                num_windows,
            },
            Request::DeferWindowPos { hdwp, hwnd, hwnd_insert_after, x, y, cx, cy, flags } =>
                RequestView::DeferWindowPos { hdwp, hwnd, hwnd_insert_after, x, y, cx, cy, flags },
            Request::EndDeferWindowPos { hdwp } => RequestView::EndDeferWindowPos { hdwp },
            Request::ComCall { func, this, args } => RequestView::ComCall {
                func,
                this,
                args: args@,
            },
        }
    }
}

/// What the system answered to a request of a task that takes several
/// exchanges.
#[derive(Clone, Copy, Debug, PartialEq, Eq)]
pub enum Reply {
    /// The value that the window procedure returned for a sent message.
    Ret(isize),
    /// The measured extent.
    Size(Result<SIZE, ERROR>),
    /// The window that was created or found.
    Hwnd(Result<HWND, ERROR>),
    /// The interface font.
    Hfont(HFONT),
    /// The module.
    Hinstance(Result<HINSTANCE, ERROR>),
    /// The loaded accelerator table.
    Haccel(Result<HACCEL, ERROR>),
    /// The loaded icon.
    Hicon(Result<HICON, ERROR>),
    /// Whether the window was visible before.
    Shown(bool),
    /// The exit code with which the message loop ended.
    Exit(Result<i32, ERROR>),
}

impl Reply {
    /// Whether the answer can be one of the system: a handle that comes as
    /// a success is never null.
    pub open spec fn well_formed(self) -> bool {
        match self {
            Reply::Hwnd(Ok(h)) => h != HWND(0),
            Reply::Hinstance(Ok(h)) => h != HINSTANCE(0),
            Reply::Haccel(Ok(h)) => h != HACCEL(0),
            Reply::Hicon(Ok(h)) => h != HICON(0),
            _ => true,
        }
    }

    /// Whether the answer can be one of the system.
    pub fn is_well_formed(&self) -> (b: bool)
        ensures
            b == self.well_formed(),
    {
        match self {
            Reply::Hwnd(Ok(h)) => h.0 != 0,
            Reply::Hinstance(Ok(h)) => h.0 != 0,
            Reply::Haccel(Ok(h)) => h.0 != 0,
            Reply::Hicon(Ok(h)) => h.0 != 0,
            _ => true,
        }
    }

    /// Whether the answer is one that the request `q` can be answered with,
    /// for the requests that tasks of several exchanges make: it is well
    /// formed and of the kind that belongs to the request.
    pub open spec fn answers(self, q: RequestView) -> bool {
        self.well_formed() && match q {
            RequestView::SendMessage { .. } => self is Ret,
            RequestView::CalcTextBoundBoxCheck { .. } => self is Size,
            RequestView::CreateWindowEx { .. } => self is Hwnd,
            RequestView::GetDlgItem { .. } => self is Hwnd,
            RequestView::UiFont => self is Hfont,
            RequestView::CreateDialogParam { .. } => self is Hwnd,
            RequestView::ParentHinstance { .. } => self is Hinstance,
            RequestView::LoadAccelerators { .. } => self is Haccel,
            RequestView::LoadImageIcon { .. } => self is Hicon,
            RequestView::ShowWindow { .. } => self is Shown,
            RequestView::RunLoop { .. } => self is Exit,
            _ => false,
        }
    }
}

/// Reads the machine word `ret` with which the system returns a handle or
/// reports a failure: a word that is not zero is the handle, zero means that
/// the call failed with the error `last_error`.
pub fn handle_or_error(ret: usize, last_error: ERROR) -> (r: Result<usize, ERROR>)
    ensures
        r == (if ret != 0 {
            Ok::<usize, ERROR>(ret)
        } else {
            Err::<usize, ERROR>(last_error)
        }),
{
    if ret != 0 {
        Ok(ret)
    } else {
        Err(last_error)
    }
}

/// Reads the truth value `ret` with which the system reports whether a call
/// did its work: zero means that it failed with the error `last_error`.
pub fn done_or_error(ret: i32, last_error: ERROR) -> (r: Result<(), ERROR>)
    ensures
        r == (if ret != 0 {
            Ok::<(), ERROR>(())
        } else {
            Err::<(), ERROR>(last_error)
        }),
{
    if ret != 0 {
        Ok(())
    } else {
        Err(last_error)
    }
}

/// Where a task stands after a step: it needs something of the system, or it
/// has ended with a result.
#[derive(Debug, PartialEq, Eq)]
pub enum Step<T> {
    Ask(Request),
    Done(Result<T, ERROR>),
}

/// A step with its request taken by its view.
pub ghost enum StepView<T> {
    Ask(RequestView),
    Done(Result<T, ERROR>),
}

impl<T> View for Step<T> {
    type V = StepView<T>;

    open spec fn view(&self) -> StepView<T> {
        match *self {
            Step::Ask(q) => StepView::Ask(q@),
            Step::Done(r) => StepView::Done(r),
        }
    }
}

} // verus!
