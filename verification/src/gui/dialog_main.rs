//! The main window of a program, made from a dialog resource.

use vstd::prelude::*;
use crate::co::{ERROR, ICON_SZ, LR, SW, WM};
use crate::gui::dialog_base::DialogBase;
use crate::gui::events::{MsgEvents, Reaction};
use crate::gui::traits::Parent;
use crate::handles::{HACCEL, HICON, HINSTANCE, HWND};
use crate::msg::WmSetIcon;
use crate::sys::{Reply, Request, RequestView, Step, StepView};

verus! {

/// How far the run of a main dialog has come: what was asked of the system
/// last and is not answered yet.
#[derive(Clone, Copy, Debug, PartialEq, Eq, Structural)]
pub enum Running {
    /// Nothing is under way.
    Idle,
    /// The dialog was asked for.
    CreatingDialog,
    /// The module of the dialog was asked for.
    AskingInstance,
    /// The accelerator table was asked for.
    LoadingAccel,
    /// The small icon was asked for.
    LoadingSmallIcon,
    /// The small icon was sent to the dialog.
    SettingSmallIcon,
    /// The big icon was asked for.
    LoadingBigIcon,
    /// The big icon was sent to the dialog.
    SettingBigIcon,
    /// The dialog was told to show itself.
    Showing,
    /// The message loop runs.
    Looping,
}

/// A dialog that is the main window of the program.
#[derive(Debug)]
pub struct DialogMain {
    base: DialogBase,
    icon_id: Option<i32>,
    accel_table_id: Option<i32>,
    running: Running,
    cmd_show: SW,
    hinst: HINSTANCE,
    haccel: Option<HACCEL>,
}

/// A main dialog as plain values.
pub ghost struct DialogMainView {
    /// The dialog's handle; null until it is created.
    pub hwnd: HWND,
    /// The window that owns the dialog, if any.
    pub owner: Option<HWND>,
    /// The resource that the dialog is made from.
    pub dialog_id: i32,
    /// The handlers registered on the dialog, oldest first.
    pub events: Seq<(WM, Reaction)>,
    /// The controls that are created together with the dialog.
    pub children: Seq<u16>,
    /// The resource of the dialog's icon, if it has one.
    pub icon_id: Option<i32>,
    /// The resource of the dialog's accelerator table, if it has one.
    pub accel_table_id: Option<i32>,
    /// How far the run has come.
    pub running: Running,
    /// How the dialog is to be shown in the run that is under way.
    pub cmd_show: SW,
    /// The module of the dialog, as learnt in the run that is under way.
    pub hinst: HINSTANCE,
    /// The accelerator table loaded in the run that is under way.
    pub haccel: Option<HACCEL>,
}

impl View for DialogMain {
    type V = DialogMainView;

    closed spec fn view(&self) -> DialogMainView {
        DialogMainView {
            hwnd: self.base.hwnd,
            owner: self.base.hparent,
            dialog_id: self.base.dialog_id,
            events: self.base.events@,
            children: self.base.children@,
            icon_id: self.icon_id,
            accel_table_id: self.accel_table_id,
            running: self.running,
            cmd_show: self.cmd_show,
            hinst: self.hinst,
            haccel: self.haccel,
        }
    }
}

impl Parent for DialogMain {
    open spec fn spec_hwnd(&self) -> HWND {
        self@.hwnd
    }

    open spec fn spec_events(&self) -> Seq<(WM, Reaction)> {
        self@.events
    }

    open spec fn spec_children(&self) -> Seq<u16> {
        self@.children
    }

    fn hwnd_ref(&self) -> (r: &HWND) {
        self.base.hwnd_ref()
    }

    fn events_ref(&self) -> (r: &MsgEvents) {
        self.base.events_ref()
    }

    fn add_child_to_be_created(&mut self, ctrl_id: u16)
        ensures
            final(self)@ == (DialogMainView {
                children: old(self)@.children.push(ctrl_id),
                ..old(self)@
            }),
    {
        self.base.add_child_to_be_created(ctrl_id);
    }
}

impl DialogMainView {
    /// The handlers that every main dialog has from the start: closing the
    /// dialog destroys it, and its destruction ends the message loop with
    /// exit code zero.
    pub open spec fn default_message_handlers() -> Seq<(WM, Reaction)> {
        seq![
            (WM(WM::CLOSE), Reaction::DestroyWindow),
            (WM(WM::NCDESTROY), Reaction::PostQuitMessage(0)),
        ]
    }

    /// The request for the dialog's icon in the size `px` by `px`.
    pub open spec fn load_icon(hinst: HINSTANCE, id: i32, px: i32) -> RequestView {
        RequestView::LoadImageIcon { hinst, id, cx: px, cy: px, load: LR(LR::DEFAULTCOLOR) }
    }

    /// The request that gives the dialog the icon `hicon` in the place `size`.
    pub open spec fn send_icon(self, hicon: HICON, size: u8) -> RequestView {
        RequestView::SendMessage {
            hwnd: self.hwnd,
            msg: (WmSetIcon { hicon, size: ICON_SZ(size) }).wm(),
        }
    }

    /// The dialog and the step after the setting of its icons was begun.
    ///
    /// A dialog without an icon is done at once. One with an icon has it
    /// loaded from the module `hinst`, first in 16 by 16 pixels.
    pub open spec fn set_icon_if_any(self, hinst: HINSTANCE) -> (DialogMainView, StepView<()>) {
        match self.icon_id {
            Some(id) => (
                DialogMainView { running: Running::LoadingSmallIcon, ..self },
                StepView::Ask(Self::load_icon(hinst, id, 16)),
            ),
            None => (self, StepView::Done(Ok(()))),
        }
    }

    /// Whether `reply` is an answer to what the setting of the icons asked
    /// last.
    pub open spec fn icon_expects(self, reply: Reply) -> bool {
        reply.well_formed() && self.icon_id is Some && match self.running {
            Running::LoadingSmallIcon => reply is Hicon,
            Running::SettingSmallIcon => reply is Ret,
            Running::LoadingBigIcon => reply is Hicon,
            Running::SettingBigIcon => reply is Ret,
            _ => false,
        }
    }

    /// The dialog and the step after `reply` came in while its icons were
    /// being set: each icon is sent to the dialog as soon as it is loaded,
    /// the small one as the small icon, then the one of 32 by 32 pixels as
    /// the big icon. An icon that cannot be loaded ends the task with the
    /// error.
    pub open spec fn set_icon_resume(self, hinst: HINSTANCE, reply: Reply) -> (
        DialogMainView,
        StepView<()>,
    )
        recommends
            self.icon_expects(reply),
    {
        match (self.running, reply) {
            (Running::LoadingSmallIcon, Reply::Hicon(Ok(hicon))) => (
                DialogMainView { running: Running::SettingSmallIcon, ..self },
                StepView::Ask(self.send_icon(hicon, ICON_SZ::SMALL)),
            ),
            (Running::SettingSmallIcon, Reply::Ret(_)) => (
                DialogMainView { running: Running::LoadingBigIcon, ..self },
                StepView::Ask(Self::load_icon(hinst, self.icon_id->Some_0, 32)),
            ),
            (Running::LoadingBigIcon, Reply::Hicon(Ok(hicon))) => (
                DialogMainView { running: Running::SettingBigIcon, ..self },
                StepView::Ask(self.send_icon(hicon, ICON_SZ::BIG)),
            ),
            (Running::SettingBigIcon, Reply::Ret(_)) => (
                DialogMainView { running: Running::Idle, ..self },
                StepView::Done(Ok(())),
            ),
            (_, Reply::Hicon(Err(e))) => (
                DialogMainView { running: Running::Idle, ..self },
                StepView::Done(Err(e)),
            ),
            _ => (self, StepView::Done(Ok(()))),
        }
    }

    /// The dialog and the step after its run was begun: the dialog is asked
    /// for, as a window without a parent. It will be shown as `cmd_show`
    /// says, and simply shown where that says nothing.
    pub open spec fn run_main(self, cmd_show: Option<SW>) -> (DialogMainView, StepView<i32>) {
        (
            DialogMainView {
                running: Running::CreatingDialog,
                cmd_show: match cmd_show {
                    Some(cmd) => cmd,
                    None => SW(SW::SHOW),
                },
                haccel: None,
                ..self
            },
            StepView::Ask(
                RequestView::CreateDialogParam { dialog_id: self.dialog_id, owner: self.owner },
            ),
        )
    }

    /// Whether `reply` is an answer to what the run asked last.
    pub open spec fn run_expects(self, reply: Reply) -> bool {
        reply.well_formed() && match self.running {
            Running::Idle => false,
            Running::CreatingDialog => reply is Hwnd,
            Running::AskingInstance => reply is Hinstance,
            Running::LoadingAccel => reply is Haccel,
            Running::Showing => reply is Shown,
            Running::Looping => reply is Exit,
            _ => self.icon_expects(reply),
        }
    }

    /// The dialog and the step once the dialog is told to show itself.
    pub open spec fn show(self) -> (DialogMainView, StepView<i32>) {
        (
            DialogMainView { running: Running::Showing, ..self },
            StepView::Ask(RequestView::ShowWindow { hwnd: self.hwnd, cmd: self.cmd_show }),
        )
    }

    /// The run goes on with what the setting of the icons asks, ends with
    /// its error, or, once the icons are set, has the dialog shown.
    pub open spec fn after_icon(icon: (DialogMainView, StepView<()>)) -> (
        DialogMainView,
        StepView<i32>,
    ) {
        match icon.1 {
            StepView::Ask(q) => (icon.0, StepView::Ask(q)),
            StepView::Done(Err(e)) => (icon.0, StepView::Done(Err(e))),
            StepView::Done(Ok(_)) => icon.0.show(),
        }
    }

    /// The dialog and the step after `reply` came in during the run.
    ///
    /// In this order: the dialog is created; its module is asked for; the
    /// accelerator table is loaded, if the dialog has one; the icons are
    /// set, if it has one; the dialog is shown; the message loop runs, with
    /// the accelerator table, and its exit code is the result. The first
    /// error ends the run and is the result.
    pub open spec fn run_main_resume(self, reply: Reply) -> (DialogMainView, StepView<i32>)
        recommends
            self.run_expects(reply),
    {
        match (self.running, reply) {
            (Running::CreatingDialog, Reply::Hwnd(Ok(hwnd))) => (
                DialogMainView { hwnd, running: Running::AskingInstance, ..self },
                StepView::Ask(RequestView::ParentHinstance { hwnd }),
            ),
            (Running::CreatingDialog, Reply::Hwnd(Err(e))) => (
                DialogMainView { running: Running::Idle, ..self },
                StepView::Done(Err(e)),
            ),
            (Running::AskingInstance, Reply::Hinstance(Ok(hinst))) => match self.accel_table_id {
                Some(id) => (
                    DialogMainView { hinst, running: Running::LoadingAccel, ..self },
                    StepView::Ask(RequestView::LoadAccelerators { hinst, id }),
                ),
                None => Self::after_icon((DialogMainView { hinst, ..self }).set_icon_if_any(hinst)),
            },
            (Running::AskingInstance, Reply::Hinstance(Err(e))) => (
                DialogMainView { running: Running::Idle, ..self },
                StepView::Done(Err(e)),
            ),
            (Running::LoadingAccel, Reply::Haccel(Ok(haccel))) => Self::after_icon(
                (DialogMainView { haccel: Some(haccel), ..self }).set_icon_if_any(self.hinst),
            ),
            (Running::LoadingAccel, Reply::Haccel(Err(e))) => (
                DialogMainView { running: Running::Idle, ..self },
                StepView::Done(Err(e)),
            ),
            (Running::Showing, Reply::Shown(_)) => (
                DialogMainView { running: Running::Looping, ..self },
                StepView::Ask(RequestView::RunLoop { hwnd: self.hwnd, haccel: self.haccel }),
            ),
            (Running::Looping, Reply::Exit(code)) => (
                DialogMainView { running: Running::Idle, ..self },
                StepView::Done(code),
            ),
            _ => Self::after_icon(self.set_icon_resume(self.hinst, reply)),
        }
    }

    /// An upper bound on the answers that the run still takes.
    pub open spec fn exchanges_left(self) -> nat {
        match self.running {
            Running::Idle => 0,
            Running::CreatingDialog => 9,
            Running::AskingInstance => 8,
            Running::LoadingAccel => 7,
            Running::LoadingSmallIcon => 6,
            Running::SettingSmallIcon => 5,
            Running::LoadingBigIcon => 4,
            Running::SettingBigIcon => 3,
            Running::Showing => 2,
            Running::Looping => 1,
        }
    }

    /// Whether the state after a step fits the step: a run that has ended
    /// is idle, and one that asks something expects every answer of the
    /// kind that its request is answered with.
    pub open spec fn fits(self, step: StepView<i32>) -> bool {
        match step {
            StepView::Ask(q) => forall|reply: Reply| #[trigger]
                reply.answers(q) ==> self.run_expects(reply),
            StepView::Done(_) => self.running == Running::Idle,
        }
    }

    /// The run can always begin and then go on: its first step asks for the
    /// dialog, and every answer to that is expected.
    pub proof fn lemma_run_main_goes_on(self, cmd_show: Option<SW>)
        ensures
            self.run_main(cmd_show).1 is Ask,
            self.run_main(cmd_show).0.fits(self.run_main(cmd_show).1),
    {
    }

    /// The run can always go on until it ends, and it ends: after every
    /// expected answer the state fits the step, and fewer answers are still
    /// to come than before.
    pub proof fn lemma_run_main_resume_goes_on(self, reply: Reply)
        requires
            self.run_expects(reply),
        ensures
            self.run_main_resume(reply).0.fits(self.run_main_resume(reply).1),
            self.run_main_resume(reply).0.exchanges_left() < self.exchanges_left(),
    {
    }

    /// A step of the run changes nothing of what the dialog was made with:
    /// its resource, its handlers, its controls, its icon and accelerator
    /// resources, and how it is to be shown.
    pub proof fn lemma_run_main_resume_keeps(self, reply: Reply)
        requires
            self.run_expects(reply),
        ensures
            ({
                let next = self.run_main_resume(reply).0;
                next == (DialogMainView {
                    hwnd: next.hwnd,
                    running: next.running,
                    hinst: next.hinst,
                    haccel: next.haccel,
                    ..self
                })
            }),
    {
    }

    /// Whether the dialog's handle agrees with how far its run has come:
    /// the dialog has no window while it is asked for, and has one from
    /// then on.
    pub open spec fn consistent(self) -> bool {
        match self.running {
            Running::Idle => true,
            Running::CreatingDialog => self.hwnd == HWND(0),
            _ => self.hwnd != HWND(0),
        }
    }

    /// A run that is begun on a dialog without a window starts out
    /// consistent.
    pub proof fn lemma_run_main_is_consistent(self, cmd_show: Option<SW>)
        requires
            self.hwnd == HWND(0),
        ensures
            self.run_main(cmd_show).0.consistent(),
    {
    }

    /// Every step keeps the run consistent. So a run that ends with an exit
    /// code leaves the dialog with the window that it ran in, and whenever a
    /// request names the dialog's window, the window exists.
    pub proof fn lemma_run_main_resume_is_consistent(self, reply: Reply)
        requires
            self.consistent(),
            self.run_expects(reply),
        ensures
            self.run_main_resume(reply).0.consistent(),
            self.run_main_resume(reply).1 is Done && self.run_main_resume(reply).1->Done_0 is Ok
                ==> self.run_main_resume(reply).0.hwnd != HWND(0),
            self.run_main_resume(reply).1 is Ask ==> self.run_main_resume(reply).0.hwnd != HWND(
                0,
            ),
    {
    }

    /// The whole run of a dialog that has an accelerator table and an icon,
    /// where the system does all that is asked: which requests are made, in
    /// which order, and that the exit code of the message loop is the
    /// result.
    pub proof fn lemma_run_main_in_full(
        self,
        cmd_show: Option<SW>,
        hwnd: HWND,
        hinst: HINSTANCE,
        haccel: HACCEL,
        small: HICON,
        big: HICON,
        ret_small: isize,
        ret_big: isize,
        was_visible: bool,
        code: Result<i32, ERROR>,
    )
        requires
            self.accel_table_id is Some,
            self.icon_id is Some,
        ensures
            ({
                let accel_id = self.accel_table_id->Some_0;
                let icon_id = self.icon_id->Some_0;
                let cmd = match cmd_show {
                    Some(cmd) => cmd,
                    None => SW(SW::SHOW),
                };
                let s0 = self.run_main(cmd_show);
                let s1 = s0.0.run_main_resume(Reply::Hwnd(Ok(hwnd)));
                let s2 = s1.0.run_main_resume(Reply::Hinstance(Ok(hinst)));
                let s3 = s2.0.run_main_resume(Reply::Haccel(Ok(haccel)));
                let s4 = s3.0.run_main_resume(Reply::Hicon(Ok(small)));
                let s5 = s4.0.run_main_resume(Reply::Ret(ret_small));
                let s6 = s5.0.run_main_resume(Reply::Hicon(Ok(big)));
                let s7 = s6.0.run_main_resume(Reply::Ret(ret_big));
                let s8 = s7.0.run_main_resume(Reply::Shown(was_visible));
                let s9 = s8.0.run_main_resume(Reply::Exit(code));
                &&& s0.1 == StepView::<i32>::Ask(
                    RequestView::CreateDialogParam { dialog_id: self.dialog_id, owner: self.owner },
                )
                &&& s1.1 == StepView::<i32>::Ask(RequestView::ParentHinstance { hwnd })
                &&& s2.1 == StepView::<i32>::Ask(
                    RequestView::LoadAccelerators { hinst, id: accel_id },
                )
                &&& s3.1 == StepView::<i32>::Ask(Self::load_icon(hinst, icon_id, 16))
                &&& s4.1 == StepView::<i32>::Ask(
                    RequestView::SendMessage {
                        hwnd,
                        msg: (WmSetIcon { hicon: small, size: ICON_SZ(ICON_SZ::SMALL) }).wm(),
                    },
                )
                &&& s5.1 == StepView::<i32>::Ask(Self::load_icon(hinst, icon_id, 32))
                &&& s6.1 == StepView::<i32>::Ask(
                    RequestView::SendMessage {
                        hwnd,
                        msg: (WmSetIcon { hicon: big, size: ICON_SZ(ICON_SZ::BIG) }).wm(),
                    },
                )
                &&& s7.1 == StepView::<i32>::Ask(RequestView::ShowWindow { hwnd, cmd })
                &&& s8.1 == StepView::<i32>::Ask(
                    RequestView::RunLoop { hwnd, haccel: Some(haccel) },
                )
                &&& s9.1 == StepView::Done(code)
                &&& s9.0 == (DialogMainView {
                    hwnd,
                    hinst,
                    haccel: Some(haccel),
                    cmd_show: cmd,
                    running: Running::Idle,
                    ..self
                })
            }),
    {
    }

    /// The whole run of a dialog that has neither an accelerator table nor
    /// an icon, where the system does all that is asked: the dialog is
    /// created, its module asked for, the dialog shown and the loop run
    /// without accelerators.
    pub proof fn lemma_run_main_bare(
        self,
        cmd_show: Option<SW>,
        hwnd: HWND,
        hinst: HINSTANCE,
        was_visible: bool,
        code: Result<i32, ERROR>,
    )
        requires
            self.accel_table_id is None,
            self.icon_id is None,
        ensures
            ({
                let cmd = match cmd_show {
                    Some(cmd) => cmd,
                    None => SW(SW::SHOW),
                };
                let s0 = self.run_main(cmd_show);
                let s1 = s0.0.run_main_resume(Reply::Hwnd(Ok(hwnd)));
                let s2 = s1.0.run_main_resume(Reply::Hinstance(Ok(hinst)));
                let s3 = s2.0.run_main_resume(Reply::Shown(was_visible));
                let s4 = s3.0.run_main_resume(Reply::Exit(code));
                &&& s1.1 == StepView::<i32>::Ask(RequestView::ParentHinstance { hwnd })
                &&& s2.1 == StepView::<i32>::Ask(RequestView::ShowWindow { hwnd, cmd })
                &&& s3.1 == StepView::<i32>::Ask(RequestView::RunLoop { hwnd, haccel: None })
                &&& s4.1 == StepView::Done(code)
            }),
    {
    }
}

impl DialogMain {
    /// A main dialog made from the resource `dialog_id`, with the icon and
    /// the accelerator table of the given resources, if any. It is not
    /// created yet, and has the handlers that every main dialog has.
    pub fn new(dialog_id: i32, icon_id: Option<i32>, accel_table_id: Option<i32>) -> (r:
        DialogMain)
        ensures
            r@ == (DialogMainView {
                hwnd: HWND(0),
                owner: None,
                dialog_id,
                events: DialogMainView::default_message_handlers(),
                children: Seq::empty(),
                icon_id,
                accel_table_id,
                running: Running::Idle,
                cmd_show: SW(SW::SHOW),
                hinst: HINSTANCE(0),
                haccel: None,
            }),
    {
        let mut dlg = DialogMain {
            base: DialogBase::new(None, dialog_id),
            icon_id,
            accel_table_id,
            running: Running::Idle,
            cmd_show: SW(SW::SHOW),
            hinst: HINSTANCE(0),
            haccel: None,
        };
        dlg.default_message_handlers();
        dlg
    }

    /// Registers the handlers that every main dialog has, after those that
    /// are registered already.
    fn default_message_handlers(&mut self)
        ensures
            final(self)@ == (DialogMainView {
                events: old(self)@.events + DialogMainView::default_message_handlers(),
                ..old(self)@
            }),
    {
        self.base.events.wm_close(Reaction::DestroyWindow);
        self.base.events.wm_nc_destroy(Reaction::PostQuitMessage(0));
        assert(self.base.events@ =~= old(self).base.events@
            + DialogMainView::default_message_handlers());
    }

    /// The controls that are to be created together with the dialog, in
    /// the order in which they were announced.
    pub fn children(&self) -> (r: &Vec<u16>)
        ensures
            r@ == self@.children,
    {
        &self.base.children
    }

    /// Exposes the dialog's handlers, to register more.
    pub fn events_mut(&mut self) -> (r: &mut MsgEvents)
        ensures
            r@ == old(self)@.events,
            final(self)@ == (DialogMainView { events: final(r)@, ..old(self)@ }),
    {
        &mut self.base.events
    }

    /// Whether `reply` is an answer to what the setting of the icons asked
    /// last.
    pub fn icon_expects(&self, reply: &Reply) -> (b: bool)
        ensures
            b == self@.icon_expects(*reply),
    {
        reply.is_well_formed() && self.icon_id.is_some() && match (self.running, reply) {
            (Running::LoadingSmallIcon, Reply::Hicon(_)) => true,
            (Running::SettingSmallIcon, Reply::Ret(_)) => true,
            (Running::LoadingBigIcon, Reply::Hicon(_)) => true,
            (Running::SettingBigIcon, Reply::Ret(_)) => true,
            _ => false,
        }
    }

    /// Whether `reply` is an answer to what the run asked last.
    pub fn run_expects(&self, reply: &Reply) -> (b: bool)
        ensures
            b == self@.run_expects(*reply),
    {
        match (self.running, reply) {
            (Running::Idle, _) => false,
            (Running::CreatingDialog, Reply::Hwnd(_)) => reply.is_well_formed(),
            (Running::AskingInstance, Reply::Hinstance(_)) => reply.is_well_formed(),
            (Running::LoadingAccel, Reply::Haccel(_)) => reply.is_well_formed(),
            (Running::Showing, Reply::Shown(_)) => true,
            (Running::Looping, Reply::Exit(_)) => true,
            (Running::CreatingDialog, _) => false,
            (Running::AskingInstance, _) => false,
            (Running::LoadingAccel, _) => false,
            (Running::Showing, _) => false,
            (Running::Looping, _) => false,
            _ => self.icon_expects(reply),
        }
    }

    /// How far the run has come.
    pub fn running(&self) -> (r: Running)
        ensures
            r == self@.running,
    {
        self.running
    }

    /// Begins to give the dialog its icons, loaded from the module `hinst`,
    /// and says what to ask of the system first, or that nothing is to be
    /// done.
    pub fn set_icon_if_any(&mut self, hinst: HINSTANCE) -> (step: Step<()>)
        ensures
            (final(self)@, step@) == old(self)@.set_icon_if_any(hinst),
    {
        match self.icon_id {
            Some(id) => {
                self.running = Running::LoadingSmallIcon;
                Step::Ask(Self::load_icon(hinst, id, 16))
            },
            None => Step::Done(Ok(())),
        }
    }

    /// Takes the system's answer to the last request made for the icons,
    /// and says what to ask next or how the task ended.
    pub fn set_icon_resume(&mut self, hinst: HINSTANCE, reply: Reply) -> (step: Step<()>)
        requires
            old(self)@.icon_expects(reply),
        ensures
            (final(self)@, step@) == old(self)@.set_icon_resume(hinst, reply),
    {
        match (self.running, reply, self.icon_id) {
            (Running::LoadingSmallIcon, Reply::Hicon(Ok(hicon)), _) => {
                self.running = Running::SettingSmallIcon;
                Step::Ask(self.send_icon(hicon, ICON_SZ(ICON_SZ::SMALL)))
            },
            (Running::SettingSmallIcon, Reply::Ret(_), Some(id)) => {
                self.running = Running::LoadingBigIcon;
                Step::Ask(Self::load_icon(hinst, id, 32))
            },
            (Running::LoadingBigIcon, Reply::Hicon(Ok(hicon)), _) => {
                self.running = Running::SettingBigIcon;
                Step::Ask(self.send_icon(hicon, ICON_SZ(ICON_SZ::BIG)))
            },
            (Running::SettingBigIcon, Reply::Ret(_), _) => {
                self.running = Running::Idle;
                Step::Done(Ok(()))
            },
            (_, Reply::Hicon(Err(e)), _) => {
                self.running = Running::Idle;
                Step::Done(Err(e))
            },
            _ => Step::Done(Ok(())),
        }
    }

    /// Begins the run of the dialog as the program's main window, and says
    /// what to ask of the system first. The run ends when the dialog is
    /// closed.
    ///
    /// The dialog must not be created yet, and no run may be under way.
    pub fn run_main(&mut self, cmd_show: Option<SW>) -> (step: Step<i32>)
        requires
            old(self)@.hwnd == HWND(0),
            old(self)@.running == Running::Idle,
        ensures
            (final(self)@, step@) == old(self)@.run_main(cmd_show),
    {
        self.running = Running::CreatingDialog;
        self.cmd_show = match cmd_show {
            Some(cmd) => cmd,
            None => SW(SW::SHOW),
        };
        self.haccel = None;
        Step::Ask(
            Request::CreateDialogParam { dialog_id: self.base.dialog_id, owner: self.base.hparent },
        )
    }

    /// Takes the system's answer to the last request of the run, and says
    /// what to ask next or how the run ended.
    pub fn run_main_resume(&mut self, reply: Reply) -> (step: Step<i32>)
        requires
            old(self)@.run_expects(reply),
        ensures
            (final(self)@, step@) == old(self)@.run_main_resume(reply),
    {
        match (self.running, reply) {
            (Running::CreatingDialog, Reply::Hwnd(Ok(hwnd))) => {
                self.base.hwnd = hwnd;
                self.running = Running::AskingInstance;
                Step::Ask(Request::ParentHinstance { hwnd })
            },
            (Running::AskingInstance, Reply::Hinstance(Ok(hinst))) => {
                self.hinst = hinst;
                match self.accel_table_id {
                    Some(id) => {
                        self.running = Running::LoadingAccel;
                        Step::Ask(Request::LoadAccelerators { hinst, id })
                    },
                    None => {
                        let icon = self.set_icon_if_any(hinst);
                        self.after_icon(icon)
                    },
                }
            },
            (Running::LoadingAccel, Reply::Haccel(Ok(haccel))) => {
                self.haccel = Some(haccel);
                let icon = self.set_icon_if_any(self.hinst);
                self.after_icon(icon)
            },
            (Running::Showing, Reply::Shown(_)) => {
                self.running = Running::Looping;
                Step::Ask(Request::RunLoop { hwnd: self.base.hwnd, haccel: self.haccel })
            },
            (Running::Looping, Reply::Exit(code)) => {
                self.running = Running::Idle;
                Step::Done(code)
            },
            (Running::CreatingDialog, Reply::Hwnd(Err(e))) => {
                self.running = Running::Idle;
                Step::Done(Err(e))
            },
            (Running::AskingInstance, Reply::Hinstance(Err(e))) => {
                self.running = Running::Idle;
                Step::Done(Err(e))
            },
            (Running::LoadingAccel, Reply::Haccel(Err(e))) => {
                self.running = Running::Idle;
                Step::Done(Err(e))
            },
            _ => {
                let icon = self.set_icon_resume(self.hinst, reply);
                self.after_icon(icon)
            },
        }
    }

    /// Goes on with the run after a step of the setting of the icons.
    fn after_icon(&mut self, icon: Step<()>) -> (step: Step<i32>)
        ensures
            (final(self)@, step@) == DialogMainView::after_icon((old(self)@, icon@)),
    {
        match icon {
            Step::Ask(q) => Step::Ask(q),
            Step::Done(Err(e)) => Step::Done(Err(e)),
            Step::Done(Ok(_)) => {
                self.running = Running::Showing;
                Step::Ask(Request::ShowWindow { hwnd: self.base.hwnd, cmd: self.cmd_show })
            },
        }
    }

    fn load_icon(hinst: HINSTANCE, id: i32, px: i32) -> (r: Request)
        ensures
            r@ == DialogMainView::load_icon(hinst, id, px),
    {
        Request::LoadImageIcon { hinst, id, cx: px, cy: px, load: LR(LR::DEFAULTCOLOR) }
    }

    fn send_icon(&self, hicon: HICON, size: ICON_SZ) -> (r: Request)
        ensures
            r@ == self@.send_icon(hicon, size.0),
    {
        Request::SendMessage {
            hwnd: *self.hwnd_ref(),
            msg: (WmSetIcon { hicon, size }).as_generic_wm(),
        }
    }
}

} // verus!
