//! The radio button: an ordinary button with a style of its own.

use vstd::prelude::*;
use crate::co::{BN, BS, BST, ERROR, WM, WS, WS_EX};
use crate::gui::events::{ButtonEvents, MsgEvents, Reaction};
use crate::gui::globals::AutoCtrlId;
use crate::gui::native_controls::opts_id::OptsId;
use crate::gui::traits::{Child, Parent};
use crate::handles::{HFONT, HWND};
use crate::msg::{BmClick, BmGetCheck, BmSetCheck, BmSetDontClick, WmSetFont};
use crate::structs::{POINT, SIZE};
use crate::sys::{done_or_error, Reply, Request, RequestView, Step, StepView};

verus! {

/// How far the creation of a control has come: what was asked of the system
/// last and is not answered yet.
#[derive(Clone, Copy, Debug, PartialEq, Eq, Structural)]
pub enum Creating {
    /// Nothing is under way.
    Idle,
    /// The extent of the text was asked for.
    Measuring,
    /// The window was asked for.
    Building,
    /// The interface font was asked for.
    AskingFont,
    /// The font was sent to the new window.
    SettingFont,
    /// The control was looked up in the dialog.
    Attaching,
    /// The last message of the creation was sent.
    Finishing,
}

/// Native radio button control.
///
/// It is a variation of the ordinary button: a button with a specific style.
#[derive(Debug)]
pub struct RadioButton {
    opts_id: OptsId<RadioButtonOpts>,
    hctrl: HWND,
    hparent: HWND,
    events: ButtonEvents,
    subclass_events: MsgEvents,
    creating: Creating,
}

/// The options or the dialog identifier of a radio button, as plain values.
pub ghost enum RadioButtonOptsIdView {
    Wnd(RadioButtonOptsView),
    Dlg(u16),
}

/// A radio button as plain values.
pub ghost struct RadioButtonView {
    /// What the button is made from.
    pub opts_id: RadioButtonOptsIdView,
    /// The button's handle; null until it is created.
    pub hctrl: HWND,
    /// The parent's handle as the button was last given it: when it was
    /// made, or when its creation was begun.
    pub hparent: HWND,
    /// The control whose notifications the handlers are registered for.
    pub events_ctrl_id: u16,
    /// The handlers for the button's notifications.
    pub events: Seq<(BN, u32)>,
    /// The handlers of the button's own window procedure.
    pub subclass_events: Seq<(WM, Reaction)>,
    /// How far the creation has come.
    pub creating: Creating,
}

impl View for RadioButton {
    type V = RadioButtonView;

    closed spec fn view(&self) -> RadioButtonView {
        RadioButtonView {
            opts_id: match self.opts_id {
                OptsId::Wnd(opts) => RadioButtonOptsIdView::Wnd(opts@),
                OptsId::Dlg(ctrl_id) => RadioButtonOptsIdView::Dlg(ctrl_id),
            },
            hctrl: self.hctrl,
            hparent: self.hparent,
            events_ctrl_id: self.events.spec_ctrl_id(),
            events: self.events.cmds(),
            subclass_events: self.subclass_events@,
            creating: self.creating,
        }
    }
}

impl Child for RadioButton {
    open spec fn spec_hctrl(&self) -> HWND {
        self@.hctrl
    }

    fn hctrl_ref(&self) -> (r: &HWND) {
        &self.hctrl
    }
}

impl RadioButtonView {
    /// The control identifier: that of the options, or that of the dialog
    /// resource.
    pub open spec fn ctrl_id(self) -> u16 {
        match self.opts_id {
            RadioButtonOptsIdView::Wnd(opts) => opts.ctrl_id,
            RadioButtonOptsIdView::Dlg(ctrl_id) => ctrl_id,
        }
    }

    /// Whether the control is subclassed when it is created: it is if at
    /// least one subclass handler is registered.
    pub open spec fn subclassed(self) -> bool {
        self.subclass_events.len() > 0
    }

    /// The message that ends every creation: the button is told not to
    /// check itself when it merely gains the focus.
    pub open spec fn ask_dont_click(hctrl: HWND) -> StepView<()> {
        StepView::Ask(
            RequestView::SendMessage { hwnd: hctrl, msg: (BmSetDontClick { dont_click: true }).wm() },
        )
    }

    /// The button and the step after its creation was begun inside the
    /// created window `hparent`.
    ///
    /// A button with options has its text measured first; one of a dialog is
    /// looked up in the dialog, and subclassed if it has a subclass handler.
    pub open spec fn create(self, hparent: HWND) -> (RadioButtonView, StepView<()>) {
        match self.opts_id {
            RadioButtonOptsIdView::Wnd(opts) => (
                RadioButtonView { hparent, creating: Creating::Measuring, ..self },
                StepView::Ask(RequestView::CalcTextBoundBoxCheck { text: opts.text }),
            ),
            RadioButtonOptsIdView::Dlg(ctrl_id) => (
                RadioButtonView { hparent, creating: Creating::Attaching, ..self },
                StepView::Ask(
                    RequestView::GetDlgItem { hdlg: hparent, ctrl_id, subclass: self.subclassed() },
                ),
            ),
        }
    }

    /// Whether `reply` is an answer to what the creation asked last: it is
    /// well formed and of the kind that was asked for.
    pub open spec fn expects(self, reply: Reply) -> bool {
        reply.well_formed() && match self.creating {
            Creating::Idle => false,
            Creating::Measuring => self.opts_id is Wnd && reply is Size,
            Creating::Building => self.opts_id is Wnd && reply is Hwnd,
            Creating::AskingFont => reply is Hfont,
            Creating::SettingFont => reply is Ret,
            Creating::Attaching => reply is Hwnd,
            Creating::Finishing => reply is Ret,
        }
    }

    /// The window that is asked for once the text was measured as `size`:
    /// a `BUTTON` with the options' text, position, identifier and extended
    /// style, whose style is the window style together with the button
    /// style, subclassed if the button has a subclass handler.
    pub open spec fn window_request(self, size: SIZE) -> RequestView
        recommends
            self.opts_id is Wnd,
    {
        let opts = self.opts_id->Wnd_0;
        RequestView::CreateWindowEx {
            class_name: "BUTTON"@,
            title: Some(opts.text),
            pos: opts.pos,
            size,
            hparent: self.hparent,
            ctrl_id: opts.ctrl_id,
            ex_style: opts.ex_window_style,
            style: WS(opts.window_style.0 | opts.button_style.0),
            subclass: self.subclassed(),
        }
    }

    /// The button and the step after `reply` came in.
    ///
    /// An error ends the creation with that error and leaves the button as
    /// it was before the creation began, but for the parent's handle. The
    /// handle of the new window is kept as soon as the system gives it.
    pub open spec fn create_resume(self, reply: Reply) -> (RadioButtonView, StepView<()>)
        recommends
            self.expects(reply),
    {
        match (self.creating, reply) {
            (Creating::Measuring, Reply::Size(Ok(size))) => (
                RadioButtonView { creating: Creating::Building, ..self },
                StepView::Ask(self.window_request(size)),
            ),
            (Creating::Measuring, Reply::Size(Err(e))) => (
                RadioButtonView { creating: Creating::Idle, ..self },
                StepView::Done(Err(e)),
            ),
            (Creating::Building, Reply::Hwnd(Ok(h))) => (
                RadioButtonView { hctrl: h, creating: Creating::AskingFont, ..self },
                StepView::Ask(RequestView::UiFont),
            ),
            (Creating::Building, Reply::Hwnd(Err(e))) => (
                RadioButtonView { creating: Creating::Idle, ..self },
                StepView::Done(Err(e)),
            ),
            (Creating::AskingFont, Reply::Hfont(hfont)) => (
                RadioButtonView { creating: Creating::SettingFont, ..self },
                StepView::Ask(
                    RequestView::SendMessage {
                        hwnd: self.hctrl,
                        msg: (WmSetFont { hfont, redraw: true }).wm(),
                    },
                ),
            ),
            (Creating::SettingFont, Reply::Ret(_)) => (
                RadioButtonView { creating: Creating::Finishing, ..self },
                Self::ask_dont_click(self.hctrl),
            ),
            (Creating::Attaching, Reply::Hwnd(Ok(h))) => (
                RadioButtonView { hctrl: h, creating: Creating::Finishing, ..self },
                Self::ask_dont_click(h),
            ),
            (Creating::Attaching, Reply::Hwnd(Err(e))) => (
                RadioButtonView { creating: Creating::Idle, ..self },
                StepView::Done(Err(e)),
            ),
            (Creating::Finishing, Reply::Ret(_)) => (
                RadioButtonView { creating: Creating::Idle, ..self },
                StepView::Done(Ok(())),
            ),
            _ => (self, StepView::Done(Ok(()))),
        }
    }

    /// An upper bound on the answers that the creation still takes.
    pub open spec fn exchanges_left(self) -> nat {
        match self.creating {
            Creating::Idle => 0,
            Creating::Measuring => 5,
            Creating::Building => 4,
            Creating::AskingFont => 3,
            Creating::SettingFont => 2,
            Creating::Attaching => 2,
            Creating::Finishing => 1,
        }
    }

    /// Whether the state after a step fits the step: a creation that has
    /// ended is idle, and one that asks something expects every answer of
    /// the kind that its request is answered with.
    pub open spec fn fits(self, step: StepView<()>) -> bool {
        match step {
            StepView::Ask(q) => forall|reply: Reply| #[trigger] reply.answers(q) ==> self.expects(reply),
            StepView::Done(_) => self.creating == Creating::Idle,
        }
    }

    /// The creation can always begin and then go on: its first step asks
    /// something, and every answer to that is expected.
    pub proof fn lemma_create_goes_on(self, hparent: HWND)
        ensures
            self.create(hparent).1 is Ask,
            self.create(hparent).0.fits(self.create(hparent).1),
    {
    }

    /// The creation can always go on until it ends, and it ends: after
    /// every expected answer the state fits the step, and fewer answers are
    /// still to come than before.
    pub proof fn lemma_create_resume_goes_on(self, reply: Reply)
        requires
            self.expects(reply),
        ensures
            self.create_resume(reply).0.fits(self.create_resume(reply).1),
            self.create_resume(reply).0.exchanges_left() < self.exchanges_left(),
    {
    }

    /// All that a step of the creation changes of the button is its handle
    /// and how far the creation has come; and the handle changes only when
    /// the system gives the window.
    pub proof fn lemma_create_resume_keeps(self, reply: Reply)
        requires
            self.expects(reply),
        ensures
            self.create_resume(reply).0 == (RadioButtonView {
                hctrl: self.create_resume(reply).0.hctrl,
                creating: self.create_resume(reply).0.creating,
                ..self
            }),
            self.create_resume(reply).0.hctrl != self.hctrl ==> reply == Reply::Hwnd(
                Ok(self.create_resume(reply).0.hctrl),
            ),
            self.create_resume(reply).1 is Done && self.create_resume(reply).1->Done_0 is Err
                ==> self.create_resume(reply).0.hctrl == self.hctrl,
    {
    }

    /// Whether the button's handle agrees with how far its creation has
    /// come: the button has no window before the system gave one, and has
    /// one from then on.
    pub open spec fn consistent(self) -> bool {
        match self.creating {
            Creating::Idle => true,
            Creating::Measuring => self.opts_id is Wnd && self.hctrl == HWND(0),
            Creating::Building => self.opts_id is Wnd && self.hctrl == HWND(0),
            Creating::Attaching => self.hctrl == HWND(0),
            Creating::AskingFont => self.hctrl != HWND(0),
            Creating::SettingFont => self.hctrl != HWND(0),
            Creating::Finishing => self.hctrl != HWND(0),
        }
    }

    /// A creation that is begun on a button without a window starts out
    /// consistent.
    pub proof fn lemma_create_is_consistent(self, hparent: HWND)
        requires
            self.hctrl == HWND(0),
        ensures
            self.create(hparent).0.consistent(),
    {
    }

    /// Every step keeps the creation consistent. So a creation that ends
    /// well leaves the button with a window, and one that fails leaves it
    /// without.
    pub proof fn lemma_create_resume_is_consistent(self, reply: Reply)
        requires
            self.consistent(),
            self.expects(reply),
        ensures
            self.create_resume(reply).0.consistent(),
            self.create_resume(reply).1 is Done && self.create_resume(reply).1->Done_0 is Ok
                ==> self.create_resume(reply).0.hctrl != HWND(0),
            self.create_resume(reply).1 is Done && self.create_resume(reply).1->Done_0 is Err
                ==> self.create_resume(reply).0.hctrl == HWND(0),
    {
    }

    /// A creation from options in which the system does all that is asked
    /// ends well after five answers, with the handle of the window that the
    /// system made, and changes nothing else of the button but the parent's
    /// handle.
    pub proof fn lemma_create_from_options(
        self,
        hparent: HWND,
        size: SIZE,
        hctrl: HWND,
        hfont: HFONT,
        ret_font: isize,
        ret_dont_click: isize,
    )
        requires
            self.opts_id is Wnd,
            self.creating == Creating::Idle,
        ensures
            ({
                let s1 = self.create(hparent).0;
                let s2 = s1.create_resume(Reply::Size(Ok(size))).0;
                let s3 = s2.create_resume(Reply::Hwnd(Ok(hctrl))).0;
                let s4 = s3.create_resume(Reply::Hfont(hfont)).0;
                let s5 = s4.create_resume(Reply::Ret(ret_font)).0;
                let end = s5.create_resume(Reply::Ret(ret_dont_click));
                &&& end.1 == StepView::Done(Ok::<(), ERROR>(()))
                &&& end.0 == (RadioButtonView { hctrl, hparent, ..self })
            }),
    {
    }

    /// A creation in a dialog in which the system does all that is asked
    /// ends well after two answers, with the handle of the control that the
    /// system found, and changes nothing else of the button but the parent's
    /// handle.
    pub proof fn lemma_create_in_dialog(self, hparent: HWND, hctrl: HWND, ret_dont_click: isize)
        requires
            self.opts_id is Dlg,
            self.creating == Creating::Idle,
        ensures
            ({
                let s1 = self.create(hparent).0;
                let s2 = s1.create_resume(Reply::Hwnd(Ok(hctrl))).0;
                let end = s2.create_resume(Reply::Ret(ret_dont_click));
                &&& end.1 == StepView::Done(Ok::<(), ERROR>(()))
                &&& end.0 == (RadioButtonView { hctrl, hparent, ..self })
            }),
    {
    }
}

impl RadioButton {
    /// A button that will be created from `opts` inside `parent`. If the
    /// options name no control identifier, the next one of `ids` is taken.
    pub fn new<P: Parent>(parent: &P, opts: RadioButtonOpts, ids: &mut AutoCtrlId) -> (r:
        RadioButton)
        requires
            opts.ctrl_id == 0 ==> old(ids).spec_next() < u16::MAX,
        ensures
            opts.ctrl_id != 0 ==> final(ids).spec_next() == old(ids).spec_next(),
            opts.ctrl_id == 0 ==> final(ids).spec_next() == old(ids).spec_next() + 1,
            r@ == (RadioButtonView {
                opts_id: RadioButtonOptsIdView::Wnd(
                    RadioButtonOptsView {
                        ctrl_id: if opts.ctrl_id == 0 {
                            old(ids).spec_next()
                        } else {
                            opts.ctrl_id
                        },
                        ..opts@
                    },
                ),
                hctrl: HWND(0),
                hparent: parent.spec_hwnd(),
                events_ctrl_id: if opts.ctrl_id == 0 {
                    old(ids).spec_next()
                } else {
                    opts.ctrl_id
                },
                events: Seq::empty(),
                subclass_events: Seq::empty(),
                creating: Creating::Idle,
            }),
    {
        let opts = RadioButtonOpts::define_ctrl_id(opts, ids);
        let ctrl_id: u16 = opts.ctrl_id;
        RadioButton {
            opts_id: OptsId::Wnd(opts),
            hctrl: HWND(0),
            hparent: *parent.hwnd_ref(),
            events: ButtonEvents::new(ctrl_id),
            subclass_events: MsgEvents::new(),
            creating: Creating::Idle,
        }
    }

    /// A button that stands in the dialog resource of `parent` under the
    /// identifier `ctrl_id`.
    pub fn new_dlg<P: Parent>(parent: &P, ctrl_id: u16) -> (r: RadioButton)
        ensures
            r@ == (RadioButtonView {
                opts_id: RadioButtonOptsIdView::Dlg(ctrl_id),
                hctrl: HWND(0),
                hparent: parent.spec_hwnd(),
                events_ctrl_id: ctrl_id,
                events: Seq::empty(),
                subclass_events: Seq::empty(),
                creating: Creating::Idle,
            }),
    {
        RadioButton {
            opts_id: OptsId::Dlg(ctrl_id),
            hctrl: HWND(0),
            hparent: *parent.hwnd_ref(),
            events: ButtonEvents::new(ctrl_id),
            subclass_events: MsgEvents::new(),
            creating: Creating::Idle,
        }
    }

    /// Whether the parent window is created.
    pub fn is_parent_created<P: Parent>(&self, parent: &P) -> (r: bool)
        ensures
            r == (parent.spec_hwnd() != HWND(0)),
    {
        parent.hwnd_ref().0 != 0
    }

    /// Whether `reply` is an answer to what the creation asked last.
    pub fn expects(&self, reply: &Reply) -> (b: bool)
        ensures
            b == self@.expects(*reply),
    {
        reply.is_well_formed() && match self.creating {
            Creating::Idle => false,
            Creating::Measuring => match (&self.opts_id, reply) {
                (OptsId::Wnd(_), Reply::Size(_)) => true,
                _ => false,
            },
            Creating::Building => match (&self.opts_id, reply) {
                (OptsId::Wnd(_), Reply::Hwnd(_)) => true,
                _ => false,
            },
            Creating::AskingFont => match reply {
                Reply::Hfont(_) => true,
                _ => false,
            },
            Creating::SettingFont | Creating::Finishing => match reply {
                Reply::Ret(_) => true,
                _ => false,
            },
            Creating::Attaching => match reply {
                Reply::Hwnd(_) => true,
                _ => false,
            },
        }
    }

    /// Returns the underlying handle for this control.
    ///
    /// The handle is null at first and receives its value when the control
    /// is created.
    pub fn hwnd(&self) -> (r: HWND)
        ensures
            r == self@.hctrl,
    {
        *self.hctrl_ref()
    }

    /// Returns the control identifier.
    pub fn ctrl_id(&self) -> (r: u16)
        ensures
            r == self@.ctrl_id(),
    {
        match &self.opts_id {
            OptsId::Wnd(opts) => opts.ctrl_id,
            OptsId::Dlg(ctrl_id) => *ctrl_id,
        }
    }

    /// The handlers registered for the button's notifications.
    pub fn events_ref(&self) -> (r: &ButtonEvents)
        ensures
            r.spec_ctrl_id() == self@.events_ctrl_id,
            r.cmds() == self@.events,
    {
        &self.events
    }

    /// The handlers registered on the button's own window procedure.
    pub fn subclass_events_ref(&self) -> (r: &MsgEvents)
        ensures
            r@ == self@.subclass_events,
    {
        &self.subclass_events
    }

    /// How far the creation has come.
    pub fn creating(&self) -> (r: Creating)
        ensures
            r == self@.creating,
    {
        self.creating
    }

    /// Begins the creation of the control inside the created window
    /// `hparent`, and says what to ask of the system first.
    ///
    /// The parent must be created, the control must not be, and no creation
    /// may be under way.
    pub fn create(&mut self, hparent: HWND) -> (step: Step<()>)
        requires
            hparent != HWND(0),
            old(self)@.hctrl == HWND(0),
            old(self)@.creating == Creating::Idle,
        ensures
            (final(self)@, step@) == old(self)@.create(hparent),
    {
        self.hparent = hparent;
        match &self.opts_id {
            OptsId::Wnd(opts) => {
                let text = opts.text.clone();
                self.creating = Creating::Measuring;
                Step::Ask(Request::CalcTextBoundBoxCheck { text })
            },
            OptsId::Dlg(ctrl_id) => {
                let ctrl_id: u16 = *ctrl_id;
                self.creating = Creating::Attaching;
                Step::Ask(
                    Request::GetDlgItem {
                        hdlg: hparent,
                        ctrl_id,
                        subclass: !self.subclass_events.is_empty(),
                    },
                )
            },
        }
    }

    /// Takes the system's answer to the last request of the creation, and
    /// says what to ask next or how the creation ended.
    pub fn create_resume(&mut self, reply: Reply) -> (step: Step<()>)
        requires
            old(self)@.expects(reply),
        ensures
            (final(self)@, step@) == old(self)@.create_resume(reply),
    {
        match (self.creating, reply) {
            (Creating::Measuring, Reply::Size(Ok(size))) => {
                self.creating = Creating::Building;
                match &self.opts_id {
                    OptsId::Wnd(opts) => Step::Ask(
                        Request::CreateWindowEx {
                            class_name: "BUTTON".to_owned(),
                            title: Some(opts.text.clone()),
                            pos: opts.pos,
                            size,
                            hparent: self.hparent,
                            ctrl_id: opts.ctrl_id,
                            ex_style: opts.ex_window_style,
                            style: opts.window_style.or(opts.button_style.into_ws()),
                            subclass: !self.subclass_events.is_empty(),
                        },
                    ),
                    OptsId::Dlg(_) => Step::Done(Ok(())),
                }
            },
            (Creating::Building, Reply::Hwnd(Ok(h))) => {
                self.hctrl = h;
                self.creating = Creating::AskingFont;
                Step::Ask(Request::UiFont)
            },
            (Creating::AskingFont, Reply::Hfont(hfont)) => {
                self.creating = Creating::SettingFont;
                Step::Ask(
                    Request::SendMessage {
                        hwnd: self.hctrl,
                        msg: (WmSetFont { hfont, redraw: true }).as_generic_wm(),
                    },
                )
            },
            (Creating::Attaching, Reply::Hwnd(Ok(h))) => {
                self.hctrl = h;
                self.creating = Creating::Finishing;
                Step::Ask(self.set_dont_click())
            },
            (Creating::SettingFont, Reply::Ret(_)) => {
                self.creating = Creating::Finishing;
                Step::Ask(self.set_dont_click())
            },
            (Creating::Finishing, Reply::Ret(_)) => {
                self.creating = Creating::Idle;
                Step::Done(Ok(()))
            },
            (_, Reply::Size(Err(e))) => {
                self.creating = Creating::Idle;
                Step::Done(Err(e))
            },
            (_, Reply::Hwnd(Err(e))) => {
                self.creating = Creating::Idle;
                Step::Done(Err(e))
            },
            _ => Step::Done(Ok(())),
        }
    }

    /// The request that tells the control not to check itself when it gains
    /// the focus.
    fn set_dont_click(&self) -> (r: Request)
        ensures
            StepView::<()>::Ask(r@) == RadioButtonView::ask_dont_click(self@.hctrl),
    {
        Request::SendMessage {
            hwnd: self.hwnd(),
            msg: (BmSetDontClick { dont_click: true }).as_generic_wm(),
        }
    }

    /// The request that asks the control for its check state.
    pub fn is_checked(&self) -> (r: Request)
        ensures
            r@ == (RequestView::SendMessage { hwnd: self@.hctrl, msg: (BmGetCheck {  }).wm() }),
    {
        Request::SendMessage { hwnd: self.hwnd(), msg: (BmGetCheck {  }).as_generic_wm() }
    }

    /// Tells from the answer `ret` to [`RadioButton::is_checked`] whether
    /// the radio button is checked.
    pub fn is_checked_ret(&self, ret: isize) -> (r: bool)
        ensures
            r == (ret as u32 == BST::CHECKED),
    {
        (BmGetCheck {  }).convert_ret(ret).0 == BST::CHECKED
    }

    /// The request that sets the check state.
    pub fn set_check(&self, checked: bool) -> (r: Request)
        ensures
            r@ == (RequestView::SendMessage {
                hwnd: self@.hctrl,
                msg: (BmSetCheck {
                    state: BST(if checked { BST::CHECKED } else { BST::UNCHECKED }),
                }).wm(),
            }),
    {
        Request::SendMessage {
            hwnd: self.hwnd(),
            msg: (BmSetCheck {
                state: BST(if checked { BST::CHECKED } else { BST::UNCHECKED }),
            }).as_generic_wm(),
        }
    }

    /// The request that fires the click event for the radio button. The
    /// message is queued: the system answers at once, before the click is
    /// handled.
    pub fn trigger_click(&self) -> (r: Request)
        ensures
            r@ == (RequestView::PostMessage { hwnd: self@.hctrl, msg: (BmClick {  }).wm() }),
    {
        Request::PostMessage { hwnd: self.hwnd(), msg: (BmClick {  }).as_generic_wm() }
    }

    /// Reads the answer to [`RadioButton::trigger_click`]: the truth value
    /// `ret` that the system returned, and the error that it held right
    /// after. The click was queued unless `ret` is zero.
    pub fn trigger_click_ret(&self, ret: i32, last_error: ERROR) -> (r: Result<(), ERROR>)
        ensures
            r == (if ret != 0 {
                Ok::<(), ERROR>(())
            } else {
                Err::<(), ERROR>(last_error)
            }),
    {
        done_or_error(ret, last_error)
    }

    /// Exposes the radio button events, to register handlers.
    ///
    /// Handlers are registered before the control and its parent window
    /// `parent` are created, never after.
    pub fn on<P: Parent>(&mut self, parent: &P) -> (r: &mut ButtonEvents)
        requires
            old(self)@.hctrl == HWND(0) && parent.spec_hwnd() == HWND(0),
        ensures
            r.spec_ctrl_id() == old(self)@.events_ctrl_id,
            r.cmds() == old(self)@.events,
            final(self)@ == (RadioButtonView {
                events_ctrl_id: final(r).spec_ctrl_id(),
                events: final(r).cmds(),
                ..old(self)@
            }),
    {
        &mut self.events
    }

    /// Exposes the subclass events, to register handlers. If at least one
    /// exists when the control is created, the control is subclassed.
    ///
    /// Handlers are registered before the control and its parent window
    /// `parent` are created, never after.
    pub fn on_subclass<P: Parent>(&mut self, parent: &P) -> (r: &mut MsgEvents)
        requires
            old(self)@.hctrl == HWND(0) && parent.spec_hwnd() == HWND(0),
        ensures
            r@ == old(self)@.subclass_events,
            final(self)@ == (RadioButtonView { subclass_events: final(r)@, ..old(self)@ }),
    {
        &mut self.subclass_events
    }
}

/// Options to create a [`RadioButton`] programmatically.
#[derive(Debug, PartialEq, Eq)]
pub struct RadioButtonOpts {
    /// Text of the control. Defaults to the empty string.
    pub text: String,
    /// Position within the parent's client area, in pixels. Defaults to 0 x 0.
    pub pos: POINT,
    /// Radio button styles. Defaults to `BS::AUTORADIOBUTTON`.
    pub button_style: BS,
    /// Window styles. Defaults to `WS::CHILD | WS::VISIBLE`.
    ///
    /// The first radio button of a group should also have
    /// `WS::TABSTOP | WS::GROUP`.
    pub window_style: WS,
    /// Extended window styles. Defaults to `WS_EX::LEFT`.
    pub ex_window_style: WS_EX,
    /// The control identifier. Defaults to zero, which asks for an
    /// identifier to be chosen when the button is made.
    pub ctrl_id: u16,
}

/// The options with the text as a sequence of characters.
pub ghost struct RadioButtonOptsView {
    pub text: Seq<char>,
    pub pos: POINT,
    pub button_style: BS,
    pub window_style: WS,
    pub ex_window_style: WS_EX,
    pub ctrl_id: u16,
}

impl View for RadioButtonOpts {
    type V = RadioButtonOptsView;

    open spec fn view(&self) -> RadioButtonOptsView {
        RadioButtonOptsView {
            text: self.text@,
            pos: self.pos,
            button_style: self.button_style,
            window_style: self.window_style,
            ex_window_style: self.ex_window_style,
            ctrl_id: self.ctrl_id,
        }
    }
}

impl RadioButtonOpts {
    /// The options that a caller starts from.
    pub open spec fn spec_default() -> RadioButtonOptsView {
        RadioButtonOptsView {
            text: Seq::empty(),
            pos: POINT { x: 0, y: 0 },
            button_style: BS(BS::AUTORADIOBUTTON),
            window_style: WS(WS::CHILD | WS::VISIBLE),
            ex_window_style: WS_EX(WS_EX::LEFT),
            ctrl_id: 0,
        }
    }

    /// The same options with the control identifier settled: one that was
    /// given stays, a zero is replaced by the next identifier of `ids`.
    pub fn define_ctrl_id(self, ids: &mut AutoCtrlId) -> (r: RadioButtonOpts)
        requires
            self.ctrl_id == 0 ==> old(ids).spec_next() < u16::MAX,
        ensures
            self.ctrl_id != 0 ==> r@ == self@ && final(ids).spec_next() == old(ids).spec_next(),
            self.ctrl_id == 0 ==> r@ == (RadioButtonOptsView {
                ctrl_id: old(ids).spec_next(),
                ..self@
            }) && final(ids).spec_next() == old(ids).spec_next() + 1,
    {
        let mut opts = self;
        if opts.ctrl_id == 0 {
            opts.ctrl_id = ids.auto_ctrl_id();
        }
        opts
    }

    /// A copy that is equal in every field.
    pub fn manual_clone(&self) -> (r: RadioButtonOpts)
        ensures
            r@ == self@,
    {
        RadioButtonOpts {
            text: self.text.clone(),
            pos: self.pos,
            button_style: self.button_style,
            window_style: self.window_style,
            ex_window_style: self.ex_window_style,
            ctrl_id: self.ctrl_id,
        }
    }
}

impl Default for RadioButtonOpts {
    fn default() -> (r: RadioButtonOpts)
        ensures
            r@ == RadioButtonOpts::spec_default(),
    {
        RadioButtonOpts {
            text: String::new(),
            pos: POINT::new(0, 0),
            button_style: BS(BS::AUTORADIOBUTTON),
            window_style: WS(WS::CHILD).or(WS(WS::VISIBLE)),
            ex_window_style: WS_EX(WS_EX::LEFT),
            ctrl_id: 0,
        }
    }
}

} // verus!
