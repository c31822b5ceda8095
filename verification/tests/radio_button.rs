use winsafe::co::{BS, BST, ERROR, WM, WS, WS_EX};
use winsafe::gui::dialog_main::DialogMain;
use winsafe::gui::globals::AutoCtrlId;
use winsafe::gui::native_controls::radio_button::{Creating, RadioButton, RadioButtonOpts};
use winsafe::handles::{HFONT, HWND};
use winsafe::msg::WndMsg;
use winsafe::structs::{POINT, SIZE};
use winsafe::sys::{Reply, Request, Step};

fn parent() -> DialogMain {
    DialogMain::new(100, None, None)
}

fn opts(text: &str, ctrl_id: u16) -> RadioButtonOpts {
    RadioButtonOpts {
        text: text.to_owned(),
        pos: POINT::new(10, 20),
        ctrl_id,
        ..Default::default()
    }
}

#[test]
fn opts_default_values() {
    let o = RadioButtonOpts::default();
    assert_eq!(o.text, "");
    assert_eq!(o.pos, POINT { x: 0, y: 0 });
    assert_eq!(o.button_style, BS(0x0009));
    assert_eq!(o.window_style, WS(0x5000_0000));
    assert_eq!(o.ex_window_style, WS_EX(0));
    assert_eq!(o.ctrl_id, 0);
}

#[test]
fn define_ctrl_id_keeps_a_given_id() {
    let mut ids = AutoCtrlId::starting_at(20_000);
    let o = opts("a", 77).define_ctrl_id(&mut ids);
    assert_eq!(o.ctrl_id, 77);
    assert_eq!(o.text, "a");
    assert_eq!(ids.peek(), 20_000);
}

#[test]
fn define_ctrl_id_replaces_zero_and_advances() {
    let mut ids = AutoCtrlId::starting_at(20_000);
    let a = opts("a", 0).define_ctrl_id(&mut ids);
    let b = opts("b", 0).define_ctrl_id(&mut ids);
    assert_eq!(a.ctrl_id, 20_000);
    assert_eq!(b.ctrl_id, 20_001);
    assert_eq!(ids.peek(), 20_002);
    assert_eq!(a.pos, POINT { x: 10, y: 20 });
}

#[test]
fn manual_clone_is_equal_and_independent() {
    let o = opts("label", 5);
    let mut c = o.manual_clone();
    assert_eq!(c, o);
    c.text.push('!');
    assert_eq!(o.text, "label");
    assert_ne!(c, o);
}

#[test]
fn new_takes_an_auto_id_only_when_needed() {
    let p = parent();
    let mut ids = AutoCtrlId::starting_at(300);
    let a = RadioButton::new(&p, opts("a", 0), &mut ids);
    let b = RadioButton::new(&p, opts("b", 9), &mut ids);
    let c = RadioButton::new(&p, opts("c", 0), &mut ids);
    assert_eq!(a.ctrl_id(), 300);
    assert_eq!(b.ctrl_id(), 9);
    assert_eq!(c.ctrl_id(), 301);
    assert_eq!(a.hwnd(), HWND(0));
    assert!(!a.is_parent_created(&p));
    assert_eq!(a.creating(), Creating::Idle);
}

#[test]
fn new_dlg_has_the_given_id() {
    let p = parent();
    let rb = RadioButton::new_dlg(&p, 1234);
    assert_eq!(rb.ctrl_id(), 1234);
    assert_eq!(rb.hwnd(), HWND(0));
    assert!(!rb.is_parent_created(&p));
}

#[test]
fn is_parent_created_follows_the_parent() {
    let mut p = parent();
    let rb = RadioButton::new_dlg(&p, 1234);
    assert!(!rb.is_parent_created(&p));
    p.run_main(None);
    assert!(!rb.is_parent_created(&p));
    p.run_main_resume(Reply::Hwnd(Ok(HWND(0x500))));
    assert!(rb.is_parent_created(&p));
    assert_eq!(rb.hwnd(), HWND(0));
    let other = parent();
    assert!(!rb.is_parent_created(&other));
}

#[test]
fn events_are_registered_in_order() {
    let p = parent();
    let mut rb = RadioButton::new_dlg(&p, 40);
    rb.on(&p).bn_clicked(1);
    rb.on(&p).bn_clicked(2);
    assert_eq!(rb.on(&p).ctrl_id(), 40);
    assert_eq!(rb.on(&p).len(), 2);
    assert_eq!(rb.on(&p).get(0).1, 1);
    assert_eq!(rb.on(&p).get(1).1, 2);
    assert!(rb.on_subclass(&p).is_empty());
    rb.on_subclass(&p).add_msg(WM(WM::CLOSE), winsafe::gui::events::Reaction::Call(8));
    assert_eq!(rb.on_subclass(&p).len(), 1);
    assert_eq!(rb.on_subclass(&p).get(0), (WM(0x0010), winsafe::gui::events::Reaction::Call(8)));
}

#[test]
fn create_from_options_runs_all_steps() {
    let p = parent();
    let mut ids = AutoCtrlId::starting_at(20_000);
    let mut o = opts("Choice", 0);
    o.window_style = WS(WS::CHILD | WS::VISIBLE | WS::TABSTOP | WS::GROUP);
    let mut rb = RadioButton::new(&p, o, &mut ids);

    let step = rb.create(HWND(0x500));
    assert_eq!(step, Step::Ask(Request::CalcTextBoundBoxCheck { text: "Choice".to_owned() }));
    assert_eq!(rb.creating(), Creating::Measuring);

    let step = rb.create_resume(Reply::Size(Ok(SIZE::new(61, 17))));
    assert_eq!(
        step,
        Step::Ask(Request::CreateWindowEx {
            class_name: "BUTTON".to_owned(),
            title: Some("Choice".to_owned()),
            pos: POINT { x: 10, y: 20 },
            size: SIZE { cx: 61, cy: 17 },
            hparent: HWND(0x500),
            ctrl_id: 20_000,
            ex_style: WS_EX(0),
            style: WS(0x5003_0009),
            subclass: false,
        })
    );
    assert_eq!(rb.hwnd(), HWND(0));

    let step = rb.create_resume(Reply::Hwnd(Ok(HWND(0x777))));
    assert_eq!(step, Step::Ask(Request::UiFont));
    assert_eq!(rb.hwnd(), HWND(0x777));

    let step = rb.create_resume(Reply::Hfont(HFONT(0xf0)));
    assert_eq!(
        step,
        Step::Ask(Request::SendMessage {
            hwnd: HWND(0x777),
            msg: WndMsg { msg_id: WM(0x0030), wparam: 0xf0, lparam: 1 },
        })
    );

    let step = rb.create_resume(Reply::Ret(0));
    assert_eq!(
        step,
        Step::Ask(Request::SendMessage {
            hwnd: HWND(0x777),
            msg: WndMsg { msg_id: WM(0x00f8), wparam: 1, lparam: 0 },
        })
    );
    assert_eq!(rb.creating(), Creating::Finishing);

    let step = rb.create_resume(Reply::Ret(0));
    assert_eq!(step, Step::Done(Ok(())));
    assert_eq!(rb.creating(), Creating::Idle);
    assert_eq!(rb.hwnd(), HWND(0x777));
}

#[test]
fn create_in_a_dialog_looks_the_control_up() {
    let p = parent();
    let mut rb = RadioButton::new_dlg(&p, 1001);
    let step = rb.create(HWND(0x500));
    assert_eq!(step, Step::Ask(Request::GetDlgItem { hdlg: HWND(0x500), ctrl_id: 1001, subclass: false }));
    let step = rb.create_resume(Reply::Hwnd(Ok(HWND(0x42))));
    assert_eq!(
        step,
        Step::Ask(Request::SendMessage {
            hwnd: HWND(0x42),
            msg: WndMsg { msg_id: WM(0x00f8), wparam: 1, lparam: 0 },
        })
    );
    assert_eq!(rb.create_resume(Reply::Ret(0)), Step::Done(Ok(())));
    assert_eq!(rb.hwnd(), HWND(0x42));
}

#[test]
fn a_control_with_a_subclass_handler_is_subclassed() {
    let p = parent();
    let mut dlg = RadioButton::new_dlg(&p, 1001);
    dlg.on_subclass(&p).add_msg(WM(0x0200), winsafe::gui::events::Reaction::Call(1));
    assert_eq!(
        dlg.create(HWND(0x500)),
        Step::Ask(Request::GetDlgItem { hdlg: HWND(0x500), ctrl_id: 1001, subclass: true })
    );

    let mut ids = AutoCtrlId::starting_at(1);
    let mut rb = RadioButton::new(&p, opts("t", 6), &mut ids);
    rb.on(&p).bn_clicked(4);
    rb.on_subclass(&p).add_msg(WM(0x0200), winsafe::gui::events::Reaction::Call(1));
    rb.create(HWND(0x500));
    assert_eq!(
        rb.create_resume(Reply::Size(Ok(SIZE::new(5, 6)))),
        Step::Ask(Request::CreateWindowEx {
            class_name: "BUTTON".to_owned(),
            title: Some("t".to_owned()),
            pos: POINT { x: 10, y: 20 },
            size: SIZE { cx: 5, cy: 6 },
            hparent: HWND(0x500),
            ctrl_id: 6,
            ex_style: WS_EX(0),
            style: WS(0x5000_0009),
            subclass: true,
        })
    );
    assert_eq!(rb.subclass_events_ref().len(), 1);
    assert_eq!(rb.events_ref().len(), 1);
    assert_eq!(rb.events_ref().ctrl_id(), 6);
    assert_eq!(rb.events_ref().get(0), (winsafe::co::BN(0), 4));
}

#[test]
fn create_stops_at_the_first_error() {
    let p = parent();
    let mut ids = AutoCtrlId::starting_at(1);
    let mut rb = RadioButton::new(&p, opts("x", 3), &mut ids);
    rb.create(HWND(0x500));
    assert_eq!(rb.create_resume(Reply::Size(Err(ERROR(8)))), Step::Done(Err(ERROR(8))));
    assert_eq!(rb.creating(), Creating::Idle);
    assert_eq!(rb.hwnd(), HWND(0));

    rb.create(HWND(0x500));
    rb.create_resume(Reply::Size(Ok(SIZE::new(1, 1))));
    assert_eq!(rb.create_resume(Reply::Hwnd(Err(ERROR(1400)))), Step::Done(Err(ERROR(1400))));
    assert_eq!(rb.hwnd(), HWND(0));

    let mut dlg = RadioButton::new_dlg(&p, 7);
    dlg.create(HWND(0x500));
    assert_eq!(dlg.create_resume(Reply::Hwnd(Err(ERROR(1421)))), Step::Done(Err(ERROR(1421))));
    assert_eq!(dlg.hwnd(), HWND(0));
}

fn created(hctrl: usize) -> RadioButton {
    let p = parent();
    let mut rb = RadioButton::new_dlg(&p, 7);
    rb.create(HWND(0x500));
    rb.create_resume(Reply::Hwnd(Ok(HWND(hctrl))));
    rb.create_resume(Reply::Ret(0));
    rb
}

#[test]
fn is_checked_asks_for_the_state_and_reads_it() {
    let rb = created(0x90);
    assert_eq!(
        rb.is_checked(),
        Request::SendMessage {
            hwnd: HWND(0x90),
            msg: WndMsg { msg_id: WM(0x00f0), wparam: 0, lparam: 0 },
        }
    );
    assert!(rb.is_checked_ret(1));
    assert!(!rb.is_checked_ret(0));
    assert!(!rb.is_checked_ret(2));
    assert_eq!(BST::CHECKED, 1);
}

#[test]
fn set_check_sends_the_state() {
    let rb = created(0x90);
    assert_eq!(
        rb.set_check(true),
        Request::SendMessage {
            hwnd: HWND(0x90),
            msg: WndMsg { msg_id: WM(0x00f1), wparam: 1, lparam: 0 },
        }
    );
    assert_eq!(
        rb.set_check(false),
        Request::SendMessage {
            hwnd: HWND(0x90),
            msg: WndMsg { msg_id: WM(0x00f1), wparam: 0, lparam: 0 },
        }
    );
}

#[test]
fn expects_tells_the_answers_apart() {
    let p = parent();
    let mut ids = AutoCtrlId::starting_at(1);
    let mut rb = RadioButton::new(&p, opts("x", 3), &mut ids);
    assert!(!rb.expects(&Reply::Size(Ok(SIZE::new(1, 1)))));
    rb.create(HWND(0x500));
    assert!(rb.expects(&Reply::Size(Ok(SIZE::new(1, 1)))));
    assert!(rb.expects(&Reply::Size(Err(ERROR(8)))));
    assert!(!rb.expects(&Reply::Ret(0)));
    assert!(!rb.expects(&Reply::Hwnd(Ok(HWND(9)))));
    rb.create_resume(Reply::Size(Ok(SIZE::new(1, 1))));
    assert!(rb.expects(&Reply::Hwnd(Ok(HWND(9)))));
    assert!(rb.expects(&Reply::Hwnd(Err(ERROR(5)))));
    assert!(!rb.expects(&Reply::Hwnd(Ok(HWND(0)))));
    assert!(!rb.expects(&Reply::Size(Ok(SIZE::new(1, 1)))));
    rb.create_resume(Reply::Hwnd(Ok(HWND(9))));
    assert!(rb.expects(&Reply::Hfont(HFONT(0))));
    assert!(!rb.expects(&Reply::Ret(0)));
    rb.create_resume(Reply::Hfont(HFONT(2)));
    assert!(rb.expects(&Reply::Ret(-1)));
    rb.create_resume(Reply::Ret(0));
    assert!(rb.expects(&Reply::Ret(0)));
    assert!(!rb.expects(&Reply::Hfont(HFONT(2))));
    rb.create_resume(Reply::Ret(0));
    assert!(!rb.expects(&Reply::Ret(0)));

    let mut dlg = RadioButton::new_dlg(&p, 7);
    dlg.create(HWND(0x500));
    assert!(dlg.expects(&Reply::Hwnd(Ok(HWND(1)))));
    assert!(!dlg.expects(&Reply::Hwnd(Ok(HWND(0)))));
    assert!(!dlg.expects(&Reply::Size(Ok(SIZE::new(1, 1)))));
}

#[test]
fn trigger_click_reads_whether_the_click_was_queued() {
    let rb = created(0x90);
    assert_eq!(rb.trigger_click_ret(1, ERROR(0)), Ok(()));
    assert_eq!(rb.trigger_click_ret(-1, ERROR(5)), Ok(()));
    assert_eq!(rb.trigger_click_ret(0, ERROR(1400)), Err(ERROR(1400)));
}

#[test]
fn trigger_click_posts_the_click() {
    let rb = created(0x90);
    assert_eq!(
        rb.trigger_click(),
        Request::PostMessage {
            hwnd: HWND(0x90),
            msg: WndMsg { msg_id: WM(0x00f5), wparam: 0, lparam: 0 },
        }
    );
}
