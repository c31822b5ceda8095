use winsafe::co::{BST, ICON_SZ, WM};
use winsafe::handles::{HFONT, HICON};
use winsafe::msg::{
    BmClick, BmGetCheck, BmSetCheck, BmSetDontClick, WmSetFont, WmSetIcon, WndMsg,
};

#[test]
fn button_messages_on_the_wire() {
    assert_eq!(
        (BmGetCheck {}).as_generic_wm(),
        WndMsg { msg_id: WM(0xf0), wparam: 0, lparam: 0 }
    );
    assert_eq!(
        (BmSetCheck { state: BST(BST::INDETERMINATE) }).as_generic_wm(),
        WndMsg { msg_id: WM(0xf1), wparam: 2, lparam: 0 }
    );
    assert_eq!((BmClick {}).as_generic_wm(), WndMsg { msg_id: WM(0xf5), wparam: 0, lparam: 0 });
    assert_eq!(
        (BmSetDontClick { dont_click: false }).as_generic_wm(),
        WndMsg { msg_id: WM(0xf8), wparam: 0, lparam: 0 }
    );
    assert_eq!(
        (BmSetDontClick { dont_click: true }).as_generic_wm(),
        WndMsg { msg_id: WM(0xf8), wparam: 1, lparam: 0 }
    );
}

#[test]
fn check_state_is_the_low_half_of_the_answer() {
    assert_eq!((BmGetCheck {}).convert_ret(0), BST(0));
    assert_eq!((BmGetCheck {}).convert_ret(1), BST(1));
    assert_eq!((BmGetCheck {}).convert_ret(2), BST(2));
    assert_eq!((BmGetCheck {}).convert_ret(-1), BST(0xffff_ffff));
}

#[test]
fn window_messages_on_the_wire() {
    assert_eq!(
        (WmSetFont { hfont: HFONT(0xabc), redraw: true }).as_generic_wm(),
        WndMsg { msg_id: WM(0x30), wparam: 0xabc, lparam: 1 }
    );
    assert_eq!(
        (WmSetFont { hfont: HFONT(0xabc), redraw: false }).as_generic_wm(),
        WndMsg { msg_id: WM(0x30), wparam: 0xabc, lparam: 0 }
    );
    assert_eq!(
        (WmSetIcon { hicon: HICON(0x99), size: ICON_SZ(ICON_SZ::BIG) }).as_generic_wm(),
        WndMsg { msg_id: WM(0x80), wparam: 1, lparam: 0x99 }
    );
}

#[test]
fn set_icon_answers_with_the_icon_before() {
    let m = WmSetIcon { hicon: HICON(0x99), size: ICON_SZ(ICON_SZ::SMALL) };
    assert_eq!(m.convert_ret(0), None);
    assert_eq!(m.convert_ret(0x55), Some(HICON(0x55)));
}
