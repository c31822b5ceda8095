use winsafe::co::{ERROR, HRESULT, SEEKING_FLAGS};
use winsafe::com::dshow::imediaseeking::{IMediaSeeking, IMediaSeekingVT};
use winsafe::com::iunknown::{
    hr_to_winresult, hr_to_winresult_with, ok_to_hrresult, ole_IUnknown, ComInterface, IUnknownVT,
};
use winsafe::com::shell::co::{DROPEFFECT, FOS, SFGAO, SIGDN};
use winsafe::com::shell::ifilesavedialog::{
    shell_IFileSaveDialog, IFileDialogVT, IFileSaveDialog, IFileSaveDialogVT, IModalWindowVT,
    IShellItem,
};
use winsafe::structs::GUID;
use winsafe::sys::{ComArg, Request};

fn unknown_vt() -> IUnknownVT {
    IUnknownVT { QueryInterface: 0x1000, AddRef: 0x1008, Release: 0x1010 }
}

fn save_vt() -> IFileSaveDialogVT {
    IFileSaveDialogVT {
        IFileDialogVT: IFileDialogVT {
            IModalWindowVT: IModalWindowVT { IUnknownVT: unknown_vt(), Show: 0x1018 },
            SetFileTypes: 0x1020,
            SetFileTypeIndex: 0x1028,
            GetFileTypeIndex: 0x1030,
            Advise: 0x1038,
            Unadvise: 0x1040,
            SetOptions: 0x1048,
            GetOptions: 0x1050,
            SetDefaultFolder: 0x1058,
            SetFolder: 0x1060,
            GetFolder: 0x1068,
            GetCurrentSelection: 0x1070,
            SetFileName: 0x1078,
            GetFileName: 0x1080,
            SetTitle: 0x1088,
            SetOkButtonLabel: 0x1090,
            SetFileNameLabel: 0x1098,
            GetResult: 0x10a0,
            AddPlace: 0x10a8,
            SetDefaultExtension: 0x10b0,
            Close: 0x10b8,
            SetClientGuid: 0x10c0,
            ClearClientData: 0x10c8,
            SetFilter: 0x10d0,
        },
        SetSaveAsItem: 0x10d8,
        SetProperties: 0x10e0,
        SetCollectedProperties: 0x10e8,
        GetProperties: 0x10f0,
        ApplyProperties: 0x10f8,
    }
}

fn seeking() -> IMediaSeeking {
    IMediaSeeking {
        ppvt: 0xbeef,
        vt: IMediaSeekingVT {
            IUnknownVT: unknown_vt(),
            GetCapabilities: 1,
            CheckCapabilities: 2,
            IsFormatSupported: 3,
            QueryPreferredFormat: 4,
            GetTimeFormat: 5,
            IsUsingTimeFormat: 6,
            SetTimeFormat: 7,
            GetDuration: 8,
            GetStopPosition: 9,
            GetCurrentPosition: 10,
            ConvertTimeFormat: 11,
            SetPositions: 12,
            GetPositions: 13,
            GetAvailable: 14,
            SetRate: 15,
            GetRate: 16,
            GetPreroll: 17,
        },
    }
}

fn call(func: usize, args: Vec<ComArg>) -> Request {
    Request::ComCall { func, this: 0xbeef, args }
}

#[test]
fn set_save_as_item_calls_its_slot_with_the_item() {
    let dlg = IFileSaveDialog { ptr: 0xd1a, vt: save_vt() };
    let item = IShellItem { ptr: 0x17e };
    assert_eq!(
        dlg.SetSaveAsItem(&item),
        Request::ComCall { func: 0x10d8, this: 0xd1a, args: vec![ComArg::Ptr(0x17e)] }
    );
    assert_eq!(dlg.ptr(), 0xd1a);
    assert_eq!(dlg.vt().SetSaveAsItem, 0x10d8);
}

#[test]
fn only_s_ok_is_success_for_ok_to_hrresult() {
    assert_eq!(ok_to_hrresult(0), Ok(()));
    assert_eq!(ok_to_hrresult(1), Err(HRESULT(1)));
    assert_eq!(ok_to_hrresult(-2147467259), Err(HRESULT(0x8000_4005)));
    assert_eq!(ok_to_hrresult(-1), Err(HRESULT(0xffff_ffff)));
    assert_eq!(HRESULT::E_FAIL, 0x8000_4005);
}

#[test]
fn only_s_ok_is_success_for_hr_to_winresult() {
    assert_eq!(hr_to_winresult(0), Ok(()));
    assert_eq!(hr_to_winresult(1), Err(ERROR(1)));
    assert_eq!(hr_to_winresult(-2147467263), Err(ERROR(0x8000_4001)));
    assert_eq!(hr_to_winresult_with(0, (4i64, 9i64)), Ok((4, 9)));
    assert_eq!(hr_to_winresult_with(5, 4i64), Err(ERROR(5)));
}

#[test]
fn interface_identifiers() {
    assert_eq!(
        IFileSaveDialog::iid(),
        GUID { data1: 0x84bccd23, data2: 0x5fde, data3: 0x4cdb, data4: 0xaea4, data5: 0xaf64b83d78ab }
    );
    assert_eq!(
        IMediaSeeking::iid(),
        GUID { data1: 0x36b73880, data2: 0xc2c8, data3: 0x11cf, data4: 0x8b46, data5: 0x00805f6cef60 }
    );
}

#[test]
fn seeking_getters_call_their_slots() {
    let s = seeking();
    assert_eq!(s.GetDuration(), call(8, vec![ComArg::OutI64(0)]));
    assert_eq!(s.GetStopPosition(), call(9, vec![ComArg::OutI64(0)]));
    assert_eq!(s.GetCurrentPosition(), call(10, vec![ComArg::OutI64(0)]));
    assert_eq!(s.GetPreroll(), call(17, vec![ComArg::OutI64(0)]));
    assert_eq!(s.GetPositions(), call(13, vec![ComArg::OutI64(0), ComArg::OutI64(0)]));
    assert_eq!(s.GetAvailable(), call(14, vec![ComArg::OutI64(0), ComArg::OutI64(0)]));
    assert_eq!(
        s.GetTimeFormat(),
        call(5, vec![ComArg::OutGuid(GUID { data1: 0, data2: 0, data3: 0, data4: 0, data5: 0 })])
    );
}

#[test]
fn seeking_setters_marshal_their_arguments() {
    let s = seeking();
    let a = GUID::new(1, 2, 3, 4, 5);
    let b = GUID::new(6, 7, 8, 9, 10);
    assert_eq!(
        s.ConvertTimeFormat(&a, -55, &b),
        call(11, vec![ComArg::OutI64(0), ComArg::Guid(a), ComArg::I64(-55), ComArg::Guid(b)])
    );
    assert_eq!(s.SetTimeFormat(&b), call(7, vec![ComArg::Guid(b)]));
    assert_eq!(
        s.SetPositions(
            100,
            SEEKING_FLAGS(SEEKING_FLAGS::AbsolutePositioning),
            -1,
            SEEKING_FLAGS(SEEKING_FLAGS::NoPositioning),
        ),
        call(
            12,
            vec![ComArg::OutI64(100), ComArg::U32(1), ComArg::OutI64(-1), ComArg::U32(0)]
        )
    );
}

#[test]
fn set_positions_takes_s_false_for_success() {
    let s = seeking();
    assert_eq!(s.SetPositions_ret(0), Ok(()));
    assert_eq!(s.SetPositions_ret(1), Ok(()));
    assert_eq!(s.SetPositions_ret(2), Err(ERROR(2)));
    assert_eq!(s.SetPositions_ret(-2147467259), Err(ERROR(0x8000_4005)));
}

#[test]
fn shell_constants() {
    assert_eq!(DROPEFFECT::SCROLL, 0x8000_0000);
    assert_eq!(SFGAO::CANCOPY, DROPEFFECT::COPY);
    assert_eq!(SFGAO::CANMOVE, DROPEFFECT::MOVE);
    assert_eq!(SFGAO::CANLINK, DROPEFFECT::LINK);
    assert_eq!(FOS::OVERWRITEPROMPT, 0x2);
    assert_eq!(FOS::SUPPORTSTREAMABLEITEMS, 0x8000_0000);
    assert_eq!(SIGDN::FILESYSPATH, 0x8005_8000);
    assert_eq!(FOS(FOS::PICKFOLDERS), FOS(0x20));
}
