//! Seeking in a media stream.

use vstd::prelude::*;
use crate::co::{ERROR, SEEKING_FLAGS};
use crate::com::iunknown::{ole_IUnknown, ComInterface, IUnknownVT};
use crate::structs::GUID;
use crate::sys::{ComArg, Request, RequestView};

verus! {

/// The table of methods of [`IMediaSeeking`]: the address of each method.
#[derive(Clone, Copy, Debug, PartialEq, Eq, Structural)]
pub struct IMediaSeekingVT {
    pub IUnknownVT: IUnknownVT,
    pub GetCapabilities: usize,
    pub CheckCapabilities: usize,
    pub IsFormatSupported: usize,
    pub QueryPreferredFormat: usize,
    pub GetTimeFormat: usize,
    pub IsUsingTimeFormat: usize,
    pub SetTimeFormat: usize,
    pub GetDuration: usize,
    pub GetStopPosition: usize,
    pub GetCurrentPosition: usize,
    pub ConvertTimeFormat: usize,
    pub SetPositions: usize,
    pub GetPositions: usize,
    pub GetAvailable: usize,
    pub SetRate: usize,
    pub GetRate: usize,
    pub GetPreroll: usize,
}

/// The `IMediaSeeking` COM interface: the object and its table of methods.
///
/// Each method here builds the call to be made. The status that the call
/// returns, and the values that it wrote, are read by
/// [`hr_to_winresult`](crate::com::iunknown::hr_to_winresult) and
/// [`hr_to_winresult_with`](crate::com::iunknown::hr_to_winresult_with),
/// but for [`IMediaSeeking::SetPositions`], which has a reader of its own.
#[derive(Clone, Copy, Debug, PartialEq, Eq, Structural)]
pub struct IMediaSeeking {
    pub ppvt: usize,
    pub vt: IMediaSeekingVT,
}

impl ComInterface for IMediaSeeking {
    open spec fn spec_iid() -> GUID {
        GUID {
            data1: 0x36b7_3880,
            data2: 0xc2c8,
            data3: 0x11cf,
            data4: 0x8b46,
            data5: 0x0080_5f6c_ef60,
        }
    }

    fn iid() -> (r: GUID) {
        GUID::new(0x36b7_3880, 0xc2c8, 0x11cf, 0x8b46, 0x0080_5f6c_ef60)
    }
}

impl ole_IUnknown for IMediaSeeking {
    open spec fn spec_ptr(&self) -> usize {
        self.ppvt
    }

    fn ptr(&self) -> (r: usize) {
        self.ppvt
    }
}

/// The time format that stands for none: the identifier of all zeros.
pub open spec fn spec_time_format_none() -> GUID {
    GUID { data1: 0, data2: 0, data3: 0, data4: 0, data5: 0 }
}

impl IMediaSeeking {
    /// The call of the method at `func` on this object.
    pub open spec fn call(self, func: usize, args: Seq<ComArg>) -> RequestView {
        RequestView::ComCall { func, this: self.ppvt, args }
    }

    /// A call with one place for a 64-bit result, which holds zero at first.
    fn get_i64(&self, func: usize) -> (r: Request)
        ensures
            r@ == self.call(func, seq![ComArg::OutI64(0)]),
    {
        let args = vec![ComArg::OutI64(0)];
        assert(args@ =~= seq![ComArg::OutI64(0)]);
        Request::ComCall { func, this: self.ppvt, args }
    }

    /// A call with two places for 64-bit results, which hold zero at first.
    fn get_two_i64(&self, func: usize) -> (r: Request)
        ensures
            r@ == self.call(func, seq![ComArg::OutI64(0), ComArg::OutI64(0)]),
    {
        let args = vec![ComArg::OutI64(0), ComArg::OutI64(0)];
        assert(args@ =~= seq![ComArg::OutI64(0), ComArg::OutI64(0)]);
        Request::ComCall { func, this: self.ppvt, args }
    }

    /// The call that converts the time `source` from `sourceFormat` to
    /// `targetFormat`; the converted time is written to the first argument.
    pub fn ConvertTimeFormat(&self, targetFormat: &GUID, source: i64, sourceFormat: &GUID) -> (r:
        Request)
        ensures
            r@ == self.call(
                self.vt.ConvertTimeFormat,
                seq![
                    ComArg::OutI64(0),
                    ComArg::Guid(*targetFormat),
                    ComArg::I64(source),
                    ComArg::Guid(*sourceFormat),
                ],
            ),
    {
        let args = vec![
            ComArg::OutI64(0),
            ComArg::Guid(*targetFormat),
            ComArg::I64(source),
            ComArg::Guid(*sourceFormat),
        ];
        assert(args@ =~= seq![
            ComArg::OutI64(0),
            ComArg::Guid(*targetFormat),
            ComArg::I64(source),
            ComArg::Guid(*sourceFormat),
        ]);
        Request::ComCall { func: self.vt.ConvertTimeFormat, this: self.ppvt, args }
    }

    /// The call for the earliest and the latest time between which seeking
    /// is efficient.
    pub fn GetAvailable(&self) -> (r: Request)
        ensures
            r@ == self.call(self.vt.GetAvailable, seq![ComArg::OutI64(0), ComArg::OutI64(0)]),
    {
        self.get_two_i64(self.vt.GetAvailable)
    }

    /// The call for the current position.
    pub fn GetCurrentPosition(&self) -> (r: Request)
        ensures
            r@ == self.call(self.vt.GetCurrentPosition, seq![ComArg::OutI64(0)]),
    {
        self.get_i64(self.vt.GetCurrentPosition)
    }

    /// The call for the duration of the stream.
    pub fn GetDuration(&self) -> (r: Request)
        ensures
            r@ == self.call(self.vt.GetDuration, seq![ComArg::OutI64(0)]),
    {
        self.get_i64(self.vt.GetDuration)
    }

    /// The call for the current and the stop position.
    pub fn GetPositions(&self) -> (r: Request)
        ensures
            r@ == self.call(self.vt.GetPositions, seq![ComArg::OutI64(0), ComArg::OutI64(0)]),
    {
        self.get_two_i64(self.vt.GetPositions)
    }

    /// The call for the time that is queued before the start position.
    pub fn GetPreroll(&self) -> (r: Request)
        ensures
            r@ == self.call(self.vt.GetPreroll, seq![ComArg::OutI64(0)]),
    {
        self.get_i64(self.vt.GetPreroll)
    }

    /// The call for the stop position.
    pub fn GetStopPosition(&self) -> (r: Request)
        ensures
            r@ == self.call(self.vt.GetStopPosition, seq![ComArg::OutI64(0)]),
    {
        self.get_i64(self.vt.GetStopPosition)
    }

    /// The call for the time format, written to a place that holds the
    /// format "none" at first.
    pub fn GetTimeFormat(&self) -> (r: Request)
        ensures
            r@ == self.call(self.vt.GetTimeFormat, seq![ComArg::OutGuid(spec_time_format_none())]),
    {
        let args = vec![ComArg::OutGuid(GUID::new(0, 0, 0, 0, 0))];
        assert(args@ =~= seq![ComArg::OutGuid(spec_time_format_none())]);
        Request::ComCall { func: self.vt.GetTimeFormat, this: self.ppvt, args }
    }

    /// The call that sets the current and the stop position, each with the
    /// flags that say how it is meant.
    pub fn SetPositions(
        &self,
        current: i64,
        currentFlags: SEEKING_FLAGS,
        stop: i64,
        stopFlags: SEEKING_FLAGS,
    ) -> (r: Request)
        ensures
            r@ == self.call(
                self.vt.SetPositions,
                seq![
                    ComArg::OutI64(current),
                    ComArg::U32(currentFlags.0),
                    ComArg::OutI64(stop),
                    ComArg::U32(stopFlags.0),
                ],
            ),
    {
        let args = vec![
            ComArg::OutI64(current),
            ComArg::U32(currentFlags.0),
            ComArg::OutI64(stop),
            ComArg::U32(stopFlags.0),
        ];
        assert(args@ =~= seq![
            ComArg::OutI64(current),
            ComArg::U32(currentFlags.0),
            ComArg::OutI64(stop),
            ComArg::U32(stopFlags.0),
        ]);
        Request::ComCall { func: self.vt.SetPositions, this: self.ppvt, args }
    }

    /// Reads the status that [`IMediaSeeking::SetPositions`] returned:
    /// `S_OK` and `S_FALSE` are both success, any other status is the error.
    pub fn SetPositions_ret(&self, hr: i32) -> (r: Result<(), ERROR>)
        ensures
            r == (if hr as u32 == ERROR::SUCCESS || hr as u32 == ERROR::S_FALSE {
                Ok::<(), ERROR>(())
            } else {
                Err::<(), ERROR>(ERROR(hr as u32))
            }),
    {
        let code: u32 = #[verifier::truncate] (hr as u32);
        if code == ERROR::SUCCESS || code == ERROR::S_FALSE {
            Ok(())
        } else {
            Err(ERROR(code))
        }
    }

    /// The call that sets the time format.
    pub fn SetTimeFormat(&self, format: &GUID) -> (r: Request)
        ensures
            r@ == self.call(self.vt.SetTimeFormat, seq![ComArg::Guid(*format)]),
    {
        let args = vec![ComArg::Guid(*format)];
        assert(args@ =~= seq![ComArg::Guid(*format)]);
        Request::ComCall { func: self.vt.SetTimeFormat, this: self.ppvt, args }
    }
}

} // verus!
