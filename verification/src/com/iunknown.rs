//! What all COM interfaces share: the first three methods of every table,
//! the pointer to the object, and the reading of a method's status.

use vstd::prelude::*;
use crate::co::{ERROR, HRESULT};
use crate::structs::GUID;

verus! {

/// The table of methods of `IUnknown`: the address of each method.
#[derive(Clone, Copy, Debug, PartialEq, Eq, Structural)]
pub struct IUnknownVT {
    pub QueryInterface: usize,
    pub AddRef: usize,
    pub Release: usize,
}

/// A COM interface, known by its identifier.
pub trait ComInterface {
    /// The identifier of the interface.
    spec fn spec_iid() -> GUID;

    fn iid() -> (r: GUID)
        ensures
            r == Self::spec_iid(),
    ;
}

/// A COM object.
pub trait ole_IUnknown {
    /// The address of the object.
    spec fn spec_ptr(&self) -> usize;

    fn ptr(&self) -> (r: usize)
        ensures
            r == self.spec_ptr(),
    ;
}

/// What the status `hr` of a method means: success only where it is `S_OK`,
/// else the status itself as the error.
pub open spec fn spec_ok_to_hrresult(hr: i32) -> Result<(), HRESULT> {
    if hr as u32 == HRESULT::S_OK {
        Ok(())
    } else {
        Err(HRESULT(hr as u32))
    }
}

/// Reads the status that a method returned.
pub fn ok_to_hrresult(hr: i32) -> (r: Result<(), HRESULT>)
    ensures
        r == spec_ok_to_hrresult(hr),
{
    let code: u32 = #[verifier::truncate] (hr as u32);
    if code == HRESULT::S_OK {
        Ok(())
    } else {
        Err(HRESULT(code))
    }
}

/// What the status `hr` of a method means, as a system error: success only
/// where it is `S_OK`, else the status itself as the error.
pub open spec fn spec_hr_to_winresult(hr: i32) -> Result<(), ERROR> {
    if hr as u32 == ERROR::SUCCESS {
        Ok(())
    } else {
        Err(ERROR(hr as u32))
    }
}

/// Reads the status that a method returned, as a system error.
pub fn hr_to_winresult(hr: i32) -> (r: Result<(), ERROR>)
    ensures
        r == spec_hr_to_winresult(hr),
{
    let code: u32 = #[verifier::truncate] (hr as u32);
    if code == ERROR::SUCCESS {
        Ok(())
    } else {
        Err(ERROR(code))
    }
}

/// Reads the status that a method returned together with the value that it
/// wrote: on success the value, else the error.
pub fn hr_to_winresult_with<T>(hr: i32, value: T) -> (r: Result<T, ERROR>)
    ensures
        r == (match spec_hr_to_winresult(hr) {
            Ok(_) => Ok::<T, ERROR>(value),
            Err(e) => Err::<T, ERROR>(e),
        }),
{
    match hr_to_winresult(hr) {
        Ok(_) => Ok(value),
        Err(e) => Err(e),
    }
}

} // verus!
