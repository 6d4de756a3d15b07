//! The requests of the guest and the answers to them.
use vstd::prelude::*;

verus! {

/// The registers that carry the arguments of a request, and its results.
#[derive(Clone, Copy, Debug, PartialEq, Eq, Structural)]
pub struct RequestParams {
    pub rcx: u64,
    pub rdx: u64,
    pub r8: u64,
    pub r9: u64,
}

/// Why a request was refused.
#[derive(Clone, Copy, Debug, PartialEq, Eq, Structural)]
pub enum SvsmResultCode {
    /// There is no such request.
    UnsupportedCall,
    /// An argument of the request makes no sense.
    InvalidParameter,
}

/// A request that was not served.
#[derive(Clone, Copy, Debug, PartialEq, Eq, Structural)]
pub enum SvsmReqError {
    /// The request was refused.
    RequestError(SvsmResultCode),
}

impl SvsmReqError {
    /// The error of a request that does not exist.
    pub fn unsupported_call() -> (error: SvsmReqError)
        ensures
            error == SvsmReqError::RequestError(SvsmResultCode::UnsupportedCall),
    {
        SvsmReqError::RequestError(SvsmResultCode::UnsupportedCall)
    }

    /// The error of a request with an argument that makes no sense.
    pub fn invalid_parameter() -> (error: SvsmReqError)
        ensures
            error == SvsmReqError::RequestError(SvsmResultCode::InvalidParameter),
    {
        SvsmReqError::RequestError(SvsmResultCode::InvalidParameter)
    }
}

/// A piece of guest memory that the monitor needs a copy of.
#[derive(Clone, Copy, Debug, PartialEq, Eq, Structural)]
pub struct GuestCopy {
    /// Where it begins, in the guest's address space.
    pub addr: u64,
    /// Its size in bytes.
    pub size: u64,
    /// The page table of the guest.
    pub page_table: u64,
}

/// How the monitor was built.
#[derive(Clone, Copy, Debug, PartialEq, Eq, Structural)]
pub struct Features {
    /// Nothing is measured.
    pub boottime: bool,
    /// Pages are not shared between a zygote and its trustlets.
    pub no_cow: bool,
    /// Page faults are counted.
    pub stat: bool,
}

} // verus!
