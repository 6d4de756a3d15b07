//! The requests that a trustlet makes with the `cpuid` instruction.
use vstd::prelude::*;

verus! {

/// A request, known by the value of RAX.
#[derive(Clone, Copy, Debug, PartialEq, Eq, Structural)]
pub enum PalCall {
    /// An ordinary `cpuid`.
    Cpuid,
    /// The trustlet failed.
    Fail,
    /// The trustlet is done.
    Exit,
    /// One character of a message.
    DebugPrint,
    /// Fresh memory.
    VirtAlloc,
    /// A file mapping.
    MapFile,
    /// The address of the thread control block.
    SetTcb,
    /// Another protection of memory.
    Mprotect,
    /// The output is ready.
    GetResult,
    /// A request to the guest.
    GuestRequest,
    /// Memory is given back.
    VirtFree,
    /// Nothing.
    Nop,
    /// The zygote is ready to be copied.
    Finalize,
    /// Memory of a protection key.
    MpkAlloc,
    /// Memory of a protection key is given back.
    MpkFree,
    /// A protection key.
    MpkPkeyAlloc,
    /// The domain of a protection key is opened.
    MpkEnterDomain,
    /// The domain of a protection key is closed.
    MpkExitDomain,
    /// A protection key is given back.
    MpkFreePkey,
    /// The protection-key rights.
    MpkQueryPkru,
    /// An exception.
    Exception,
    /// A double fault.
    DoubleFault,
    /// A mark for a benchmark.
    CallOutb,
    /// The trustlet leaves.
    CallExit,
    /// A mark for a benchmark, with a value.
    CallOutbWithValue,
    /// A larger channel.
    InflateChannel,
    /// A digit is printed.
    Digit,
    /// Memory is printed.
    PrintInfo,
    /// No request.
    Unknown,
}

/// The request that a value of RAX stands for.
pub open spec fn pal_call_of(rax: u64) -> PalCall {
    if rax <= 0x24 || 0x8000_0000 <= rax <= 0x8000_0021 {
        PalCall::Cpuid
    } else if rax == 0x4FFF_FFFF {
        PalCall::Fail
    } else if rax == 0x4FFF_FFFE {
        PalCall::Exit
    } else if rax == 0x4FFF_FFFD {
        PalCall::DebugPrint
    } else if rax == 0x4FFF_FFFC {
        PalCall::VirtAlloc
    } else if rax == 0x4FFF_FFFB {
        PalCall::MapFile
    } else if rax == 0x4FFF_FFFA {
        PalCall::SetTcb
    } else if rax == 0x4FFF_FFF9 {
        PalCall::Mprotect
    } else if rax == 0x4FFF_FFF8 {
        PalCall::GetResult
    } else if rax == 0x4FFF_FFF7 {
        PalCall::GuestRequest
    } else if rax == 0x4FFF_FFF6 {
        PalCall::VirtFree
    } else if rax == 0x4FFF_FFF5 {
        PalCall::Nop
    } else if rax == 0x4FFF_FFF4 {
        PalCall::Finalize
    } else if rax == 0x4FFF_FFF3 {
        PalCall::MpkAlloc
    } else if rax == 0x4FFF_FFF2 {
        PalCall::MpkFree
    } else if rax == 0x4FFF_FFF1 {
        PalCall::MpkPkeyAlloc
    } else if rax == 0x4FFF_FFF0 {
        PalCall::MpkEnterDomain
    } else if rax == 0x4FFF_FFEF {
        PalCall::MpkExitDomain
    } else if rax == 0x4FFF_FFEE {
        PalCall::MpkFreePkey
    } else if rax == 0x4FFF_FFED {
        PalCall::MpkQueryPkru
    } else if rax == 0x4EFF_FFFF {
        PalCall::Exception
    } else if rax == 0x4EFF_FFFE {
        PalCall::DoubleFault
    } else if rax == 0x4FFF_FFA0 {
        PalCall::CallOutb
    } else if rax == 0x4FFF_FFA1 {
        PalCall::CallExit
    } else if rax == 0x4FFF_FFA2 {
        PalCall::CallOutbWithValue
    } else if rax == 0x4FFF_FFA3 {
        PalCall::InflateChannel
    } else if rax == 99 {
        PalCall::Digit
    } else if rax == 100 {
        PalCall::PrintInfo
    } else {
        PalCall::Unknown
    }
}

/// The request that a value of RAX stands for.
pub fn pal_call(rax: u64) -> (call: PalCall)
    ensures
        call == pal_call_of(rax),
{
    match rax {
        0..=0x24 | 0x8000_0000..=0x8000_0021 => PalCall::Cpuid,
        0x4FFF_FFFF => PalCall::Fail,
        0x4FFF_FFFE => PalCall::Exit,
        0x4FFF_FFFD => PalCall::DebugPrint,
        0x4FFF_FFFC => PalCall::VirtAlloc,
        0x4FFF_FFFB => PalCall::MapFile,
        0x4FFF_FFFA => PalCall::SetTcb,
        0x4FFF_FFF9 => PalCall::Mprotect,
        0x4FFF_FFF8 => PalCall::GetResult,
        0x4FFF_FFF7 => PalCall::GuestRequest,
        0x4FFF_FFF6 => PalCall::VirtFree,
        0x4FFF_FFF5 => PalCall::Nop,
        0x4FFF_FFF4 => PalCall::Finalize,
        0x4FFF_FFF3 => PalCall::MpkAlloc,
        0x4FFF_FFF2 => PalCall::MpkFree,
        0x4FFF_FFF1 => PalCall::MpkPkeyAlloc,
        0x4FFF_FFF0 => PalCall::MpkEnterDomain,
        0x4FFF_FFEF => PalCall::MpkExitDomain,
        0x4FFF_FFEE => PalCall::MpkFreePkey,
        0x4FFF_FFED => PalCall::MpkQueryPkru,
        0x4EFF_FFFF => PalCall::Exception,
        0x4EFF_FFFE => PalCall::DoubleFault,
        0x4FFF_FFA0 => PalCall::CallOutb,
        0x4FFF_FFA1 => PalCall::CallExit,
        0x4FFF_FFA2 => PalCall::CallOutbWithValue,
        0x4FFF_FFA3 => PalCall::InflateChannel,
        99 => PalCall::Digit,
        100 => PalCall::PrintInfo,
        _ => PalCall::Unknown,
    }
}

/// What the guest is told when it gets control back.
#[derive(Clone, Copy, Debug, PartialEq, Eq, Structural)]
pub enum TrustletReturnType {
    /// The trustlet is done.
    Exit,
    /// The output is ready.  The number is reserved: a guest whose output is there is told
    /// `pal_state::RESULT_READY` instead.
    GetResult,
    /// The trustlet failed.
    Error,
    /// The trustlet wants to know the attributes of a file.
    FileAttr,
    /// The trustlet wants a file opened.
    Open,
    /// The trustlet wants a file read.
    Read,
    /// The trustlet wants a page of a file.
    Mmap,
}

impl TrustletReturnType {
    /// The number of an answer.
    pub open spec fn spec_code(self) -> u64 {
        match self {
            TrustletReturnType::Exit => 0,
            TrustletReturnType::GetResult => 1,
            TrustletReturnType::Error => 2,
            TrustletReturnType::FileAttr => 3,
            TrustletReturnType::Open => 4,
            TrustletReturnType::Read => 5,
            TrustletReturnType::Mmap => 6,
        }
    }

    /// The number of an answer.
    pub fn code(self) -> (code: u64)
        ensures
            code == self.spec_code(),
    {
        match self {
            TrustletReturnType::Exit => 0,
            TrustletReturnType::GetResult => 1,
            TrustletReturnType::Error => 2,
            TrustletReturnType::FileAttr => 3,
            TrustletReturnType::Open => 4,
            TrustletReturnType::Read => 5,
            TrustletReturnType::Mmap => 6,
        }
    }
}

/// Why the guest lets a trustlet run.
#[derive(Clone, Copy, Debug, PartialEq, Eq, Structural)]
pub enum TrustletInvocationType {
    /// The trustlet gets an input.
    Normal,
    /// The attributes of a file are there.
    FileAttr,
    /// A file was opened.
    Open,
    /// A file was read.
    Read,
    /// A page of a file is there.
    Mmap,
}

impl TrustletInvocationType {
    /// The number of a reason.
    pub open spec fn spec_code(self) -> u64 {
        match self {
            TrustletInvocationType::Normal => 0,
            TrustletInvocationType::FileAttr => 1,
            TrustletInvocationType::Open => 2,
            TrustletInvocationType::Read => 3,
            TrustletInvocationType::Mmap => 4,
        }
    }

    /// The reason of that number.
    pub fn from_code(code: u64) -> (reason: Option<TrustletInvocationType>)
        ensures
            reason is Some <==> code <= 4,
            reason matches Some(reason) ==> reason.spec_code() == code,
    {
        match code {
            0 => Some(TrustletInvocationType::Normal),
            1 => Some(TrustletInvocationType::FileAttr),
            2 => Some(TrustletInvocationType::Open),
            3 => Some(TrustletInvocationType::Read),
            4 => Some(TrustletInvocationType::Mmap),
            _ => None,
        }
    }
}

/// What a trustlet asks the guest for.
#[derive(Clone, Copy, Debug, PartialEq, Eq, Structural)]
pub enum PalSvsmGuestRequestType {
    /// The attributes of a file.
    FileAttr,
    /// To open a file.
    Open,
    /// To read a file.
    Read,
}

impl PalSvsmGuestRequestType {
    /// The number of a request.
    pub open spec fn spec_code(self) -> u64 {
        match self {
            PalSvsmGuestRequestType::FileAttr => 0,
            PalSvsmGuestRequestType::Open => 1,
            PalSvsmGuestRequestType::Read => 2,
        }
    }

    /// The request of that number.
    pub fn from_code(code: u64) -> (request: Option<PalSvsmGuestRequestType>)
        ensures
            request is Some <==> code <= 2,
            request matches Some(request) ==> request.spec_code() == code,
    {
        match code {
            0 => Some(PalSvsmGuestRequestType::FileAttr),
            1 => Some(PalSvsmGuestRequestType::Open),
            2 => Some(PalSvsmGuestRequestType::Read),
            _ => None,
        }
    }
}

} // verus!
