//! Fault taxonomy of the privileged architecture, the machine privilege
//! levels, and the trap classification handed back by the trap engine.

use vstd::prelude::*;

verus! {

/// Privilege level of a hart, ordered User < Supervisor < Machine.
#[derive(Clone, Copy, Debug, PartialEq, Eq, Structural)]
pub enum PrivilegeLevel {
    User,
    Supervisor,
    Machine,
}

/// The numeric encoding of a privilege level as the architecture writes it
/// into two-bit fields (User = 0, Supervisor = 1, Machine = 3).
pub open spec fn priv_num(p: PrivilegeLevel) -> u32 {
    match p {
        PrivilegeLevel::User => 0,
        PrivilegeLevel::Supervisor => 1,
        PrivilegeLevel::Machine => 3,
    }
}

/// The privilege level denoted by a two-bit encoding; every encoding that
/// names no level falls back to Machine.
pub open spec fn spec_privilege_of(val: u32) -> PrivilegeLevel {
    if val == 0 {
        PrivilegeLevel::User
    } else if val == 1 {
        PrivilegeLevel::Supervisor
    } else {
        PrivilegeLevel::Machine
    }
}

impl PrivilegeLevel {
    /// Decodes a two-bit privilege encoding, defaulting to Machine.
    pub fn new(val: u32) -> (r: Self)
        ensures
            r == spec_privilege_of(val),
    {
        match val {
            0x00 => Self::User,
            0x01 => Self::Supervisor,
            _ => Self::Machine,
        }
    }

    /// The numeric encoding of this level.
    pub fn to_num(&self) -> (r: u32)
        ensures
            r == priv_num(*self),
    {
        match self {
            Self::User => 0,
            Self::Supervisor => 1,
            Self::Machine => 3,
        }
    }
}

/// Every fault cause the core can raise, one variant per cause code of the
/// privileged specification. The illegal-instruction variant carries the
/// offending instruction word for diagnostics.
#[derive(Clone, Copy, Debug, PartialEq, Eq, Structural)]
pub enum Exception {
    InstructionAddressMisaligned,
    InstructionAccessFault,
    IllegalInstruction(u32),
    Breakpoint,
    LoadAddressMisaligned,
    LoadAccessFault,
    StoreAmoAddressMisaligned,
    StoreAmoAccessFault,
    EnviromentCallFromUMode,
    EnviromentCallFromSMode,
    EnviromentCallFromMMode,
    InstructionPageFault,
    LoadPageFault,
    StoreAmoPageFault,
    DoubleTrap,
    SoftwareCheck,
    HardwareError,
}

/// The fixed cause code of each fault, as the trap engine writes it into the
/// cause CSR.
pub open spec fn spec_cause(e: Exception) -> u32 {
    match e {
        Exception::InstructionAddressMisaligned => 0,
        Exception::InstructionAccessFault => 1,
        Exception::IllegalInstruction(_) => 2,
        Exception::Breakpoint => 3,
        Exception::LoadAddressMisaligned => 4,
        Exception::LoadAccessFault => 5,
        Exception::StoreAmoAddressMisaligned => 6,
        Exception::StoreAmoAccessFault => 7,
        Exception::EnviromentCallFromUMode => 8,
        Exception::EnviromentCallFromSMode => 9,
        Exception::EnviromentCallFromMMode => 11,
        Exception::InstructionPageFault => 12,
        Exception::LoadPageFault => 13,
        Exception::StoreAmoPageFault => 15,
        Exception::DoubleTrap => 16,
        Exception::SoftwareCheck => 18,
        Exception::HardwareError => 19,
    }
}

impl Exception {
    /// The numeric cause code of this fault.
    pub fn get_cause(&self) -> (r: u32)
        ensures
            r == spec_cause(*self),
    {
        match self {
            Self::InstructionAddressMisaligned => 0,
            Self::InstructionAccessFault => 1,
            Self::IllegalInstruction(_) => 2,
            Self::Breakpoint => 3,
            Self::LoadAddressMisaligned => 4,
            Self::LoadAccessFault => 5,
            Self::StoreAmoAddressMisaligned => 6,
            Self::StoreAmoAccessFault => 7,
            Self::EnviromentCallFromUMode => 8,
            Self::EnviromentCallFromSMode => 9,
            Self::EnviromentCallFromMMode => 11,
            Self::InstructionPageFault => 12,
            Self::LoadPageFault => 13,
            Self::StoreAmoPageFault => 15,
            Self::DoubleTrap => 16,
            Self::SoftwareCheck => 18,
            Self::HardwareError => 19,
        }
    }
}

/// How a fault was disposed of by the trap engine.
#[derive(Clone, Copy, Debug, PartialEq, Eq, Structural)]
pub enum Trap {
    Contained,
    Requested,
    Invisible,
    Fatal,
}

} // verus!
