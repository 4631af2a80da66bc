//! The control-request layer: the fixed catalog of privileged operation
//! codes exposed by the virtualization subsystem, and the packing of a
//! catalog entry into the numeric request identifier the kernel expects.
//!
//! Every entry is a kernel ABI constant: its class id, operation number,
//! direction tag and payload type must never be recomputed or altered.

use vstd::prelude::*;

verus! {

/// Class id shared by every control request of the virtualization subsystem.
pub const KVMIO: u8 = 0xAE;

/// Direction tag of a control request: whether a payload travels with the
/// request, and which way.
#[derive(Clone, Copy, Debug, PartialEq, Eq, Structural)]
pub enum Direction {
    /// No payload; the request carries at most one scalar parameter.
    NoData,
    /// Caller-supplied payload that the kernel consumes.
    Write,
    /// Caller-supplied buffer that the kernel fills.
    Read,
    /// Both: the kernel reads the payload and writes the reply into it.
    ReadWrite,
}

/// The payload structure attached to a control request, where one exists.
#[derive(Clone, Copy, Debug, PartialEq, Eq, Structural)]
pub enum Payload {
    MsrList,
    Cpuid2Header,
    MemoryRegion,
    DirtyLog,
    MemoryAlias,
    UserspaceMemoryRegion,
    Regs,
    Sregs,
}

/// Names of the control requests in the catalog.
#[derive(Clone, Copy, Debug, PartialEq, Eq, Structural)]
pub enum NameIOCTL {
    GetVersion,
    CreateVm,
    GetMsrIndexList,
    CheckExtension,
    GetVcpuMmapSize,
    GetSupportedCpuid,
    GetEmulatedCpuid,
    SetCpuid2,
    CreateVcpu,
    GetDirtyLog,
    SetMemoryAlias,
    SetNrMmuPages,
    GetNrMmuPages,
    SetMemoryRegion,
    SetUserMemoryRegion,
    CreateIrqchip,
    Run,
    GetRegs,
    SetRegs,
    GetSregs,
    SetSregs,
}

/// One catalog entry: the ABI-fixed identity of a control request.
#[derive(Clone, Copy, Debug, PartialEq, Eq)]
pub struct ControlRequestCode {
    /// Subsystem class id; every entry of this catalog uses `KVMIO`.
    pub class: u8,
    /// Operation number within the class.
    pub number: u8,
    /// Which way the payload travels, if any.
    pub direction: Direction,
    /// The payload structure, present exactly for the directions that
    /// carry one.
    pub payload: Option<Payload>,
}

/// The catalog itself: the ABI-fixed tuple for each operation.
pub open spec fn spec_code(op: NameIOCTL) -> ControlRequestCode {
    match op {
        NameIOCTL::GetVersion => ControlRequestCode {
            class: KVMIO, number: 0x00, direction: Direction::NoData, payload: None,
        },
        NameIOCTL::CreateVm => ControlRequestCode {
            class: KVMIO, number: 0x01, direction: Direction::NoData, payload: None,
        },
        NameIOCTL::GetMsrIndexList => ControlRequestCode {
            class: KVMIO, number: 0x02, direction: Direction::Read,
            payload: Some(Payload::MsrList),
        },
        NameIOCTL::CheckExtension => ControlRequestCode {
            class: KVMIO, number: 0x03, direction: Direction::NoData, payload: None,
        },
        NameIOCTL::GetVcpuMmapSize => ControlRequestCode {
            class: KVMIO, number: 0x04, direction: Direction::NoData, payload: None,
        },
        NameIOCTL::GetSupportedCpuid => ControlRequestCode {
            class: KVMIO, number: 0x05, direction: Direction::ReadWrite,
            payload: Some(Payload::Cpuid2Header),
        },
        NameIOCTL::GetEmulatedCpuid => ControlRequestCode {
            class: KVMIO, number: 0x09, direction: Direction::Read,
            payload: Some(Payload::Cpuid2Header),
        },
        NameIOCTL::SetCpuid2 => ControlRequestCode {
            class: KVMIO, number: 0x90, direction: Direction::Write,
            payload: Some(Payload::Cpuid2Header),
        },
        NameIOCTL::CreateVcpu => ControlRequestCode {
            class: KVMIO, number: 0x41, direction: Direction::NoData, payload: None,
        },
        NameIOCTL::GetDirtyLog => ControlRequestCode {
            class: KVMIO, number: 0x42, direction: Direction::Read,
            payload: Some(Payload::DirtyLog),
        },
        NameIOCTL::SetMemoryAlias => ControlRequestCode {
            class: KVMIO, number: 0x43, direction: Direction::Write,
            payload: Some(Payload::MemoryAlias),
        },
        NameIOCTL::SetNrMmuPages => ControlRequestCode {
            class: KVMIO, number: 0x44, direction: Direction::NoData, payload: None,
        },
        NameIOCTL::GetNrMmuPages => ControlRequestCode {
            class: KVMIO, number: 0x45, direction: Direction::NoData, payload: None,
        },
        NameIOCTL::SetMemoryRegion => ControlRequestCode {
            class: KVMIO, number: 0x40, direction: Direction::Write,
            payload: Some(Payload::MemoryRegion),
        },
        NameIOCTL::SetUserMemoryRegion => ControlRequestCode {
            class: KVMIO, number: 0x46, direction: Direction::Write,
            payload: Some(Payload::UserspaceMemoryRegion),
        },
        NameIOCTL::CreateIrqchip => ControlRequestCode {
            class: KVMIO, number: 0x60, direction: Direction::NoData, payload: None,
        },
        NameIOCTL::Run => ControlRequestCode {
            class: KVMIO, number: 0x80, direction: Direction::NoData, payload: None,
        },
        NameIOCTL::GetRegs => ControlRequestCode {
            class: KVMIO, number: 0x81, direction: Direction::Read,
            payload: Some(Payload::Regs),
        },
        NameIOCTL::SetRegs => ControlRequestCode {
            class: KVMIO, number: 0x82, direction: Direction::Write,
            payload: Some(Payload::Regs),
        },
        NameIOCTL::GetSregs => ControlRequestCode {
            class: KVMIO, number: 0x83, direction: Direction::Read,
            payload: Some(Payload::Sregs),
        },
        NameIOCTL::SetSregs => ControlRequestCode {
            class: KVMIO, number: 0x84, direction: Direction::Write,
            payload: Some(Payload::Sregs),
        },
    }
}

/// Looks an operation up in the catalog. The result is exactly the
/// ABI-fixed tuple `spec_code` records for it, on every call.
pub fn code(op: NameIOCTL) -> (r: ControlRequestCode)
    ensures
        r == spec_code(op),
{
    match op {
        NameIOCTL::GetVersion => ControlRequestCode {
            class: KVMIO, number: 0x00, direction: Direction::NoData, payload: None,
        },
        NameIOCTL::CreateVm => ControlRequestCode {
            class: KVMIO, number: 0x01, direction: Direction::NoData, payload: None,
        },
        NameIOCTL::GetMsrIndexList => ControlRequestCode {
            class: KVMIO, number: 0x02, direction: Direction::Read,
            payload: Some(Payload::MsrList),
        },
        NameIOCTL::CheckExtension => ControlRequestCode {
            class: KVMIO, number: 0x03, direction: Direction::NoData, payload: None,
        },
        NameIOCTL::GetVcpuMmapSize => ControlRequestCode {
            class: KVMIO, number: 0x04, direction: Direction::NoData, payload: None,
        },
        NameIOCTL::GetSupportedCpuid => ControlRequestCode {
            class: KVMIO, number: 0x05, direction: Direction::ReadWrite,
            payload: Some(Payload::Cpuid2Header),
        },
        NameIOCTL::GetEmulatedCpuid => ControlRequestCode {
            class: KVMIO, number: 0x09, direction: Direction::Read,
            payload: Some(Payload::Cpuid2Header),
        },
        NameIOCTL::SetCpuid2 => ControlRequestCode {
            class: KVMIO, number: 0x90, direction: Direction::Write,
            payload: Some(Payload::Cpuid2Header),
        },
        NameIOCTL::CreateVcpu => ControlRequestCode {
            class: KVMIO, number: 0x41, direction: Direction::NoData, payload: None,
        },
        NameIOCTL::GetDirtyLog => ControlRequestCode {
            class: KVMIO, number: 0x42, direction: Direction::Read,
            payload: Some(Payload::DirtyLog),
        },
        NameIOCTL::SetMemoryAlias => ControlRequestCode {
            class: KVMIO, number: 0x43, direction: Direction::Write,
            payload: Some(Payload::MemoryAlias),
        },
        NameIOCTL::SetNrMmuPages => ControlRequestCode {
            class: KVMIO, number: 0x44, direction: Direction::NoData, payload: None,
        },
        NameIOCTL::GetNrMmuPages => ControlRequestCode {
            class: KVMIO, number: 0x45, direction: Direction::NoData, payload: None,
        },
        NameIOCTL::SetMemoryRegion => ControlRequestCode {
            class: KVMIO, number: 0x40, direction: Direction::Write,
            payload: Some(Payload::MemoryRegion),
        },
        NameIOCTL::SetUserMemoryRegion => ControlRequestCode {
            class: KVMIO, number: 0x46, direction: Direction::Write,
            payload: Some(Payload::UserspaceMemoryRegion),
        },
        NameIOCTL::CreateIrqchip => ControlRequestCode {
            class: KVMIO, number: 0x60, direction: Direction::NoData, payload: None,
        },
        NameIOCTL::Run => ControlRequestCode {
            class: KVMIO, number: 0x80, direction: Direction::NoData, payload: None,
        },
        NameIOCTL::GetRegs => ControlRequestCode {
            class: KVMIO, number: 0x81, direction: Direction::Read,
            payload: Some(Payload::Regs),
        },
        NameIOCTL::SetRegs => ControlRequestCode {
            class: KVMIO, number: 0x82, direction: Direction::Write,
            payload: Some(Payload::Regs),
        },
        NameIOCTL::GetSregs => ControlRequestCode {
            class: KVMIO, number: 0x83, direction: Direction::Read,
            payload: Some(Payload::Sregs),
        },
        NameIOCTL::SetSregs => ControlRequestCode {
            class: KVMIO, number: 0x84, direction: Direction::Write,
            payload: Some(Payload::Sregs),
        },
    }
}

/// The two bits that encode a direction tag in a packed request identifier.
pub open spec fn spec_dir_bits(d: Direction) -> u32 {
    match d {
        Direction::NoData => 0,
        Direction::Write => 1,
        Direction::Read => 2,
        Direction::ReadWrite => 3,
    }
}

/// The numeric request identifier the kernel expects for a request of the
/// given direction, payload size, class id and operation number: the
/// direction in the top two bits, then fourteen bits of payload size, then
/// the class id, then the operation number.
pub open spec fn spec_request_number(
    direction: Direction,
    payload_size: u32,
    class: u8,
    number: u8,
) -> int {
    spec_dir_bits(direction) * 0x4000_0000 + payload_size * 0x1_0000 + class * 0x100 + number
}

/// Maps a direction tag to its two encoding bits.
pub fn dir_bits(d: Direction) -> (r: u32)
    ensures
        r == spec_dir_bits(d),
{
    match d {
        Direction::NoData => 0,
        Direction::Write => 1,
        Direction::Read => 2,
        Direction::ReadWrite => 3,
    }
}

/// Packs a catalog entry and the byte size of its payload into the numeric
/// request identifier the kernel expects. The payload size must fit the
/// fourteen bits the encoding reserves for it; an entry without a payload is
/// packed with size zero.
pub fn request_number(code: &ControlRequestCode, payload_size: u32) -> (r: u32)
    requires
        payload_size < 0x4000,
    ensures
        r == spec_request_number(code.direction, payload_size, code.class, code.number),
{
    let d: u32 = dir_bits(code.direction);
    d * 0x4000_0000 + payload_size * 0x1_0000 + (code.class as u32) * 0x100 + (code.number as u32)
}

/// Looks an operation up in the catalog and packs it with the given payload
/// size in one step.
pub fn request_number_for(op: NameIOCTL, payload_size: u32) -> (r: u32)
    requires
        payload_size < 0x4000,
    ensures
        r == spec_request_number(
            spec_code(op).direction,
            payload_size,
            spec_code(op).class,
            spec_code(op).number,
        ),
{
    let c = code(op);
    request_number(&c, payload_size)
}

/// The catalog is stable: any two lookups of the same operation yield the
/// identical (class id, operation number, direction, payload) tuple.
pub proof fn lemma_catalog_stable(a: ControlRequestCode, b: ControlRequestCode, op: NameIOCTL)
    requires
        a == spec_code(op),
        b == spec_code(op),
    ensures
        a == b,
{
}

} // verus!
