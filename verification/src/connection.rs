//! The connection manager: ownership of the handle to the open
//! virtualization device, and the classification of the kernel's replies to
//! the version probe and the VM-creation request.

use vstd::prelude::*;
use crate::catalog::NameIOCTL;

verus! {

/// Outcome of the version probe. The subsystem's interface is frozen at
/// version 12: exactly that value is supported, every other successfully
/// read value is an incompatibility to be surfaced.
#[derive(Clone, Copy, Debug, PartialEq, Eq, Structural)]
pub enum Version {
    Version12,
    Unsupported,
}

/// Classification of a successfully read version value.
pub open spec fn spec_classify_version(v: i32) -> Version {
    if v == 12 {
        Version::Version12
    } else {
        Version::Unsupported
    }
}

/// Classifies a successfully read version value: 12 and nothing else is
/// supported; 0, negative sentinels and every other value are merely
/// unsupported, never an error.
pub fn classify_version(v: i32) -> (r: Version)
    ensures
        r == spec_classify_version(v),
{
    if v == 12 {
        Version::Version12
    } else {
        Version::Unsupported
    }
}

/// A version value classifies as supported exactly when it is the literal 12.
pub proof fn lemma_supported_iff_twelve(v: i32)
    ensures
        spec_classify_version(v) is Version12 <==> v == 12,
{
}

/// OS-level handle for the open virtualization device. The raw descriptor
/// value is owned by the connection manager and copied into the spawn
/// parameters when a virtual machine is created, as the kernel permits the
/// operations used here to share one open device.
#[derive(Clone, Copy, Debug, PartialEq, Eq, Structural)]
pub struct DeviceHandle {
    pub raw: i32,
}

/// Kernel-assigned identifier of a freshly created virtual machine.
/// Ephemeral in this crate: it is moved into the spawn parameters the moment
/// the creation request succeeds and never retained or duplicated here.
#[derive(Debug, PartialEq, Eq, Structural)]
pub struct VmHandle {
    pub raw: i32,
}

/// The typed error domain every kernel-level failure is translated into.
#[derive(Clone, Copy, Debug, PartialEq, Eq, Structural)]
pub enum Error {
    /// The named control request failed at the OS level.
    ControlRequestFailed(NameIOCTL),
    /// The VM-creation request failed; carries the underlying OS error code.
    VmCreationFailed(i32),
    /// The virtualization device node could not be opened; carries the
    /// underlying OS error code. A reportable outcome, never a reason to
    /// terminate the process.
    CannotOpenDevice(i32),
}

/// Everything the virtual-machine collaborator receives when a creation
/// request succeeds: both handles and the requested guest memory size, by
/// value, as a one-time transfer of ownership.
#[derive(Debug, PartialEq, Eq, Structural)]
pub struct VmSpawn {
    pub device: DeviceHandle,
    pub vm: VmHandle,
    pub memory_size: usize,
}

/// The spawn parameters produced by a successful creation reply: the device
/// handle and the kernel's fresh identifier, with the requested size passed
/// through unmodified.
pub open spec fn spec_spawn(device: DeviceHandle, vm_fd: i32, size: usize) -> VmSpawn {
    VmSpawn { device, vm: VmHandle { raw: vm_fd }, memory_size: size }
}

/// Classification of the kernel's reply to the VM-creation request: a fresh
/// identifier becomes spawn parameters, a failure becomes
/// `VmCreationFailed` with its OS error code.
pub open spec fn spec_create_vm(
    device: DeviceHandle,
    reply: Result<i32, i32>,
    size: usize,
) -> Result<VmSpawn, Error> {
    match reply {
        Result::Ok(vm_fd) => Result::Ok(spec_spawn(device, vm_fd, size)),
        Result::Err(e) => Result::Err(Error::VmCreationFailed(e)),
    }
}

/// Classification of the kernel's reply to the version probe.
pub open spec fn spec_probe_version(reply: Result<i32, i32>) -> Result<Version, Error> {
    match reply {
        Result::Ok(v) => Result::Ok(spec_classify_version(v)),
        Result::Err(_) => Result::Err(Error::ControlRequestFailed(NameIOCTL::GetVersion)),
    }
}

/// Classification of the outcome of opening the virtualization device node:
/// a descriptor becomes an established connection, a failure becomes the
/// typed, recoverable `CannotOpenDevice`.
pub open spec fn spec_connect(opened: Result<i32, i32>) -> Result<Uhyve, Error> {
    match opened {
        Result::Ok(fd) => Result::Ok(Uhyve { device: DeviceHandle { raw: fd } }),
        Result::Err(e) => Result::Err(Error::CannotOpenDevice(e)),
    }
}

/// The connection manager: owns the handle to the open virtualization
/// device, established exactly once at construction, and exposes the
/// version probe and the VM-creation operation on it.
#[derive(Debug)]
pub struct Uhyve {
    pub device: DeviceHandle,
}

impl Uhyve {
    /// The handle this connection manager owns.
    pub open spec fn spec_device(&self) -> DeviceHandle {
        self.device
    }

    /// Establishes a connection manager over an already opened device
    /// handle. The handle is recorded as is and owned from here on.
    pub fn new(device: DeviceHandle) -> (r: Uhyve)
        ensures
            r.spec_device() == device,
    {
        Uhyve { device }
    }

    /// Establishes a connection manager from the outcome of opening the
    /// device node: the descriptor on success, the OS error code on
    /// failure. An open failure surfaces as the typed `CannotOpenDevice`,
    /// never as process termination, so independent callers can each react
    /// to their own outcome.
    pub fn connect(opened: Result<i32, i32>) -> (r: Result<Uhyve, Error>)
        ensures
            r == spec_connect(opened),
    {
        match opened {
            Result::Ok(fd) => Result::Ok(Uhyve { device: DeviceHandle { raw: fd } }),
            Result::Err(e) => Result::Err(Error::CannotOpenDevice(e)),
        }
    }

    /// The raw handle of the open device, for issuing control requests.
    pub fn device(&self) -> (r: DeviceHandle)
        ensures
            r == self.spec_device(),
    {
        self.device
    }

    /// Classifies the kernel's reply to the version probe: exactly the
    /// value 12 is supported, any other successfully read value is
    /// unsupported, and a failed request surfaces as
    /// `ControlRequestFailed` naming the version query — independent of any
    /// prior state.
    pub fn version(&self, reply: Result<i32, i32>) -> (r: Result<Version, Error>)
        ensures
            r == spec_probe_version(reply),
    {
        match reply {
            Result::Ok(v) => Result::Ok(classify_version(v)),
            Result::Err(_) => Result::Err(Error::ControlRequestFailed(NameIOCTL::GetVersion)),
        }
    }

    /// Classifies the kernel's reply to the VM-creation request. On
    /// success the returned spawn parameters carry this manager's device
    /// handle, the kernel's fresh identifier, and the requested guest
    /// memory size unmodified — they are what the virtual-machine
    /// collaborator's constructor receives, and the only path to it. On
    /// failure no spawn parameters exist: the collaborator is never
    /// invoked, whatever the size, and the OS error code is carried in
    /// `VmCreationFailed`. A size of zero is valid here; any size policy
    /// belongs to the collaborator.
    pub fn create_vm(&self, reply: Result<i32, i32>, size: usize) -> (r: Result<VmSpawn, Error>)
        ensures
            r == spec_create_vm(self.spec_device(), reply, size),
    {
        match reply {
            Result::Ok(vm_fd) => Result::Ok(
                VmSpawn { device: self.device, vm: VmHandle { raw: vm_fd }, memory_size: size },
            ),
            Result::Err(e) => Result::Err(Error::VmCreationFailed(e)),
        }
    }
}

/// A failed version probe is reported as `ControlRequestFailed` naming the
/// version query, whatever the OS error code was.
pub proof fn lemma_probe_failure_reported(e: i32)
    ensures
        spec_probe_version(Result::Err(e)) == Result::Err::<Version, Error>(
            Error::ControlRequestFailed(NameIOCTL::GetVersion),
        ),
{
}

/// Whenever the creation request succeeds, spawn parameters are produced
/// and carry the requested guest memory size through unmodified, the device
/// handle as given, and the kernel's identifier — for a size of zero just
/// as for any other.
pub proof fn lemma_create_vm_passes_size_through(device: DeviceHandle, vm_fd: i32, size: usize)
    ensures
        spec_create_vm(device, Result::Ok(vm_fd), size) == Result::Ok::<VmSpawn, Error>(
            (VmSpawn { device, vm: VmHandle { raw: vm_fd }, memory_size: size }),
        ),
{
}

/// Whenever the creation request fails, the outcome is `VmCreationFailed`
/// carrying the OS error code, whatever the requested size: no spawn
/// parameters exist, so the virtual-machine collaborator cannot be invoked.
pub proof fn lemma_create_vm_failure(device: DeviceHandle, e: i32, size: usize)
    ensures
        spec_create_vm(device, Result::Err(e), size) == Result::Err::<VmSpawn, Error>(
            Error::VmCreationFailed(e),
        ),
{
}

/// Independent creation calls that observe distinct kernel identifiers
/// produce distinct VM handles, whatever devices and sizes they were made
/// with.
pub proof fn lemma_distinct_replies_distinct_handles(
    d1: DeviceHandle,
    d2: DeviceHandle,
    f1: i32,
    f2: i32,
    s1: usize,
    s2: usize,
)
    requires
        f1 != f2,
    ensures
        spec_spawn(d1, f1, s1).vm != spec_spawn(d2, f2, s2).vm,
{
}

/// Independently constructed connection managers are independent: each open
/// outcome classifies on its own, a successful open always yields a manager
/// over that very descriptor, and a refused open always yields the typed,
/// reportable `CannotOpenDevice`.
pub proof fn lemma_connections_independent(first: Result<i32, i32>, second: Result<i32, i32>)
    ensures
        first matches Result::Ok(fd) ==> spec_connect(first) matches Result::Ok(u)
            && u.spec_device() == (DeviceHandle { raw: fd }),
        second matches Result::Ok(fd) ==> spec_connect(second) matches Result::Ok(u)
            && u.spec_device() == (DeviceHandle { raw: fd }),
        second matches Result::Err(e) ==> spec_connect(second) == Result::Err::<Uhyve, Error>(
            Error::CannotOpenDevice(e),
        ),
{
}

} // verus!
