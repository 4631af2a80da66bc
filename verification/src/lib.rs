//! Connection bootstrap for a kernel-exposed hardware virtualization
//! subsystem (KVM).
//!
//! The crate declares the fixed catalog of device-control request codes that
//! the subsystem understands, the arithmetic that packs a catalog entry into
//! the numeric request identifier the kernel expects, and the connection
//! manager that classifies the kernel's replies to the version probe and the
//! VM-creation request. The kernel calls themselves (opening the device node,
//! issuing a control request) are left to the embedding program, which hands
//! the raw outcomes to the functions here.

pub mod catalog;
pub mod connection;
