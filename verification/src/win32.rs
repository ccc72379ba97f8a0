//! The numbers of the Win32 interface that the decisions depend on.

use vstd::prelude::*;

verus! {

/// The handle is invalid.
pub const ERROR_INVALID_HANDLE: u32 = 6;

/// The data is invalid.
pub const ERROR_INVALID_DATA: u32 = 13;

/// A device attached to the system is not functioning; also "failed, reason unknown".
pub const ERROR_GEN_FAILURE: u32 = 31;

/// The request is not supported.
pub const ERROR_NOT_SUPPORTED: u32 = 50;

/// The parameter is incorrect.
pub const ERROR_INVALID_PARAMETER: u32 = 87;

/// The function is not implemented on this system.
pub const ERROR_CALL_NOT_IMPLEMENTED: u32 = 120;

/// Not all privileges or groups referenced are assigned to the caller.
pub const ERROR_NOT_ALL_ASSIGNED: u32 = 1300;

/// No machine type: "not a WOW64 process" or "not known".
pub const IMAGE_FILE_MACHINE_UNKNOWN: u16 = 0;

/// 32-bit x86.
pub const IMAGE_FILE_MACHINE_I386: u16 = 0x14c;

/// 32-bit ARM, little endian.
pub const IMAGE_FILE_MACHINE_ARM: u16 = 0x1c0;

/// 32-bit ARM, Thumb.
pub const IMAGE_FILE_MACHINE_THUMB: u16 = 0x1c2;

/// 32-bit ARM, Thumb-2.
pub const IMAGE_FILE_MACHINE_ARMNT: u16 = 0x1c4;

/// 64-bit Itanium.
pub const IMAGE_FILE_MACHINE_IA64: u16 = 0x200;

/// x86-64.
pub const IMAGE_FILE_MACHINE_AMD64: u16 = 0x8664;

/// 64-bit ARM.
pub const IMAGE_FILE_MACHINE_ARM64: u16 = 0xaa64;

/// Names of program files in the form that file calls take.
pub const PROCESS_NAME_WIN32: u32 = 0;

/// The right to read a token.
pub const TOKEN_QUERY: u32 = 0x8;

/// The right to enable and disable a token's privileges.
pub const TOKEN_ADJUST_PRIVILEGES: u32 = 0x20;

/// The attribute of an enabled privilege.
pub const SE_PRIVILEGE_ENABLED: u32 = 0x2;

} // verus!
