use taskmgr_native::bytes::{u16_at, u32_at, u64_at};
use taskmgr_native::errors::{io_error, last_error, IoFailure};
use taskmgr_native::machines::{classify_machines, machine_is_32_bit, ExecutionMode};
use taskmgr_native::rva::rva_offset;
use taskmgr_native::scan::read_at;
use taskmgr_native::win32;
use windows_sys::Win32::Foundation as foundation;
use windows_sys::Win32::Security as security;
use windows_sys::Win32::System::SystemInformation as system;
use windows_sys::Win32::System::Threading as threading;

#[test]
fn constants_are_those_of_the_system() {
    assert_eq!(win32::ERROR_INVALID_HANDLE, foundation::ERROR_INVALID_HANDLE);
    assert_eq!(win32::ERROR_INVALID_DATA, foundation::ERROR_INVALID_DATA);
    assert_eq!(win32::ERROR_GEN_FAILURE, foundation::ERROR_GEN_FAILURE);
    assert_eq!(win32::ERROR_NOT_SUPPORTED, foundation::ERROR_NOT_SUPPORTED);
    assert_eq!(win32::ERROR_INVALID_PARAMETER, foundation::ERROR_INVALID_PARAMETER);
    assert_eq!(win32::ERROR_CALL_NOT_IMPLEMENTED, foundation::ERROR_CALL_NOT_IMPLEMENTED);
    assert_eq!(win32::ERROR_NOT_ALL_ASSIGNED, foundation::ERROR_NOT_ALL_ASSIGNED);
    assert_eq!(win32::IMAGE_FILE_MACHINE_UNKNOWN, system::IMAGE_FILE_MACHINE_UNKNOWN);
    assert_eq!(win32::IMAGE_FILE_MACHINE_I386, system::IMAGE_FILE_MACHINE_I386);
    assert_eq!(win32::IMAGE_FILE_MACHINE_ARM, system::IMAGE_FILE_MACHINE_ARM);
    assert_eq!(win32::IMAGE_FILE_MACHINE_THUMB, system::IMAGE_FILE_MACHINE_THUMB);
    assert_eq!(win32::IMAGE_FILE_MACHINE_ARMNT, system::IMAGE_FILE_MACHINE_ARMNT);
    assert_eq!(win32::IMAGE_FILE_MACHINE_IA64, system::IMAGE_FILE_MACHINE_IA64);
    assert_eq!(win32::IMAGE_FILE_MACHINE_AMD64, system::IMAGE_FILE_MACHINE_AMD64);
    assert_eq!(win32::IMAGE_FILE_MACHINE_ARM64, system::IMAGE_FILE_MACHINE_ARM64);
    assert_eq!(win32::PROCESS_NAME_WIN32, threading::PROCESS_NAME_WIN32);
    assert_eq!(win32::TOKEN_QUERY, security::TOKEN_QUERY);
    assert_eq!(win32::TOKEN_ADJUST_PRIVILEGES, security::TOKEN_ADJUST_PRIVILEGES);
    assert_eq!(win32::SE_PRIVILEGE_ENABLED, security::SE_PRIVILEGE_ENABLED);
}

#[test]
fn fields_are_little_endian() {
    let data = [0xff, 0x01, 0x02, 0x03, 0x04, 0x05, 0x06, 0x07, 0x88];
    assert_eq!(u16_at(&data, 1), 0x0201);
    assert_eq!(u32_at(&data, 1), 0x0403_0201);
    assert_eq!(u64_at(&data, 1), 0x8807_0605_0403_0201);
    assert_eq!(u16_at(&[0xff, 0xff], 0), u16::MAX);
    assert_eq!(u32_at(&[0xff; 4], 0), u32::MAX);
    assert_eq!(u64_at(&[0xff; 8], 0), u64::MAX);
}

#[test]
fn a_window_holds_the_same_fields() {
    let data: Vec<u8> = (0..40).collect();
    assert_eq!(u16_at(&data[8..24], 3), u16_at(&data, 11));
    assert_eq!(u32_at(&data[8..24], 3), u32_at(&data, 11));
    assert_eq!(u64_at(&data[8..24], 3), u64_at(&data, 11));
}

#[test]
fn failures_have_codes() {
    assert_eq!(last_error(0), foundation::ERROR_GEN_FAILURE);
    assert_eq!(last_error(5), 5);
    let eof = IoFailure { unexpected_eof: true, raw_os_error: Some(2) };
    assert_eq!(io_error(eof), foundation::ERROR_INVALID_DATA);
    let numbered = IoFailure { unexpected_eof: false, raw_os_error: Some(2) };
    assert_eq!(io_error(numbered), 2);
    for raw_os_error in [Some(0), Some(-1), None] {
        let failure = IoFailure { unexpected_eof: false, raw_os_error };
        assert_eq!(io_error(failure), foundation::ERROR_GEN_FAILURE);
    }
}

#[test]
fn machine_types_have_a_width() {
    for machine in [
        system::IMAGE_FILE_MACHINE_I386,
        system::IMAGE_FILE_MACHINE_ARM,
        system::IMAGE_FILE_MACHINE_ARMNT,
        system::IMAGE_FILE_MACHINE_THUMB,
    ] {
        assert_eq!(machine_is_32_bit(machine), Ok(true));
    }
    for machine in [
        system::IMAGE_FILE_MACHINE_AMD64,
        system::IMAGE_FILE_MACHINE_ARM64,
        system::IMAGE_FILE_MACHINE_IA64,
    ] {
        assert_eq!(machine_is_32_bit(machine), Ok(false));
    }
    for machine in [0, 1, 0xa641, 0xffff] {
        assert_eq!(machine_is_32_bit(machine), Err(foundation::ERROR_INVALID_DATA));
    }
}

#[test]
fn impossible_pairs_of_machines_are_invalid() {
    let invalid = Err(foundation::ERROR_INVALID_DATA);
    assert_eq!(classify_machines(0, win32::IMAGE_FILE_MACHINE_AMD64, Some(0xaa64)), invalid);
    assert_eq!(classify_machines(0, win32::IMAGE_FILE_MACHINE_I386, Some(0x8664)), invalid);
    assert_eq!(classify_machines(0, win32::IMAGE_FILE_MACHINE_ARMNT, Some(0x14c)), invalid);
}

#[test]
fn a_reported_machine_counts_whatever_wow64_shows() {
    for wow in [0, 0x14c, 0x1c4, 0xffff] {
        let result = classify_machines(wow, win32::IMAGE_FILE_MACHINE_ARM64, Some(0x8664));
        assert_eq!(result.unwrap().mode, ExecutionMode::EmulatedX64);
    }
}

#[test]
fn every_mode_follows_from_the_machines() {
    let known = [0x14c, 0x1c0, 0x1c2, 0x1c4, 0x200, 0x8664, 0xaa64];
    for native in known {
        for process in known {
            if let Ok(architecture) = classify_machines(0, native, Some(process)) {
                assert_eq!(architecture.mode == ExecutionMode::Native, native == process);
                assert_eq!(
                    architecture.mode == ExecutionMode::EmulatedX64,
                    native == 0xaa64 && process == 0x8664
                );
                assert_ne!(architecture.mode, ExecutionMode::Arm64Ec);
            }
        }
    }
}

#[test]
fn reads_stay_inside_the_file() {
    assert_eq!(read_at(100, 90, 10), Ok(()));
    assert_eq!(read_at(100, 91, 10), Err(foundation::ERROR_INVALID_DATA));
    assert_eq!(read_at(u64::MAX, u64::MAX, 1), Err(foundation::ERROR_INVALID_DATA));
    assert_eq!(read_at(0, 0, 0), Ok(()));
}

fn section(address: u32, raw_size: u32, raw_offset: u32) -> Vec<u8> {
    let mut entry = vec![0u8; 40];
    entry[12..16].copy_from_slice(&address.to_le_bytes());
    entry[16..20].copy_from_slice(&raw_size.to_le_bytes());
    entry[20..24].copy_from_slice(&raw_offset.to_le_bytes());
    entry
}

#[test]
fn addresses_resolve_to_one_place() {
    let invalid = Err(foundation::ERROR_INVALID_DATA);
    let mut table = section(0x1000, 0x200, 0x400);
    table.extend(section(0x2000, 0x100, 0x600));
    assert_eq!(rva_offset(0x1010, 4, 0x400, &table, 0x700), Ok(0x410));
    assert_eq!(rva_offset(0x20fc, 4, 0x400, &table, 0x700), Ok(0x6fc));
    assert_eq!(rva_offset(0x20fd, 4, 0x400, &table, 0x700), invalid);
    assert_eq!(rva_offset(0x3fc, 4, 0x400, &table, 0x700), Ok(0x3fc));
    assert_eq!(rva_offset(0x3fd, 4, 0x400, &table, 0x700), invalid);
    // The file ends first.
    assert_eq!(rva_offset(0x20fc, 4, 0x400, &table, 0x6ff), invalid);
    assert_eq!(rva_offset(0x10, 4, 0x400, &table, 0x13), invalid);
    // Two sections, or a section and the headers, hold the same address.
    table.extend(section(0x10f0, 0x100, 0x600));
    assert_eq!(rva_offset(0x1100, 4, 0x400, &table, 0x700), invalid);
    table.extend(section(0x100, 0x100, 0x600));
    assert_eq!(rva_offset(0x110, 4, 0x400, &table, 0x700), invalid);
    // A rest that is no whole entry does not count.
    let mut rest = section(0x1000, 0x200, 0x400);
    rest.truncate(39);
    assert_eq!(rva_offset(0x1010, 4, 0x400, &rest, 0x700), invalid);
    assert_eq!(rva_offset(u32::MAX, u32::MAX, u32::MAX, &[], u64::MAX), invalid);
}
