use taskmgr_native::machines::{classify_machines, ExecutionMode};
use taskmgr_native::scan::image_is_arm64ec;
use windows_sys::Win32::Foundation::{ERROR_INVALID_DATA, ERROR_NOT_SUPPORTED};
use windows_sys::Win32::System::SystemInformation::{
    IMAGE_FILE_MACHINE_AMD64, IMAGE_FILE_MACHINE_ARM64, IMAGE_FILE_MACHINE_ARMNT,
    IMAGE_FILE_MACHINE_I386, IMAGE_FILE_MACHINE_UNKNOWN,
};

#[test]
fn classifies_host_and_process_independently_of_observer() {
    for (host, process, mode) in [
        (
            IMAGE_FILE_MACHINE_ARM64,
            IMAGE_FILE_MACHINE_I386,
            ExecutionMode::EmulatedX86,
        ),
        (
            IMAGE_FILE_MACHINE_ARM64,
            IMAGE_FILE_MACHINE_AMD64,
            ExecutionMode::EmulatedX64,
        ),
        (
            IMAGE_FILE_MACHINE_ARM64,
            IMAGE_FILE_MACHINE_ARM64,
            ExecutionMode::Native,
        ),
        (
            IMAGE_FILE_MACHINE_ARM64,
            IMAGE_FILE_MACHINE_ARMNT,
            ExecutionMode::Compatibility32,
        ),
        (
            IMAGE_FILE_MACHINE_AMD64,
            IMAGE_FILE_MACHINE_I386,
            ExecutionMode::Compatibility32,
        ),
        (
            IMAGE_FILE_MACHINE_AMD64,
            IMAGE_FILE_MACHINE_AMD64,
            ExecutionMode::Native,
        ),
        (
            IMAGE_FILE_MACHINE_I386,
            IMAGE_FILE_MACHINE_I386,
            ExecutionMode::Native,
        ),
    ] {
        let result = classify_machines(IMAGE_FILE_MACHINE_UNKNOWN, host, Some(process)).unwrap();
        assert_eq!(result.mode, mode);
        assert_eq!(result.process_machine, process);
        assert_eq!(result.native_machine, host);
    }
}

#[test]
fn old_api_keeps_known_bitness_but_never_guesses_arm64_native() {
    assert_eq!(
        classify_machines(0, IMAGE_FILE_MACHINE_ARM64, None),
        Err(ERROR_NOT_SUPPORTED)
    );
    assert_eq!(
        classify_machines(IMAGE_FILE_MACHINE_I386, IMAGE_FILE_MACHINE_ARM64, None)
            .unwrap()
            .mode,
        ExecutionMode::EmulatedX86
    );
    assert_eq!(
        classify_machines(0, IMAGE_FILE_MACHINE_I386, None)
            .unwrap()
            .mode,
        ExecutionMode::Native
    );
    assert_eq!(
        classify_machines(IMAGE_FILE_MACHINE_I386, IMAGE_FILE_MACHINE_AMD64, None)
            .unwrap()
            .mode,
        ExecutionMode::Compatibility32
    );
    assert_eq!(
        classify_machines(0, IMAGE_FILE_MACHINE_ARM64, Some(0)),
        Err(ERROR_INVALID_DATA)
    );
    assert_eq!(
        classify_machines(0, 0xffff, Some(IMAGE_FILE_MACHINE_I386)),
        Err(ERROR_INVALID_DATA)
    );
}

fn put16(bytes: &mut [u8], offset: usize, value: u16) {
    bytes[offset..offset + 2].copy_from_slice(&value.to_le_bytes());
}

fn put32(bytes: &mut [u8], offset: usize, value: u32) {
    bytes[offset..offset + 4].copy_from_slice(&value.to_le_bytes());
}

fn put64(bytes: &mut [u8], offset: usize, value: u64) {
    bytes[offset..offset + 8].copy_from_slice(&value.to_le_bytes());
}

fn image(hybrid: bool) -> Vec<u8> {
    let mut bytes = vec![0u8; 1024];
    bytes[..2].copy_from_slice(b"MZ");
    put32(&mut bytes, 60, 64);
    bytes[64..68].copy_from_slice(b"PE\0\0");
    put16(&mut bytes, 68, IMAGE_FILE_MACHINE_AMD64);
    put16(&mut bytes, 70, 1);
    put16(&mut bytes, 84, 240);
    put16(&mut bytes, 88, 0x20b);
    put64(&mut bytes, 112, 0x140000000);
    put32(&mut bytes, 148, 512);
    put32(&mut bytes, 196, 16);
    put32(&mut bytes, 280, 4096);
    put32(&mut bytes, 284, 208);
    put32(&mut bytes, 340, 4096);
    put32(&mut bytes, 344, 512);
    put32(&mut bytes, 348, 512);
    put32(&mut bytes, 512, 208);
    if hybrid {
        put64(&mut bytes, 712, 0x140001100);
    }
    bytes
}

#[test]
fn final_amd64_images_are_distinguished_by_hybrid_metadata() {
    assert_eq!(image_is_arm64ec(&image(false)), Ok(false));
    assert_eq!(image_is_arm64ec(&image(true)), Ok(true));
    let mut old = image(false);
    put32(&mut old, 512, 192);
    assert_eq!(image_is_arm64ec(&old), Ok(false));
}

#[test]
fn anycpu_disk_headers_do_not_override_the_queried_runtime_architecture() {
    let mut bytes = image(false);
    put16(&mut bytes, 68, IMAGE_FILE_MACHINE_I386);
    put16(&mut bytes, 88, 0x10b);
    put32(&mut bytes, 180, 16);
    put32(&mut bytes, 296, 4096);
    put32(&mut bytes, 300, 72);
    put32(&mut bytes, 512, 72);
    put32(&mut bytes, 528, 1); // COMIMAGE_FLAGS_ILONLY
    assert_eq!(image_is_arm64ec(&bytes), Ok(false));
    put32(&mut bytes, 528, 3); // COMIMAGE_FLAGS_32BITREQUIRED is incompatible with x86-64
    assert_eq!(image_is_arm64ec(&bytes), Err(ERROR_INVALID_DATA));
    put32(&mut bytes, 296, 0);
    assert_eq!(image_is_arm64ec(&bytes), Err(ERROR_INVALID_DATA));
}

#[test]
fn truncated_or_malformed_images_never_claim_emulation() {
    let valid = image(true);
    for length in [0, 63, 87, 199, 327, 367, 511, 719, 771] {
        assert_eq!(image_is_arm64ec(&valid[..length]), Err(ERROR_INVALID_DATA));
    }
    for (offset, value) in [
        (60, u32::MAX),
        (196, u32::MAX),
        (280, u32::MAX),
        (284, u32::MAX),
        (512, 209),
        (344, 1),
        (348, u32::MAX),
    ] {
        let mut bytes = image(true);
        put32(&mut bytes, offset, value);
        assert_eq!(image_is_arm64ec(&bytes), Err(ERROR_INVALID_DATA));
    }
    let mut object_machine = image(true);
    put16(&mut object_machine, 68, 0xa641);
    assert_eq!(image_is_arm64ec(&object_machine), Err(ERROR_INVALID_DATA));
    let mut bad_pointer = image(true);
    put64(&mut bad_pointer, 712, 1);
    assert_eq!(image_is_arm64ec(&bad_pointer), Err(ERROR_INVALID_DATA));
}

#[test]
fn every_prefix_gives_the_same_answer_or_none() {
    for hybrid in [false, true] {
        let whole = image(hybrid);
        for length in 0..whole.len() {
            let answer = image_is_arm64ec(&whole[..length]);
            assert!(answer == Ok(hybrid) || answer == Err(ERROR_INVALID_DATA));
        }
    }
    assert_eq!(image_is_arm64ec(&image(true)[..772]), Ok(true));
    assert_eq!(image_is_arm64ec(&image(false)[..720]), Ok(false));
}

#[test]
fn header_fields_at_their_limits() {
    let cases: [(usize, u16, Result<bool, u32>); 6] = [
        (70, 0, Err(ERROR_INVALID_DATA)),      // no section
        (70, 97, Err(ERROR_INVALID_DATA)),     // more sections than the loader takes
        (84, 95, Err(ERROR_INVALID_DATA)),     // optional header too short
        (84, 111, Err(ERROR_INVALID_DATA)),    // too short for 64-bit directories
        (88, 0x10b, Err(ERROR_INVALID_DATA)),  // 32-bit header for x86-64
        (70, 1, Ok(true)),
    ];
    for (offset, value, expected) in cases {
        let mut bytes = image(true);
        put16(&mut bytes, offset, value);
        assert_eq!(image_is_arm64ec(&bytes), expected);
    }
    let mut bytes = image(true);
    put32(&mut bytes, 60, 63); // overlaps the first header
    assert_eq!(image_is_arm64ec(&bytes), Err(ERROR_INVALID_DATA));
    let mut bytes = image(true);
    bytes[0] = b'N';
    assert_eq!(image_is_arm64ec(&bytes), Err(ERROR_INVALID_DATA));
    let mut bytes = image(true);
    bytes[67] = 1;
    assert_eq!(image_is_arm64ec(&bytes), Err(ERROR_INVALID_DATA));
}

#[test]
fn load_configurations_at_their_limits() {
    let mut bytes = image(true);
    put32(&mut bytes, 196, 10); // no load configuration directory
    assert_eq!(image_is_arm64ec(&bytes), Ok(false));
    let mut bytes = image(true);
    put32(&mut bytes, 280, 0);
    assert_eq!(image_is_arm64ec(&bytes), Err(ERROR_INVALID_DATA));
    put32(&mut bytes, 284, 0); // an empty directory
    assert_eq!(image_is_arm64ec(&bytes), Ok(false));
    let mut bytes = image(true);
    put32(&mut bytes, 284, 3);
    assert_eq!(image_is_arm64ec(&bytes), Err(ERROR_INVALID_DATA));
    let mut bytes = image(true);
    put32(&mut bytes, 512, 3);
    assert_eq!(image_is_arm64ec(&bytes), Err(ERROR_INVALID_DATA));
    put32(&mut bytes, 512, 207); // ends before the pointer does
    assert_eq!(image_is_arm64ec(&bytes), Ok(false));
    let mut bytes = image(true);
    put64(&mut bytes, 712, 0x140000000 + 0x1_0000_0000); // no 32-bit address
    assert_eq!(image_is_arm64ec(&bytes), Err(ERROR_INVALID_DATA));
    put64(&mut bytes, 712, 0x140000000 + 508); // in the headers
    assert_eq!(image_is_arm64ec(&bytes), Ok(true));
    put64(&mut bytes, 712, 0x140000000 + 509); // reaches past the headers
    assert_eq!(image_is_arm64ec(&bytes), Err(ERROR_INVALID_DATA));
}

#[test]
fn managed_headers_at_their_limits() {
    let mut valid = image(false);
    put16(&mut valid, 68, IMAGE_FILE_MACHINE_I386);
    put16(&mut valid, 88, 0x10b);
    put32(&mut valid, 180, 16);
    put32(&mut valid, 296, 4096);
    put32(&mut valid, 300, 72);
    put32(&mut valid, 512, 72);
    put32(&mut valid, 528, 1);
    for (offset, value, expected) in [
        (528, 5, Ok(false)),                    // higher flags do not matter
        (528, 0, Err(ERROR_INVALID_DATA)),      // not pure managed code
        (180, 15, Ok(false)),                   // the last directory that is needed
        (180, 14, Err(ERROR_INVALID_DATA)),     // one too few
        (180, 19, Err(ERROR_INVALID_DATA)),     // more than the header has room for
        (300, 71, Err(ERROR_INVALID_DATA)),     // a directory too small
        (512, 71, Err(ERROR_INVALID_DATA)),     // a header too small
        (512, 73, Err(ERROR_INVALID_DATA)),     // a header larger than its directory
    ] {
        let mut bytes = valid.clone();
        put32(&mut bytes, offset, value);
        assert_eq!(image_is_arm64ec(&bytes), expected);
    }
}
