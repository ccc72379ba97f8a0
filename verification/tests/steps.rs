use taskmgr_native::errors::IoFailure;
use taskmgr_native::machines::{ExecutionMode, ProcessArchitecture};
use taskmgr_native::main_image::{
    file_opened, image_opened, image_scanned, main_image_is_arm64ec, name_queried,
    open_main_image, redirection_disabled, redirection_restored, ImageName, InspectStep, OpenStep,
};
use taskmgr_native::query::{
    machines_queried, main_image_inspected, process_machine_queried,
    query_process_architecture_handle, Machines, QueryStep,
};
use taskmgr_native::safety::{
    elevation_queried, elevation_token_closed, elevation_token_opened, enable_debug_privilege,
    last_error_cleared, privilege_looked_up, privileges_adjusted, process_is_elevated,
    token_closed, token_opened, Adjustment, ElevationStep, Luid, PrivilegeStep, TokenPrivileges,
};
use taskmgr_native::scan::ScanStep;
use windows_sys::Win32::Foundation::{
    ERROR_CALL_NOT_IMPLEMENTED, ERROR_GEN_FAILURE, ERROR_INVALID_DATA, ERROR_INVALID_HANDLE,
    ERROR_INVALID_PARAMETER, ERROR_NOT_ALL_ASSIGNED, ERROR_NOT_SUPPORTED,
};
use windows_sys::Win32::Security::{
    SE_PRIVILEGE_ENABLED, TOKEN_ADJUST_PRIVILEGES, TOKEN_QUERY,
};
use windows_sys::Win32::System::SystemInformation::{
    IMAGE_FILE_MACHINE_AMD64, IMAGE_FILE_MACHINE_ARM64, IMAGE_FILE_MACHINE_I386,
};

const EOF: IoFailure = IoFailure { unexpected_eof: true, raw_os_error: None };
const DENIED: IoFailure = IoFailure { unexpected_eof: false, raw_os_error: Some(5) };

fn hybrid_image() -> Vec<u8> {
    let mut bytes = vec![0u8; 1024];
    bytes[..2].copy_from_slice(b"MZ");
    bytes[60] = 64;
    bytes[64..68].copy_from_slice(b"PE\0\0");
    bytes[68..70].copy_from_slice(&IMAGE_FILE_MACHINE_AMD64.to_le_bytes());
    bytes[70] = 1;
    bytes[84] = 240;
    bytes[88..90].copy_from_slice(&0x20bu16.to_le_bytes());
    bytes[112..120].copy_from_slice(&0x140000000u64.to_le_bytes());
    bytes[148..152].copy_from_slice(&512u32.to_le_bytes());
    bytes[196] = 16;
    bytes[280..284].copy_from_slice(&4096u32.to_le_bytes());
    bytes[284] = 208;
    bytes[340..344].copy_from_slice(&4096u32.to_le_bytes());
    bytes[344..348].copy_from_slice(&512u32.to_le_bytes());
    bytes[348..352].copy_from_slice(&512u32.to_le_bytes());
    bytes[512] = 208;
    bytes[712..720].copy_from_slice(&0x140001100u64.to_le_bytes());
    bytes
}

fn scan(file: &[u8]) -> (Vec<(u64, usize)>, Result<bool, u32>) {
    let mut reads = Vec::new();
    let mut step = ScanStep::start();
    loop {
        step = match step {
            ScanStep::Measure => ScanStep::measured(Ok(file.len() as u64)),
            ScanStep::Read(read) => {
                let offset = read.offset();
                let size = read.size();
                reads.push((offset, size));
                let start = offset as usize;
                let bytes = file[start..start + size].to_vec();
                read.resume(Ok(bytes))
            }
            ScanStep::Finished(result) => return (reads, result),
        };
    }
}

#[test]
fn a_scan_reads_only_the_pieces_it_needs() {
    let mut file = hybrid_image();
    let expected = vec![(0, 64), (64, 24), (88, 240), (328, 40), (512, 4), (712, 8)];
    assert_eq!(scan(&file), (expected.clone(), Ok(true)));
    // What stands behind the image is never read.
    file.resize(1 << 20, 0xcc);
    assert_eq!(scan(&file), (expected, Ok(true)));
}

#[test]
fn a_scan_of_the_largest_headers_stays_within_its_limit() {
    let mut file = vec![0u8; 1 << 18];
    let image = hybrid_image();
    file[..88].copy_from_slice(&image[..88]);
    file[68..70].copy_from_slice(&IMAGE_FILE_MACHINE_I386.to_le_bytes());
    file[70] = 96;
    file[84..86].copy_from_slice(&u16::MAX.to_le_bytes());
    file[88..90].copy_from_slice(&0x10bu16.to_le_bytes());
    file[148..152].copy_from_slice(&0x20000u32.to_le_bytes());
    file[180] = 16;
    file[296..300].copy_from_slice(&0x18000u32.to_le_bytes());
    file[300] = 72;
    file[0x18000] = 72;
    file[0x18010] = 1;
    let (reads, result) = scan(&file);
    assert_eq!(result, Ok(false));
    assert_eq!(reads, vec![(0, 64), (64, 24), (88, 65535), (65623, 3840), (0x18000, 20)]);
    let total: usize = reads.iter().map(|read| read.1).sum();
    assert_eq!(total, 69483);
}

#[test]
fn a_failed_read_ends_the_scan_with_its_code() {
    assert!(matches!(
        ScanStep::measured(Err(DENIED)),
        ScanStep::Finished(Err(5))
    ));
    for (failure, code) in [
        (EOF, ERROR_INVALID_DATA),
        (DENIED, 5),
        (IoFailure { unexpected_eof: false, raw_os_error: None }, ERROR_GEN_FAILURE),
    ] {
        let file = hybrid_image();
        for failing in 0..6 {
            let mut step = ScanStep::measured(Ok(file.len() as u64));
            let mut count = 0;
            let result = loop {
                step = match step {
                    ScanStep::Read(read) if count == failing => read.resume(Err(failure)),
                    ScanStep::Read(read) => {
                        let start = read.offset() as usize;
                        let bytes = file[start..start + read.size()].to_vec();
                        read.resume(Ok(bytes))
                    }
                    ScanStep::Finished(result) => break result,
                    ScanStep::Measure => panic!("measured twice"),
                };
                count += 1;
            };
            assert_eq!(result, Err(code));
        }
    }
}

fn arm64(wow_machine: u16) -> Machines {
    Machines { wow_machine, native_machine: IMAGE_FILE_MACHINE_ARM64 }
}

const EMULATED: ProcessArchitecture = ProcessArchitecture {
    process_machine: 0x8664,
    native_machine: 0xaa64,
    mode: ExecutionMode::EmulatedX64,
};

#[test]
fn a_query_asks_in_order() {
    assert_eq!(
        query_process_architecture_handle(0),
        QueryStep::Finished(Err(ERROR_INVALID_HANDLE))
    );
    assert_eq!(query_process_architecture_handle(4), QueryStep::QueryMachines);
    let machines = arm64(0);
    assert_eq!(
        machines_queried(Ok(machines)),
        QueryStep::QueryProcessMachine { machines }
    );
    assert_eq!(
        process_machine_queried(machines, Ok(IMAGE_FILE_MACHINE_AMD64)),
        QueryStep::InspectMainImage { architecture: EMULATED }
    );
    assert_eq!(
        main_image_inspected(EMULATED, Ok(false)),
        QueryStep::Finished(Ok(EMULATED))
    );
    assert_eq!(
        main_image_inspected(EMULATED, Ok(true)),
        QueryStep::Finished(Ok(ProcessArchitecture {
            mode: ExecutionMode::Arm64Ec,
            ..EMULATED
        }))
    );
}

#[test]
fn a_query_reports_failures() {
    assert_eq!(machines_queried(Err(5)), QueryStep::Finished(Err(5)));
    assert_eq!(
        machines_queried(Err(0)),
        QueryStep::Finished(Err(ERROR_GEN_FAILURE))
    );
    assert_eq!(
        process_machine_queried(arm64(0), Err(5)),
        QueryStep::Finished(Err(5))
    );
    assert_eq!(
        process_machine_queried(arm64(0), Err(0)),
        QueryStep::Finished(Err(ERROR_GEN_FAILURE))
    );
    assert_eq!(
        main_image_inspected(EMULATED, Err(ERROR_INVALID_DATA)),
        QueryStep::Finished(Err(ERROR_INVALID_DATA))
    );
}

#[test]
fn an_older_system_keeps_what_it_knows() {
    for error in [
        ERROR_INVALID_PARAMETER,
        ERROR_NOT_SUPPORTED,
        ERROR_CALL_NOT_IMPLEMENTED,
    ] {
        assert_eq!(
            process_machine_queried(arm64(0), Err(error)),
            QueryStep::Finished(Err(ERROR_NOT_SUPPORTED))
        );
        assert_eq!(
            process_machine_queried(arm64(IMAGE_FILE_MACHINE_I386), Err(error)),
            QueryStep::Finished(Ok(ProcessArchitecture {
                process_machine: IMAGE_FILE_MACHINE_I386,
                native_machine: IMAGE_FILE_MACHINE_ARM64,
                mode: ExecutionMode::EmulatedX86,
            }))
        );
    }
}

#[test]
fn an_inspection_opens_the_named_file() {
    assert!(matches!(
        main_image_is_arm64ec(),
        InspectStep::QueryName { format: 0, capacity: 32768 }
    ));
    let mut buffer = vec![0u16; 8];
    buffer[..3].copy_from_slice(&[67, 58, 92]);
    match name_queried(Ok(ImageName { buffer, length: 3 })) {
        InspectStep::OpenImage { path } => assert_eq!(path, vec![67, 58, 92]),
        _ => panic!("the file is not opened"),
    }
    for length in [0, 8, 9, u32::MAX] {
        let name = ImageName { buffer: vec![0u16; 8], length };
        assert!(matches!(
            name_queried(Ok(name)),
            InspectStep::Finished(Err(ERROR_INVALID_DATA))
        ));
    }
    let longest = ImageName { buffer: vec![65u16; 8], length: 7 };
    assert!(matches!(
        name_queried(Ok(longest)),
        InspectStep::OpenImage { .. }
    ));
    assert!(matches!(name_queried(Err(6)), InspectStep::Finished(Err(6))));
    assert!(matches!(
        name_queried(Err(0)),
        InspectStep::Finished(Err(ERROR_GEN_FAILURE))
    ));
    assert!(matches!(image_opened(Ok(())), InspectStep::ScanImage));
    assert!(matches!(image_opened(Err(2)), InspectStep::Finished(Err(2))));
    assert!(matches!(
        image_scanned(Ok(true)),
        InspectStep::Finished(Ok(true))
    ));
}

#[test]
fn a_failed_scan_is_the_result_of_the_query() {
    let failed = match ScanStep::measured(Ok(1024)) {
        ScanStep::Read(read) => match read.resume(Err(DENIED)) {
            ScanStep::Finished(result) => result,
            _ => panic!("a failed read ends the scan"),
        },
        _ => panic!("the first header is read"),
    };
    assert_eq!(failed, Err(5));
    match image_scanned(failed) {
        InspectStep::Finished(result) => assert_eq!(
            main_image_inspected(EMULATED, result),
            QueryStep::Finished(Err(5))
        ),
        _ => panic!("the scan ends the inspection"),
    }
}

#[test]
fn redirection_is_off_only_while_the_file_is_opened() {
    assert_eq!(
        open_main_image(false),
        OpenStep::OpenFile { redirection_off: false }
    );
    assert_eq!(file_opened(false, Ok(())), OpenStep::Finished(Ok(())));
    assert_eq!(file_opened(false, Err(DENIED)), OpenStep::Finished(Err(5)));
    assert_eq!(open_main_image(true), OpenStep::DisableRedirection);
    assert_eq!(
        redirection_disabled(Ok(())),
        OpenStep::OpenFile { redirection_off: true }
    );
    assert_eq!(redirection_disabled(Err(1)), OpenStep::Finished(Err(1)));
    assert_eq!(
        redirection_disabled(Err(0)),
        OpenStep::Finished(Err(ERROR_GEN_FAILURE))
    );
    for opened in [Ok(()), Err(DENIED)] {
        assert_eq!(
            file_opened(true, opened),
            OpenStep::RestoreRedirection { opened }
        );
        assert_eq!(
            redirection_restored(opened, Err(87)),
            OpenStep::Finished(Err(87))
        );
    }
    assert_eq!(
        redirection_restored(Ok(()), Ok(())),
        OpenStep::Finished(Ok(()))
    );
    assert_eq!(
        redirection_restored(Err(DENIED), Ok(())),
        OpenStep::Finished(Err(5))
    );
}

#[test]
fn the_debug_privilege_is_enabled_in_order() {
    assert_eq!(
        enable_debug_privilege(),
        PrivilegeStep::OpenToken { access: TOKEN_ADJUST_PRIVILEGES | TOKEN_QUERY }
    );
    assert_eq!(token_opened(Ok(true)), PrivilegeStep::LookupDebugPrivilege);
    let luid = Luid { low_part: 20, high_part: -1 };
    assert_eq!(
        privilege_looked_up(Ok(luid)),
        PrivilegeStep::ClearLastError { luid }
    );
    assert_eq!(
        last_error_cleared(luid),
        PrivilegeStep::AdjustPrivileges {
            disable_all: false,
            privileges: TokenPrivileges { count: 1, luid, attributes: SE_PRIVILEGE_ENABLED },
        }
    );
}

#[test]
fn the_debug_privilege_needs_both_channels() {
    let finish = |succeeded, error| privileges_adjusted(Adjustment { succeeded, error });
    assert_eq!(finish(true, 0), PrivilegeStep::CloseToken { result: Ok(()) });
    assert_eq!(
        finish(true, ERROR_NOT_ALL_ASSIGNED),
        PrivilegeStep::CloseToken { result: Err(ERROR_NOT_ALL_ASSIGNED) }
    );
    assert_eq!(finish(false, 5), PrivilegeStep::CloseToken { result: Err(5) });
    assert_eq!(finish(false, 0), PrivilegeStep::CloseToken { result: Err(0) });
    assert_eq!(
        privilege_looked_up(Err(1313)),
        PrivilegeStep::CloseToken { result: Err(1313) }
    );
    for result in [Ok(()), Err(0), Err(5)] {
        assert_eq!(token_closed(result), PrivilegeStep::Finished(result));
    }
}

#[test]
fn without_a_token_nothing_is_closed() {
    assert_eq!(token_opened(Err(5)), PrivilegeStep::Finished(Err(5)));
    assert_eq!(token_opened(Err(0)), PrivilegeStep::Finished(Err(0)));
    assert_eq!(
        token_opened(Ok(false)),
        PrivilegeStep::Finished(Err(ERROR_NOT_ALL_ASSIGNED))
    );
    assert_eq!(
        elevation_token_opened(Ok(false)),
        ElevationStep::Finished(Err(ERROR_NOT_ALL_ASSIGNED))
    );
    for (error, code) in [(0, ERROR_NOT_ALL_ASSIGNED), (5, 5)] {
        assert_eq!(
            elevation_token_opened(Err(error)),
            ElevationStep::Finished(Err(code))
        );
    }
}

#[test]
fn elevation_is_what_the_token_says() {
    assert_eq!(
        process_is_elevated(),
        ElevationStep::OpenToken { access: TOKEN_QUERY }
    );
    assert_eq!(elevation_token_opened(Ok(true)), ElevationStep::QueryElevation);
    for (reply, result) in [
        (Ok(0), Ok(false)),
        (Ok(1), Ok(true)),
        (Ok(2), Ok(true)),
        (Err(0), Err(ERROR_NOT_ALL_ASSIGNED)),
        (Err(5), Err(5)),
    ] {
        assert_eq!(elevation_queried(reply), ElevationStep::CloseToken { result });
        assert_eq!(elevation_token_closed(result), ElevationStep::Finished(result));
    }
}

#[test]
fn the_older_query_alone_can_show_an_emulated_process() {
    assert_eq!(
        process_machine_queried(arm64(IMAGE_FILE_MACHINE_AMD64), Err(ERROR_NOT_SUPPORTED)),
        QueryStep::InspectMainImage { architecture: EMULATED }
    );
}

#[test]
fn a_whole_query_is_the_same_to_every_observer() {
    let file = hybrid_image();
    let scanned = scan(&file).1;
    let expected = ProcessArchitecture { mode: ExecutionMode::Arm64Ec, ..EMULATED };
    for redirected in [false, true] {
        let mut step = query_process_architecture_handle(4);
        let result = loop {
            step = match step {
                QueryStep::QueryMachines => machines_queried(Ok(arm64(0))),
                QueryStep::QueryProcessMachine { machines } => {
                    process_machine_queried(machines, Ok(IMAGE_FILE_MACHINE_AMD64))
                }
                QueryStep::InspectMainImage { architecture } => {
                    let mut open = open_main_image(redirected);
                    let opened = loop {
                        open = match open {
                            OpenStep::DisableRedirection => redirection_disabled(Ok(())),
                            OpenStep::OpenFile { redirection_off } => {
                                file_opened(redirection_off, Ok(()))
                            }
                            OpenStep::RestoreRedirection { opened } => {
                                redirection_restored(opened, Ok(()))
                            }
                            OpenStep::Finished(result) => break result,
                        };
                    };
                    let inspected = match image_opened(opened) {
                        InspectStep::ScanImage => match image_scanned(scanned) {
                            InspectStep::Finished(result) => result,
                            _ => panic!("the scan ends the inspection"),
                        },
                        _ => panic!("the opened file is scanned"),
                    };
                    main_image_inspected(architecture, inspected)
                }
                QueryStep::Finished(result) => break result,
            };
        };
        assert_eq!(result, Ok(expected));
    }
}
