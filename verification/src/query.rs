//! The order of the calls that query the architecture of a process.

use crate::errors::{io_error_code, last_error, last_error_code};
use crate::image::arm64ec;
use crate::machines::{
    classification, classify_machines, is_32_bit, is_64_bit, known_machine,
    law_older_systems_know_the_layer_and_the_host, law_reported_machines_and_hosts, ExecutionMode,
    ProcessArchitecture,
};
use crate::main_image::{
    inspect_drive, inspect_outcome, inspect_start, law_inspection_reports_the_first_failure,
    law_redirection_is_off_only_while_opening, open_outcome, open_start, open_steps, ImageName,
    InspectReplies, OpenReplies, OpenStep,
};
use crate::scan_model::{
    agree_with, drive, first_failure, law_scan_reaches_its_outcome, scan_outcome, ScanReplies,
    ScanView,
};
use crate::win32::{
    ERROR_CALL_NOT_IMPLEMENTED, ERROR_INVALID_DATA, ERROR_INVALID_HANDLE, ERROR_INVALID_PARAMETER,
    ERROR_NOT_SUPPORTED, IMAGE_FILE_MACHINE_AMD64, IMAGE_FILE_MACHINE_ARM64,
    IMAGE_FILE_MACHINE_UNKNOWN,
};
use vstd::prelude::*;

verus! {

/// The machine types that every supported system reports of a process.
#[derive(Clone, Copy, Debug, PartialEq, Eq, Structural)]
pub struct Machines {
    /// The machine of the WOW64 layer the process runs in, or the unknown machine.
    pub wow_machine: u16,
    /// The machine of the host.
    pub native_machine: u16,
}

/// What a query of the architecture of a process needs next, or what it found.
#[derive(Clone, Copy, Debug, PartialEq, Eq)]
pub enum QueryStep {
    /// The machines of the WOW64 layer and of the host.
    QueryMachines,
    /// The machine of the process itself, which only newer systems report.
    QueryProcessMachine { machines: Machines },
    /// An inspection of the main program file: the process runs as x86-64 on an ARM64 host.
    InspectMainImage { architecture: ProcessArchitecture },
    /// Nothing: the architecture, or the error to report.
    Finished(Result<ProcessArchitecture, u32>),
}

/// The errors by which an older system says that it does not report the machine of a process.
pub open spec fn not_reported(error: u32) -> bool {
    ||| error == ERROR_INVALID_PARAMETER
    ||| error == ERROR_NOT_SUPPORTED
    ||| error == ERROR_CALL_NOT_IMPLEMENTED
}

/// The machine that was reported of a process, none where the system does not report it, or
/// any other failure.
pub open spec fn reported_machine(reply: Result<u16, u32>) -> Result<Option<u16>, u32> {
    match reply {
        Ok(machine) => Ok(Some(machine)),
        Err(error) => if not_reported(last_error_code(error)) {
            Ok(None)
        } else {
            Err(last_error_code(error))
        },
    }
}

/// The architecture of an emulated process, once its main program file is inspected.
pub open spec fn refined(architecture: ProcessArchitecture, is_arm64ec: bool) -> ProcessArchitecture {
    if is_arm64ec {
        ProcessArchitecture { mode: ExecutionMode::Arm64Ec, ..architecture }
    } else {
        architecture
    }
}

/// The first step of a query through a handle of this value.
pub open spec fn query_start(handle: usize) -> QueryStep {
    if handle == 0 {
        QueryStep::Finished(Err(ERROR_INVALID_HANDLE))
    } else {
        QueryStep::QueryMachines
    }
}

/// The step after the machines, or after the error number of the failure to find them.
pub open spec fn after_machines(reply: Result<Machines, u32>) -> QueryStep {
    match reply {
        Ok(machines) => QueryStep::QueryProcessMachine { machines },
        Err(error) => QueryStep::Finished(Err(last_error_code(error))),
    }
}

/// The step after a classification: x86-64 on ARM64 needs a look at the program file.
pub open spec fn after_classification(
    classified: Result<ProcessArchitecture, u32>,
) -> QueryStep {
    match classified {
        Ok(architecture) => if architecture.mode == ExecutionMode::EmulatedX64 {
            QueryStep::InspectMainImage { architecture }
        } else {
            QueryStep::Finished(Ok(architecture))
        },
        Err(error) => QueryStep::Finished(Err(error)),
    }
}

/// The step after the machine of the process, or after the error number of the failure to
/// find it.
pub open spec fn after_process_machine(machines: Machines, reply: Result<u16, u32>) -> QueryStep {
    match reported_machine(reply) {
        Ok(reported) => after_classification(
            classification(machines.wow_machine, machines.native_machine, reported),
        ),
        Err(error) => QueryStep::Finished(Err(error)),
    }
}

/// The step after the inspection of the main program file.
pub open spec fn after_main_image(
    architecture: ProcessArchitecture,
    reply: Result<bool, u32>,
) -> QueryStep {
    match reply {
        Ok(is_arm64ec) => QueryStep::Finished(Ok(refined(architecture, is_arm64ec))),
        Err(error) => QueryStep::Finished(Err(error)),
    }
}

/// Starts a query through a handle of this value. A null handle is an invalid one.
pub fn query_process_architecture_handle(handle: usize) -> (step: QueryStep)
    ensures
        step == query_start(handle),
        handle == 0 ==> step == QueryStep::Finished(Err(ERROR_INVALID_HANDLE)),
        handle != 0 ==> step == QueryStep::QueryMachines,
{
    if handle == 0 {
        return QueryStep::Finished(Err(ERROR_INVALID_HANDLE));
    }
    QueryStep::QueryMachines
}

/// Goes on with the machines, or with the error number of the failure to find them.
pub fn machines_queried(reply: Result<Machines, u32>) -> (step: QueryStep)
    ensures
        step == after_machines(reply),
        reply matches Ok(machines) ==> step == (QueryStep::QueryProcessMachine { machines }),
        reply matches Err(error) ==> step == QueryStep::Finished(Err(last_error_code(error))),
{
    match reply {
        Ok(machines) => QueryStep::QueryProcessMachine { machines },
        Err(error) => QueryStep::Finished(Err(last_error(error))),
    }
}

/// Goes on with the machine of the process, or with the error number of the failure to find
/// it. Where the system does not report it, what the older query said has to do; no other
/// failure is hidden.
pub fn process_machine_queried(machines: Machines, reply: Result<u16, u32>) -> (step: QueryStep)
    ensures
        step == after_process_machine(machines, reply),
        reply matches Ok(machine) ==> match classification(
            machines.wow_machine,
            machines.native_machine,
            Some(machine),
        ) {
            Ok(architecture) => if architecture.mode == ExecutionMode::EmulatedX64 {
                step == (QueryStep::InspectMainImage { architecture })
            } else {
                step == QueryStep::Finished(Ok(architecture))
            },
            Err(error) => step == QueryStep::Finished(Err(error)),
        },
        reply matches Err(error) ==> (error == ERROR_INVALID_PARAMETER || error
            == ERROR_NOT_SUPPORTED || error == ERROR_CALL_NOT_IMPLEMENTED) ==> match classification(
            machines.wow_machine,
            machines.native_machine,
            None,
        ) {
            Ok(architecture) => if architecture.mode == ExecutionMode::EmulatedX64 {
                step == (QueryStep::InspectMainImage { architecture })
            } else {
                step == QueryStep::Finished(Ok(architecture))
            },
            Err(code) => step == QueryStep::Finished(Err(code)),
        },
        reply matches Err(error) ==> !(error == ERROR_INVALID_PARAMETER || error
            == ERROR_NOT_SUPPORTED || error == ERROR_CALL_NOT_IMPLEMENTED) ==> step
            == QueryStep::Finished(Err(last_error_code(error))),
{
    let reported: Option<u16> = match reply {
        Ok(machine) => Some(machine),
        Err(error) => {
            let error: u32 = last_error(error);
            match error {
                ERROR_INVALID_PARAMETER | ERROR_NOT_SUPPORTED | ERROR_CALL_NOT_IMPLEMENTED => None,
                _ => return QueryStep::Finished(Err(error)),
            }
        },
    };
    match classify_machines(machines.wow_machine, machines.native_machine, reported) {
        Ok(architecture) => if architecture.mode == ExecutionMode::EmulatedX64 {
            QueryStep::InspectMainImage { architecture }
        } else {
            QueryStep::Finished(Ok(architecture))
        },
        Err(error) => QueryStep::Finished(Err(error)),
    }
}

/// Ends with the inspection of the main program file, which tells ARM64EC programs from plain
/// x86-64 ones.
pub fn main_image_inspected(architecture: ProcessArchitecture, reply: Result<bool, u32>) -> (step:
    QueryStep)
    ensures
        step == after_main_image(architecture, reply),
        reply == Ok::<bool, u32>(false) ==> step == QueryStep::Finished(Ok(architecture)),
        reply == Ok::<bool, u32>(true) ==> step == QueryStep::Finished(
            Ok(
                ProcessArchitecture {
                    process_machine: architecture.process_machine,
                    native_machine: architecture.native_machine,
                    mode: ExecutionMode::Arm64Ec,
                },
            ),
        ),
        reply matches Err(error) ==> step == QueryStep::Finished(Err(error)),
{
    match reply {
        Ok(is_arm64ec) => {
            let mut architecture: ProcessArchitecture = architecture;
            if is_arm64ec {
                architecture.mode = ExecutionMode::Arm64Ec;
            }
            QueryStep::Finished(Ok(architecture))
        },
        Err(error) => QueryStep::Finished(Err(error)),
    }
}

/// How the calls of a query are answered.
pub struct QueryReplies {
    pub machines: Result<Machines, u32>,
    pub process_machine: Result<u16, u32>,
    pub main_image: Result<bool, u32>,
}

/// How many replies a query can still wait for.
pub open spec fn query_replies_left(step: QueryStep) -> nat {
    match step {
        QueryStep::QueryMachines => 3,
        QueryStep::QueryProcessMachine { .. } => 2,
        QueryStep::InspectMainImage { .. } => 1,
        QueryStep::Finished(_) => 0,
    }
}

/// The result that a query reaches from `step` on.
pub open spec fn query_drive(step: QueryStep, replies: QueryReplies) -> Result<
    ProcessArchitecture,
    u32,
>
    decreases query_replies_left(step),
{
    match step {
        QueryStep::QueryMachines => query_drive(after_machines(replies.machines), replies),
        QueryStep::QueryProcessMachine { machines } => query_drive(
            after_process_machine(machines, replies.process_machine),
            replies,
        ),
        QueryStep::InspectMainImage { architecture } => query_drive(
            after_main_image(architecture, replies.main_image),
            replies,
        ),
        QueryStep::Finished(result) => result,
    }
}

/// What the machine types alone say of a process.
pub open spec fn classified(replies: QueryReplies) -> Result<ProcessArchitecture, u32> {
    match replies.machines {
        Err(error) => Err(last_error_code(error)),
        Ok(machines) => match reported_machine(replies.process_machine) {
            Err(error) => Err(error),
            Ok(reported) => classification(
                machines.wow_machine,
                machines.native_machine,
                reported,
            ),
        },
    }
}

/// What comes of a query: what the machine types say, except that an x86-64 process on an
/// ARM64 host is what its main program file says.
pub open spec fn query_outcome(handle: usize, replies: QueryReplies) -> Result<
    ProcessArchitecture,
    u32,
> {
    if handle == 0 {
        Err(ERROR_INVALID_HANDLE)
    } else {
        match classified(replies) {
            Err(error) => Err(error),
            Ok(architecture) => if architecture.mode != ExecutionMode::EmulatedX64 {
                Ok(architecture)
            } else {
                match replies.main_image {
                    Err(error) => Err(error),
                    Ok(is_arm64ec) => Ok(refined(architecture, is_arm64ec)),
                }
            },
        }
    }
}

/// A query ends with its outcome after at most three replies.
pub proof fn law_query_reaches_its_outcome(handle: usize, replies: QueryReplies)
    ensures
        query_drive(query_start(handle), replies) == query_outcome(handle, replies),
        query_replies_left(query_start(handle)) <= 3,
{
    reveal_with_fuel(query_drive, 4);
}

/// The main program file is inspected only for an x86-64 process on an ARM64 host.
pub proof fn law_only_x64_on_arm64_is_inspected(machines: Machines, reply: Result<u16, u32>)
    ensures
        after_process_machine(machines, reply) matches QueryStep::InspectMainImage { architecture }
            ==> {
            &&& architecture.native_machine == machines.native_machine
            &&& architecture.native_machine == IMAGE_FILE_MACHINE_ARM64
            &&& architecture.process_machine == IMAGE_FILE_MACHINE_AMD64
        },
{
}

/// Only what was found out counts as native: a process is said to run natively only if its
/// machine is the host's, and on an ARM64 host only if that machine was reported of the process
/// itself or, where the system does not report it, is that of its WOW64 layer.
pub proof fn law_unknown_is_never_native(handle: usize, replies: QueryReplies)
    ensures
        query_outcome(handle, replies) matches Ok(architecture) ==> architecture.mode is Native
            ==> {
            &&& architecture.process_machine == architecture.native_machine
            &&& replies.machines matches Ok(machines) && {
                &&& machines.native_machine == architecture.native_machine
                &&& architecture.native_machine == IMAGE_FILE_MACHINE_ARM64 ==> {
                    ||| replies.process_machine == Ok::<u16, u32>(IMAGE_FILE_MACHINE_ARM64)
                    ||| {
                        &&& replies.process_machine matches Err(error) && not_reported(
                            last_error_code(error),
                        )
                        &&& machines.wow_machine == IMAGE_FILE_MACHINE_ARM64
                    }
                }
            }
        },
{
}

/// An answer is about the host that was named. A process is said to be emulated x86-64 or
/// ARM64EC only on an ARM64 host, and only after its main program file said which.
pub proof fn law_answers_rest_on_replies(handle: usize, replies: QueryReplies)
    ensures
        query_outcome(handle, replies) matches Ok(architecture) ==> {
            &&& replies.machines matches Ok(machines) && architecture.native_machine
                == machines.native_machine
            &&& architecture.mode is EmulatedX64 || architecture.mode is Arm64Ec ==> {
                &&& architecture.native_machine == IMAGE_FILE_MACHINE_ARM64
                &&& architecture.process_machine == IMAGE_FILE_MACHINE_AMD64
                &&& replies.main_image == Ok::<bool, u32>(architecture.mode is Arm64Ec)
            }
        },
{
}

/// On an ARM64 host that does not report the machine of a process, a process outside WOW64 is
/// unsupported.
pub proof fn law_an_old_arm64_host_says_nothing(handle: usize, replies: QueryReplies)
    requires
        handle != 0,
        replies.machines matches Ok(machines) && machines.native_machine
            == IMAGE_FILE_MACHINE_ARM64 && machines.wow_machine == IMAGE_FILE_MACHINE_UNKNOWN,
        replies.process_machine matches Err(error) && not_reported(error),
    ensures
        query_outcome(handle, replies) == Err::<ProcessArchitecture, u32>(ERROR_NOT_SUPPORTED),
{
}

/// A failure is never taken for an answer: a null handle, a failure to find the machines, and
/// a failure to find the machine of the process, unless it says that the system does not
/// report it, are reported as they are. So is a classification that fails, and, where the main
/// program file has to be inspected, a failed inspection.
pub proof fn law_failures_are_reported(handle: usize, replies: QueryReplies)
    ensures
        handle == 0 ==> query_outcome(handle, replies) == Err::<ProcessArchitecture, u32>(
            ERROR_INVALID_HANDLE,
        ),
        handle != 0 && replies.machines is Err ==> query_outcome(handle, replies) == Err::<
            ProcessArchitecture,
            u32,
        >(last_error_code(replies.machines->Err_0)),
        handle != 0 && replies.machines is Ok ==> (replies.process_machine matches Err(error)
            && !not_reported(last_error_code(error)) ==> query_outcome(handle, replies) == Err::<
            ProcessArchitecture,
            u32,
        >(last_error_code(replies.process_machine->Err_0))),
        handle != 0 ==> (classified(replies) matches Err(error) ==> query_outcome(handle, replies)
            == Err::<ProcessArchitecture, u32>(error)),
        handle != 0 ==> (classified(replies) matches Ok(architecture) && architecture.mode
            == ExecutionMode::EmulatedX64 ==> (replies.main_image matches Err(error)
            ==> query_outcome(handle, replies) == Err::<ProcessArchitecture, u32>(error))),
{
}

/// How a whole system answers: its calls, the main program file of the process, and the reads
/// of that file, any of which can fail.
pub struct SystemReplies {
    pub machines: Result<Machines, u32>,
    pub process_machine: Result<u16, u32>,
    pub name: Result<ImageName, u32>,
    pub redirected: bool,
    pub open: OpenReplies,
    pub file: Seq<u8>,
    pub scan: ScanReplies,
}

/// What comes of opening the main program file, step by step.
pub open spec fn system_open(system: SystemReplies) -> Result<(), u32> {
    open_steps(open_start(system.redirected), system.open).last()->Finished_0
}

/// What comes of inspecting the main program file, step by step.
pub open spec fn system_inspection(system: SystemReplies) -> Result<bool, u32> {
    inspect_drive(
        inspect_start(),
        InspectReplies {
            name: system.name,
            opened: system_open(system),
            scanned: drive(system.scan, ScanView::Measure),
        },
    )
}

/// What comes of a whole query, step by step.
pub open spec fn system_query(handle: usize, system: SystemReplies) -> Result<
    ProcessArchitecture,
    u32,
> {
    query_drive(
        query_start(handle),
        QueryReplies {
            machines: system.machines,
            process_machine: system.process_machine,
            main_image: system_inspection(system),
        },
    )
}

/// What the system's answers say of the main program file.
pub open spec fn main_image_outcome(system: SystemReplies) -> Result<bool, u32> {
    inspect_outcome(
        InspectReplies {
            name: system.name,
            opened: open_outcome(system.redirected, system.open),
            scanned: scan_outcome(system.scan, system.file),
        },
    )
}

/// What the system's answers say of the process.
pub open spec fn system_outcome(handle: usize, system: SystemReplies) -> Result<
    ProcessArchitecture,
    u32,
> {
    query_outcome(
        handle,
        QueryReplies {
            machines: system.machines,
            process_machine: system.process_machine,
            main_image: main_image_outcome(system),
        },
    )
}

/// Opening, inspecting, scanning and classifying, each step by step and together, come to what
/// the system's answers say.
pub proof fn law_whole_query_reaches_its_outcome(handle: usize, system: SystemReplies)
    requires
        agree_with(system.scan, system.file),
    ensures
        system_query(handle, system) == system_outcome(handle, system),
{
    law_redirection_is_off_only_while_opening(system.redirected, system.open);
    assert(open_steps(open_start(system.redirected), system.open).last() == OpenStep::Finished(
        open_outcome(system.redirected, system.open),
    ));
    law_scan_reaches_its_outcome(system.scan, system.file);
    law_inspection_reports_the_first_failure(
        InspectReplies {
            name: system.name,
            opened: system_open(system),
            scanned: scan_outcome(system.scan, system.file),
        },
    );
    law_query_reaches_its_outcome(
        handle,
        QueryReplies {
            machines: system.machines,
            process_machine: system.process_machine,
            main_image: system_inspection(system),
        },
    );
}

/// An x86-64 process on an ARM64 host, whichever query showed it to be one, whose main
/// program file can be opened and read, is what that file says: ARM64EC, emulated, or not known.
/// Where a read of it fails, the first failure is reported.
pub proof fn law_the_program_file_tells_arm64ec_from_emulated(
    handle: usize,
    system: SystemReplies,
)
    requires
        handle != 0,
        system.machines matches Ok(machines) && {
            &&& machines.native_machine == IMAGE_FILE_MACHINE_ARM64
            &&& reported_machine(system.process_machine) matches Ok(reported) && known_machine(
                machines.wow_machine,
                machines.native_machine,
                reported,
            ) == Some(IMAGE_FILE_MACHINE_AMD64)
        },
        system.name matches Ok(name) && 0 < name.length < name.buffer@.len(),
        open_outcome(system.redirected, system.open) is Ok,
    ensures
        first_failure(system.scan, ScanView::Measure) matches Some(failure) ==> system_outcome(
            handle,
            system,
        ) == Err::<ProcessArchitecture, u32>(io_error_code(failure)),
        first_failure(system.scan, ScanView::Measure) is None ==> match arm64ec(system.file) {
            Some(is_arm64ec) => system_outcome(handle, system) == Ok::<ProcessArchitecture, u32>(
                ProcessArchitecture {
                    process_machine: IMAGE_FILE_MACHINE_AMD64,
                    native_machine: IMAGE_FILE_MACHINE_ARM64,
                    mode: if is_arm64ec {
                        ExecutionMode::Arm64Ec
                    } else {
                        ExecutionMode::EmulatedX64
                    },
                },
            ),
            None => system_outcome(handle, system) == Err::<ProcessArchitecture, u32>(
                ERROR_INVALID_DATA,
            ),
        },
{
}

/// A process is the same to every observer: one whose file names are redirected finds what any
/// other does, as long as it can switch redirection off and on again.
pub proof fn law_the_observer_does_not_matter(
    handle: usize,
    system: SystemReplies,
    other: SystemReplies,
)
    requires
        system.redirected,
        system.open.disabled is Ok,
        system.open.restored is Ok,
        other == (SystemReplies { redirected: false, ..system }),
    ensures
        system_outcome(handle, system) == system_outcome(handle, other),
{
}

/// A query that was told the machine of the process is about that machine, whatever the WOW64
/// layer shows: it comes to what the host makes of it, with the main program file asked only
/// where the host emulates x86-64. The host's own machine is native.
pub proof fn law_a_reported_machine_decides(
    handle: usize,
    machines: Machines,
    machine: u16,
    main_image: Result<bool, u32>,
)
    requires
        handle != 0,
    ensures
        ({
            let outcome = query_outcome(
                handle,
                QueryReplies { machines: Ok(machines), process_machine: Ok(machine), main_image },
            );
            let host = machines.native_machine;
            &&& outcome matches Ok(architecture) ==> {
                &&& architecture.process_machine == machine
                &&& architecture.native_machine == host
            }
            &&& machine == host && (is_32_bit(host) || is_64_bit(host)) ==> outcome == Ok::<
                ProcessArchitecture,
                u32,
            >(
                ProcessArchitecture {
                    process_machine: machine,
                    native_machine: host,
                    mode: ExecutionMode::Native,
                },
            )
            &&& !(host == IMAGE_FILE_MACHINE_ARM64 && machine == IMAGE_FILE_MACHINE_AMD64)
                ==> outcome == classification(machines.wow_machine, host, Some(machine))
            &&& host == IMAGE_FILE_MACHINE_ARM64 && machine == IMAGE_FILE_MACHINE_AMD64 ==> match main_image {
                Err(error) => outcome == Err::<ProcessArchitecture, u32>(error),
                Ok(is_arm64ec) => outcome == Ok::<ProcessArchitecture, u32>(
                    ProcessArchitecture {
                        process_machine: machine,
                        native_machine: host,
                        mode: if is_arm64ec {
                            ExecutionMode::Arm64Ec
                        } else {
                            ExecutionMode::EmulatedX64
                        },
                    },
                ),
            }
        }),
{
    law_reported_machines_and_hosts(machines.wow_machine, machines.native_machine, machine);
}

/// An older system, which says by one of three errors that it does not report the machine of a
/// process, is answered as a newer one that reports the machine of the WOW64 layer, or, outside
/// a layer and not on ARM64, that of the host. On ARM64, outside a layer, it is unsupported.
pub proof fn law_an_older_system_is_answered_like_a_newer_one(
    handle: usize,
    machines: Machines,
    error: u32,
    main_image: Result<bool, u32>,
)
    requires
        handle != 0,
        error == ERROR_INVALID_PARAMETER || error == ERROR_NOT_SUPPORTED || error
            == ERROR_CALL_NOT_IMPLEMENTED,
    ensures
        ({
            let outcome = |reply: Result<u16, u32>|
                query_outcome(
                    handle,
                    QueryReplies { machines: Ok(machines), process_machine: reply, main_image },
                );
            if machines.wow_machine != IMAGE_FILE_MACHINE_UNKNOWN {
                outcome(Err(error)) == outcome(Ok(machines.wow_machine))
            } else if machines.native_machine != IMAGE_FILE_MACHINE_ARM64 {
                outcome(Err(error)) == outcome(Ok(machines.native_machine))
            } else {
                outcome(Err(error)) == Err::<ProcessArchitecture, u32>(ERROR_NOT_SUPPORTED)
            }
        }),
{
    law_older_systems_know_the_layer_and_the_host(machines.wow_machine, machines.native_machine);
}

/// Any other failure to find the machine of a process, and any failure to find the machines of
/// layer and host, ends the query with its own code, whatever the other replies are.
pub proof fn law_other_failures_end_the_query(handle: usize, replies: QueryReplies)
    requires
        handle != 0,
    ensures
        replies.machines matches Err(error) ==> query_outcome(handle, replies) == Err::<
            ProcessArchitecture,
            u32,
        >(last_error_code(error)),
        replies.machines is Ok ==> (replies.process_machine matches Err(error) ==> error
            != ERROR_INVALID_PARAMETER && error != ERROR_NOT_SUPPORTED && error
            != ERROR_CALL_NOT_IMPLEMENTED ==> query_outcome(handle, replies) == Err::<
            ProcessArchitecture,
            u32,
        >(last_error_code(error))),
{
}

} // verus!
