//! Classification of a process from the machine types the system reports.

use crate::win32::{
    ERROR_INVALID_DATA, ERROR_NOT_SUPPORTED, IMAGE_FILE_MACHINE_AMD64, IMAGE_FILE_MACHINE_ARM,
    IMAGE_FILE_MACHINE_ARM64, IMAGE_FILE_MACHINE_ARMNT, IMAGE_FILE_MACHINE_I386,
    IMAGE_FILE_MACHINE_IA64, IMAGE_FILE_MACHINE_THUMB, IMAGE_FILE_MACHINE_UNKNOWN,
};
use vstd::prelude::*;

verus! {

/// How the main program of a process runs on its host.
#[derive(Clone, Copy, Debug, PartialEq, Eq, Structural)]
pub enum ExecutionMode {
    /// In the host's own machine code.
    Native,
    /// As a 32-bit program on a 64-bit host, without x86 emulation.
    Compatibility32,
    /// As a 32-bit x86 program that an ARM64 host emulates.
    EmulatedX86,
    /// As an x86-64 program that an ARM64 host emulates.
    EmulatedX64,
    /// As a program that mixes ARM64EC and x86-64 code on an ARM64 host.
    Arm64Ec,
}

/// What is known of the architecture of a process.
#[derive(Clone, Copy, Debug, PartialEq, Eq, Structural)]
pub struct ProcessArchitecture {
    pub process_machine: u16,
    pub native_machine: u16,
    pub mode: ExecutionMode,
}

/// The machine types of 32-bit programs.
pub open spec fn is_32_bit(machine: u16) -> bool {
    ||| machine == IMAGE_FILE_MACHINE_I386
    ||| machine == IMAGE_FILE_MACHINE_ARM
    ||| machine == IMAGE_FILE_MACHINE_ARMNT
    ||| machine == IMAGE_FILE_MACHINE_THUMB
}

/// The machine types of 64-bit programs.
pub open spec fn is_64_bit(machine: u16) -> bool {
    ||| machine == IMAGE_FILE_MACHINE_AMD64
    ||| machine == IMAGE_FILE_MACHINE_ARM64
    ||| machine == IMAGE_FILE_MACHINE_IA64
}

/// The machine type of a process: the reported one, else the one its WOW64 layer shows, else
/// that of the host. On an ARM64 host the last step would be a guess, since native and
/// emulated 64-bit processes look alike there, so nothing is known.
pub open spec fn known_machine(
    wow_machine: u16,
    native_machine: u16,
    reported_machine: Option<u16>,
) -> Option<u16> {
    match reported_machine {
        Some(machine) => Some(machine),
        None => if wow_machine != IMAGE_FILE_MACHINE_UNKNOWN {
            Some(wow_machine)
        } else if native_machine == IMAGE_FILE_MACHINE_ARM64 {
            None
        } else {
            Some(native_machine)
        },
    }
}

/// How a program of one machine type runs on a host of another, where it can.
pub open spec fn mode_on(native_machine: u16, process_machine: u16) -> Option<ExecutionMode> {
    if native_machine == IMAGE_FILE_MACHINE_ARM64 && process_machine == IMAGE_FILE_MACHINE_I386 {
        Some(ExecutionMode::EmulatedX86)
    } else if native_machine == IMAGE_FILE_MACHINE_ARM64 && process_machine
        == IMAGE_FILE_MACHINE_AMD64 {
        Some(ExecutionMode::EmulatedX64)
    } else if is_64_bit(native_machine) && is_32_bit(process_machine) {
        Some(ExecutionMode::Compatibility32)
    } else if process_machine == native_machine && (is_32_bit(native_machine) || is_64_bit(
        native_machine,
    )) {
        Some(ExecutionMode::Native)
    } else {
        None
    }
}

/// What the reported machine types say of a process, or why they say nothing.
pub open spec fn classification(
    wow_machine: u16,
    native_machine: u16,
    reported_machine: Option<u16>,
) -> Result<ProcessArchitecture, u32> {
    match known_machine(wow_machine, native_machine, reported_machine) {
        None => Err(ERROR_NOT_SUPPORTED),
        Some(process_machine) => match mode_on(native_machine, process_machine) {
            None => Err(ERROR_INVALID_DATA),
            Some(mode) => Ok(ProcessArchitecture { process_machine, native_machine, mode }),
        },
    }
}

/// Tells 32-bit machine types from 64-bit ones. Any other number is invalid data.
pub fn machine_is_32_bit(machine: u16) -> (result: Result<bool, u32>)
    ensures
        result == Ok::<bool, u32>(true) <==> is_32_bit(machine),
        result == Ok::<bool, u32>(false) <==> is_64_bit(machine),
        result == Err::<bool, u32>(ERROR_INVALID_DATA) <==> !is_32_bit(machine) && !is_64_bit(
            machine,
        ),
        result == Ok::<bool, u32>(true) <==> machine == IMAGE_FILE_MACHINE_I386 || machine
            == IMAGE_FILE_MACHINE_ARM || machine == IMAGE_FILE_MACHINE_ARMNT || machine
            == IMAGE_FILE_MACHINE_THUMB,
        result == Ok::<bool, u32>(false) <==> machine == IMAGE_FILE_MACHINE_AMD64 || machine
            == IMAGE_FILE_MACHINE_ARM64 || machine == IMAGE_FILE_MACHINE_IA64,
{
    match machine {
        IMAGE_FILE_MACHINE_I386
        | IMAGE_FILE_MACHINE_ARM
        | IMAGE_FILE_MACHINE_ARMNT
        | IMAGE_FILE_MACHINE_THUMB => Ok(true),
        IMAGE_FILE_MACHINE_AMD64 | IMAGE_FILE_MACHINE_ARM64 | IMAGE_FILE_MACHINE_IA64 => Ok(false),
        _ => Err(ERROR_INVALID_DATA),
    }
}

/// Classifies a process from the machine of its WOW64 layer, that of the host, and the
/// machine that newer systems report of the process itself.
pub fn classify_machines(
    wow_machine: u16,
    native_machine: u16,
    reported_machine: Option<u16>,
) -> (result: Result<ProcessArchitecture, u32>)
    ensures
        result == classification(wow_machine, native_machine, reported_machine),
{
    let native_is_32_bit = machine_is_32_bit(native_machine)?;
    let process_machine: u16 = match reported_machine {
        Some(machine) => machine,
        None if wow_machine != IMAGE_FILE_MACHINE_UNKNOWN => wow_machine,
        None if native_machine == IMAGE_FILE_MACHINE_ARM64 => return Err(ERROR_NOT_SUPPORTED),
        None => native_machine,
    };
    let process_is_32_bit = machine_is_32_bit(process_machine)?;
    let mode = if native_machine == IMAGE_FILE_MACHINE_ARM64 && process_machine
        == IMAGE_FILE_MACHINE_I386 {
        ExecutionMode::EmulatedX86
    } else if native_machine == IMAGE_FILE_MACHINE_ARM64 && process_machine
        == IMAGE_FILE_MACHINE_AMD64 {
        ExecutionMode::EmulatedX64
    } else if process_is_32_bit && !native_is_32_bit {
        ExecutionMode::Compatibility32
    } else if process_machine == native_machine {
        ExecutionMode::Native
    } else {
        return Err(ERROR_INVALID_DATA);
    };
    Ok(ProcessArchitecture { process_machine, native_machine, mode })
}

/// A classification is about the host that was named and about a known machine type on it, and
/// its mode says no more than the two machines do: native is the host's own machine, emulated
/// is x86 or x86-64 on ARM64, and compatible is any other 32-bit program on a 64-bit host. No
/// machine type alone shows ARM64EC.
pub proof fn law_modes_follow_from_the_machines(
    wow_machine: u16,
    native_machine: u16,
    reported_machine: Option<u16>,
)
    ensures
        classification(wow_machine, native_machine, reported_machine) matches Ok(architecture)
            ==> {
            let process_machine = architecture.process_machine;
            &&& architecture.native_machine == native_machine
            &&& reported_machine matches Some(machine) ==> process_machine == machine
            &&& is_32_bit(process_machine) || is_64_bit(process_machine)
            &&& is_32_bit(native_machine) || is_64_bit(native_machine)
            &&& architecture.mode is Native <==> process_machine == native_machine
            &&& architecture.mode is EmulatedX86 <==> native_machine == IMAGE_FILE_MACHINE_ARM64
                && process_machine == IMAGE_FILE_MACHINE_I386
            &&& architecture.mode is EmulatedX64 <==> native_machine == IMAGE_FILE_MACHINE_ARM64
                && process_machine == IMAGE_FILE_MACHINE_AMD64
            &&& architecture.mode is Compatibility32 <==> is_64_bit(native_machine) && is_32_bit(
                process_machine,
            ) && !(architecture.mode is EmulatedX86)
            &&& !(architecture.mode is Arm64Ec)
        },
{
}

/// An ARM64 host is never guessed to run a process natively: without a reported machine, a
/// process outside WOW64 is unsupported there, and nowhere else.
pub proof fn law_no_guess_on_arm64(
    wow_machine: u16,
    native_machine: u16,
    reported_machine: Option<u16>,
)
    ensures
        classification(wow_machine, native_machine, reported_machine) == Err::<
            ProcessArchitecture,
            u32,
        >(ERROR_NOT_SUPPORTED) <==> {
            &&& native_machine == IMAGE_FILE_MACHINE_ARM64
            &&& wow_machine == IMAGE_FILE_MACHINE_UNKNOWN
            &&& reported_machine is None
        },
{
}

/// A machine that was reported of the process itself counts, whatever its WOW64 layer shows.
pub proof fn law_the_reported_machine_counts(
    wow_machine: u16,
    other_wow_machine: u16,
    native_machine: u16,
    machine: u16,
)
    ensures
        classification(wow_machine, native_machine, Some(machine)) == classification(
            other_wow_machine,
            native_machine,
            Some(machine),
        ),
{
}

/// The widths of the machine types, one by one: no type has two, and no other number has one.
pub proof fn law_widths_of_machines(machine: u16)
    ensures
        is_32_bit(machine) <==> machine == IMAGE_FILE_MACHINE_I386 || machine
            == IMAGE_FILE_MACHINE_ARM || machine == IMAGE_FILE_MACHINE_ARMNT || machine
            == IMAGE_FILE_MACHINE_THUMB,
        is_64_bit(machine) <==> machine == IMAGE_FILE_MACHINE_AMD64 || machine
            == IMAGE_FILE_MACHINE_ARM64 || machine == IMAGE_FILE_MACHINE_IA64,
        !(is_32_bit(machine) && is_64_bit(machine)),
{
}

/// What a reported machine comes to, on every host: the host's own machine is native; x86 and
/// x86-64 are emulated on ARM64; any other 32-bit program is compatible with a 64-bit host; and
/// what is left, unknown numbers on either side included, is invalid. The answer names the two
/// machines that were given.
pub proof fn law_reported_machines_and_hosts(
    wow_machine: u16,
    native_machine: u16,
    process_machine: u16,
)
    ensures
        ({
            let found = classification(wow_machine, native_machine, Some(process_machine));
            let answer = |mode: ExecutionMode|
                Ok::<ProcessArchitecture, u32>(
                    ProcessArchitecture { process_machine, native_machine, mode },
                );
            let known = |machine: u16| is_32_bit(machine) || is_64_bit(machine);
            &&& known(native_machine) && process_machine == native_machine ==> found == answer(
                ExecutionMode::Native,
            )
            &&& native_machine == IMAGE_FILE_MACHINE_ARM64 && process_machine
                == IMAGE_FILE_MACHINE_I386 ==> found == answer(ExecutionMode::EmulatedX86)
            &&& native_machine == IMAGE_FILE_MACHINE_ARM64 && process_machine
                == IMAGE_FILE_MACHINE_AMD64 ==> found == answer(ExecutionMode::EmulatedX64)
            &&& native_machine == IMAGE_FILE_MACHINE_ARM64 && is_32_bit(process_machine)
                && process_machine != IMAGE_FILE_MACHINE_I386 ==> found == answer(
                ExecutionMode::Compatibility32,
            )
            &&& is_64_bit(native_machine) && native_machine != IMAGE_FILE_MACHINE_ARM64
                && is_32_bit(process_machine) ==> found == answer(ExecutionMode::Compatibility32)
            &&& !known(native_machine) || !known(process_machine) ==> found == Err::<
                ProcessArchitecture,
                u32,
            >(ERROR_INVALID_DATA)
            &&& is_32_bit(native_machine) && process_machine != native_machine ==> found == Err::<
                ProcessArchitecture,
                u32,
            >(ERROR_INVALID_DATA)
            &&& is_64_bit(process_machine) && process_machine != native_machine && !(native_machine
                == IMAGE_FILE_MACHINE_ARM64 && process_machine == IMAGE_FILE_MACHINE_AMD64)
                ==> found == Err::<ProcessArchitecture, u32>(ERROR_INVALID_DATA)
        }),
{
}

/// Without a reported machine, a process in a WOW64 layer is what a report of the layer's
/// machine would make it, and a process outside one, on a host other than ARM64, is what a
/// report of the host's machine would make it: native on every known host.
pub proof fn law_older_systems_know_the_layer_and_the_host(wow_machine: u16, native_machine: u16)
    ensures
        wow_machine != IMAGE_FILE_MACHINE_UNKNOWN ==> classification(
            wow_machine,
            native_machine,
            None,
        ) == classification(wow_machine, native_machine, Some(wow_machine)),
        wow_machine == IMAGE_FILE_MACHINE_UNKNOWN && native_machine != IMAGE_FILE_MACHINE_ARM64
            ==> classification(wow_machine, native_machine, None) == classification(
            wow_machine,
            native_machine,
            Some(native_machine),
        ),
        wow_machine == IMAGE_FILE_MACHINE_UNKNOWN && native_machine != IMAGE_FILE_MACHINE_ARM64
            && (is_32_bit(native_machine) || is_64_bit(native_machine)) ==> classification(
            wow_machine,
            native_machine,
            None,
        ) == Ok::<ProcessArchitecture, u32>(
            ProcessArchitecture {
                process_machine: native_machine,
                native_machine,
                mode: ExecutionMode::Native,
            },
        ),
        classification(wow_machine, native_machine, None) matches Ok(architecture)
            ==> architecture.process_machine != native_machine ==> architecture.process_machine
            == wow_machine,
{
}

/// The machine that is known of a process is the reported one; without a report it is the
/// layer's, or else the host's; only outside a layer on ARM64 is there none.
pub proof fn law_where_the_known_machine_comes_from(
    wow_machine: u16,
    native_machine: u16,
    machine: u16,
)
    ensures
        known_machine(wow_machine, native_machine, Some(machine)) == Some(machine),
        wow_machine != IMAGE_FILE_MACHINE_UNKNOWN ==> known_machine(
            wow_machine,
            native_machine,
            None,
        ) == Some(wow_machine),
        wow_machine == IMAGE_FILE_MACHINE_UNKNOWN && native_machine != IMAGE_FILE_MACHINE_ARM64
            ==> known_machine(wow_machine, native_machine, None) == Some(native_machine),
        known_machine(
            IMAGE_FILE_MACHINE_UNKNOWN,
            IMAGE_FILE_MACHINE_ARM64,
            None,
        ) is None,
{
}

} // verus!
