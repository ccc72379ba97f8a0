//! The order of the calls that inspect the main program file of a process.

use crate::errors::{io_error, io_error_code, last_error, last_error_code, IoFailure};
use crate::win32::{ERROR_INVALID_DATA, PROCESS_NAME_WIN32};
use vstd::prelude::*;

verus! {

/// The number of UTF-16 units that the full name of a program file can take.
pub const IMAGE_NAME_CAPACITY: usize = 32768;

/// What is needed next to inspect the main program file of a process, or what came of it.
pub enum InspectStep {
    /// The full name of the file, in this form and in a buffer of `capacity` UTF-16 units.
    QueryName { format: u32, capacity: usize },
    /// The file of this name, opened for reading.
    OpenImage { path: Vec<u16> },
    /// A scan of the opened file.
    ScanImage,
    /// Nothing: whether the program is an ARM64EC one, or the error to report.
    Finished(Result<bool, u32>),
}

/// An [`InspectStep`], with the name as a sequence.
pub enum InspectView {
    QueryName { format: u32, capacity: int },
    OpenImage { path: Seq<u16> },
    ScanImage,
    Finished(Result<bool, u32>),
}

impl View for InspectStep {
    type V = InspectView;

    open spec fn view(&self) -> InspectView {
        match *self {
            InspectStep::QueryName { format, capacity } => InspectView::QueryName {
                format,
                capacity: capacity as int,
            },
            InspectStep::OpenImage { path } => InspectView::OpenImage { path: path@ },
            InspectStep::ScanImage => InspectView::ScanImage,
            InspectStep::Finished(result) => InspectView::Finished(result),
        }
    }
}

/// The buffer that a name was written to, and the number of units written.
pub struct ImageName {
    pub buffer: Vec<u16>,
    pub length: u32,
}

/// The name fills some of the buffer and leaves room for the unit that ends it.
pub open spec fn name_fits(buffer: Seq<u16>, length: u32) -> bool {
    0 < length < buffer.len()
}

/// The first step of an inspection.
pub open spec fn inspect_start() -> InspectView {
    InspectView::QueryName { format: PROCESS_NAME_WIN32, capacity: IMAGE_NAME_CAPACITY as int }
}

/// The step after the name, or after the error number of the failure to find it.
pub open spec fn after_name(reply: Result<ImageName, u32>) -> InspectView {
    match reply {
        Ok(name) => if name_fits(name.buffer@, name.length) {
            InspectView::OpenImage { path: name.buffer@.take(name.length as int) }
        } else {
            InspectView::Finished(Err(ERROR_INVALID_DATA))
        },
        Err(error) => InspectView::Finished(Err(last_error_code(error))),
    }
}

/// The step after the file was opened, or could not be.
pub open spec fn after_open(reply: Result<(), u32>) -> InspectView {
    match reply {
        Ok(_) => InspectView::ScanImage,
        Err(error) => InspectView::Finished(Err(error)),
    }
}

/// Starts the inspection of the main program file of a process.
pub fn main_image_is_arm64ec() -> (step: InspectStep)
    ensures
        step@ == inspect_start(),
        step == (InspectStep::QueryName {
            format: PROCESS_NAME_WIN32,
            capacity: IMAGE_NAME_CAPACITY,
        }),
{
    InspectStep::QueryName { format: PROCESS_NAME_WIN32, capacity: IMAGE_NAME_CAPACITY }
}

/// Goes on with the name of the file, or with the error number of the failure to find it.
pub fn name_queried(reply: Result<ImageName, u32>) -> (step: InspectStep)
    ensures
        step@ == after_name(reply),
        reply matches Ok(name) ==> 0 < name.length < name.buffer@.len() ==> (step
            matches InspectStep::OpenImage { path } && {
            &&& path@.len() == name.length
            &&& forall|i: int| 0 <= i < name.length ==> path@[i] == name.buffer@[i]
        }),
        reply matches Ok(name) ==> !(0 < name.length < name.buffer@.len()) ==> step
            == InspectStep::Finished(Err(ERROR_INVALID_DATA)),
        reply matches Err(error) ==> step == InspectStep::Finished(Err(last_error_code(error))),
{
    match reply {
        Ok(name) => {
            let length: usize = name.length as usize;
            if length == 0 || length >= name.buffer.len() {
                return InspectStep::Finished(Err(ERROR_INVALID_DATA));
            }
            let mut path: Vec<u16> = name.buffer;
            path.truncate(length);
            InspectStep::OpenImage { path }
        },
        Err(error) => InspectStep::Finished(Err(last_error(error))),
    }
}

/// Goes on with the opened file, or with the error to report for the failure to open it.
pub fn image_opened(reply: Result<(), u32>) -> (step: InspectStep)
    ensures
        step@ == after_open(reply),
        reply is Ok ==> step == InspectStep::ScanImage,
        reply matches Err(error) ==> step == InspectStep::Finished(Err(error)),
{
    match reply {
        Ok(_) => InspectStep::ScanImage,
        Err(error) => InspectStep::Finished(Err(error)),
    }
}

/// Ends with what the scan of the file found.
pub fn image_scanned(reply: Result<bool, u32>) -> (step: InspectStep)
    ensures
        step@ == InspectView::Finished(reply),
        step == InspectStep::Finished(reply),
{
    InspectStep::Finished(reply)
}

/// What is needed next to open a program file, or what came of it.
///
/// A 32-bit observer on a 64-bit system sees other files than the observed process does where
/// the system redirects its file names. Redirection is switched off for the moment of opening.
#[derive(Clone, Copy, Debug, PartialEq, Eq)]
pub enum OpenStep {
    /// Redirection of file names switched off for this thread.
    DisableRedirection,
    /// The file, opened for reading.
    OpenFile { redirection_off: bool },
    /// Redirection of file names switched on again. The file was opened, or was not, before.
    RestoreRedirection { opened: Result<(), IoFailure> },
    /// Nothing: the file is open, or the error to report.
    Finished(Result<(), u32>),
}

/// The result to report for an attempt to open a file.
pub open spec fn open_result(opened: Result<(), IoFailure>) -> Result<(), u32> {
    match opened {
        Ok(_) => Ok(()),
        Err(failure) => Err(io_error_code(failure)),
    }
}

/// The first step of opening a file.
pub open spec fn open_start(redirected: bool) -> OpenStep {
    if redirected {
        OpenStep::DisableRedirection
    } else {
        OpenStep::OpenFile { redirection_off: false }
    }
}

/// The step after redirection was switched off, or the error number of the failure to do so.
pub open spec fn after_disable(reply: Result<(), u32>) -> OpenStep {
    match reply {
        Ok(_) => OpenStep::OpenFile { redirection_off: true },
        Err(error) => OpenStep::Finished(Err(last_error_code(error))),
    }
}

/// The step after the file was opened, or could not be.
pub open spec fn after_open_file(redirection_off: bool, reply: Result<(), IoFailure>) -> OpenStep {
    if redirection_off {
        OpenStep::RestoreRedirection { opened: reply }
    } else {
        OpenStep::Finished(open_result(reply))
    }
}

/// The step after redirection was switched on again, or the error number of the failure to do
/// so.
pub open spec fn after_restore(opened: Result<(), IoFailure>, reply: Result<(), u32>) -> OpenStep {
    match reply {
        Ok(_) => OpenStep::Finished(open_result(opened)),
        Err(error) => OpenStep::Finished(Err(last_error_code(error))),
    }
}

/// Starts to open the main program file of a process. The observer's own view of the file
/// system is `redirected` if it is a 32-bit program on a system that redirects those.
pub fn open_main_image(redirected: bool) -> (step: OpenStep)
    ensures
        step == open_start(redirected),
        redirected ==> step == OpenStep::DisableRedirection,
        !redirected ==> step == (OpenStep::OpenFile { redirection_off: false }),
{
    if redirected {
        OpenStep::DisableRedirection
    } else {
        OpenStep::OpenFile { redirection_off: false }
    }
}

/// Goes on after redirection was switched off, or with the error number of the failure.
pub fn redirection_disabled(reply: Result<(), u32>) -> (step: OpenStep)
    ensures
        step == after_disable(reply),
        reply is Ok ==> step == (OpenStep::OpenFile { redirection_off: true }),
        reply matches Err(error) ==> step == OpenStep::Finished(Err(last_error_code(error))),
{
    match reply {
        Ok(_) => OpenStep::OpenFile { redirection_off: true },
        Err(error) => OpenStep::Finished(Err(last_error(error))),
    }
}

/// Turns an attempt to open a file into the result to report.
fn report_open(opened: Result<(), IoFailure>) -> (result: Result<(), u32>)
    ensures
        result == open_result(opened),
        opened is Ok ==> result == Ok::<(), u32>(()),
        opened matches Err(failure) ==> result == Err::<(), u32>(io_error_code(failure)),
{
    match opened {
        Ok(_) => Ok(()),
        Err(failure) => Err(io_error(failure)),
    }
}

/// Goes on after the file was opened or could not be.
pub fn file_opened(redirection_off: bool, reply: Result<(), IoFailure>) -> (step: OpenStep)
    ensures
        step == after_open_file(redirection_off, reply),
        redirection_off ==> step == (OpenStep::RestoreRedirection { opened: reply }),
        !redirection_off && reply is Ok ==> step == OpenStep::Finished(Ok(())),
        !redirection_off ==> (reply matches Err(failure) ==> step == OpenStep::Finished(
            Err(io_error_code(failure)),
        )),
{
    if redirection_off {
        OpenStep::RestoreRedirection { opened: reply }
    } else {
        OpenStep::Finished(report_open(reply))
    }
}

/// Ends after redirection was switched on again, or with the error number of the failure.
pub fn redirection_restored(opened: Result<(), IoFailure>, reply: Result<(), u32>) -> (step:
    OpenStep)
    ensures
        step == after_restore(opened, reply),
        reply matches Err(error) ==> step == OpenStep::Finished(Err(last_error_code(error))),
        reply is Ok && opened is Ok ==> step == OpenStep::Finished(Ok(())),
        reply is Ok ==> (opened matches Err(failure) ==> step == OpenStep::Finished(
            Err(io_error_code(failure)),
        )),
{
    match reply {
        Ok(_) => OpenStep::Finished(report_open(opened)),
        Err(error) => OpenStep::Finished(Err(last_error(error))),
    }
}

/// How the system answers the calls that open a file.
pub struct OpenReplies {
    pub disabled: Result<(), u32>,
    pub opened: Result<(), IoFailure>,
    pub restored: Result<(), u32>,
}

/// How many replies the opening of a file can still wait for.
pub open spec fn open_replies_left(step: OpenStep) -> nat {
    match step {
        OpenStep::DisableRedirection => 3,
        OpenStep::OpenFile { .. } => 2,
        OpenStep::RestoreRedirection { .. } => 1,
        OpenStep::Finished(_) => 0,
    }
}

/// The steps from `step` to the end, the last one included.
pub open spec fn open_steps(step: OpenStep, replies: OpenReplies) -> Seq<OpenStep>
    decreases open_replies_left(step),
{
    seq![step] + match step {
        OpenStep::DisableRedirection => open_steps(after_disable(replies.disabled), replies),
        OpenStep::OpenFile { redirection_off } => open_steps(
            after_open_file(redirection_off, replies.opened),
            replies,
        ),
        OpenStep::RestoreRedirection { opened } => open_steps(
            after_restore(opened, replies.restored),
            replies,
        ),
        OpenStep::Finished(_) => seq![],
    }
}

/// What comes of opening a file: a failure to switch redirection off or on again is reported
/// even where the file could be opened.
pub open spec fn open_outcome(redirected: bool, replies: OpenReplies) -> Result<(), u32> {
    if redirected && replies.disabled is Err {
        Err(last_error_code(replies.disabled->Err_0))
    } else if redirected && replies.restored is Err {
        Err(last_error_code(replies.restored->Err_0))
    } else {
        open_result(replies.opened)
    }
}

/// Where redirection is switched off, the one thing done before it is switched on again is to
/// open the file, and it is switched on again whether or not the file could be opened. Where
/// it could not be switched off, no file is opened. Without redirection the file is just
/// opened.
pub proof fn law_redirection_is_off_only_while_opening(redirected: bool, replies: OpenReplies)
    ensures
        !redirected ==> open_steps(open_start(redirected), replies) == seq![
            OpenStep::OpenFile { redirection_off: false },
            OpenStep::Finished(open_outcome(redirected, replies)),
        ],
        redirected && replies.disabled is Ok ==> open_steps(open_start(redirected), replies)
            == seq![
            OpenStep::DisableRedirection,
            OpenStep::OpenFile { redirection_off: true },
            OpenStep::RestoreRedirection { opened: replies.opened },
            OpenStep::Finished(open_outcome(redirected, replies)),
        ],
        redirected && replies.disabled is Err ==> open_steps(open_start(redirected), replies)
            == seq![
            OpenStep::DisableRedirection,
            OpenStep::Finished(open_outcome(redirected, replies)),
        ],
{
    reveal_with_fuel(open_steps, 4);
}

/// How the system answers the calls that inspect a program file.
pub struct InspectReplies {
    pub name: Result<ImageName, u32>,
    pub opened: Result<(), u32>,
    pub scanned: Result<bool, u32>,
}

/// How many replies an inspection can still wait for.
pub open spec fn inspect_replies_left(step: InspectView) -> nat {
    match step {
        InspectView::QueryName { .. } => 3,
        InspectView::OpenImage { .. } => 2,
        InspectView::ScanImage => 1,
        InspectView::Finished(_) => 0,
    }
}

/// The result that an inspection reaches from `step` on.
pub open spec fn inspect_drive(step: InspectView, replies: InspectReplies) -> Result<bool, u32>
    decreases inspect_replies_left(step),
{
    match step {
        InspectView::QueryName { .. } => inspect_drive(after_name(replies.name), replies),
        InspectView::OpenImage { .. } => inspect_drive(after_open(replies.opened), replies),
        InspectView::ScanImage => inspect_drive(InspectView::Finished(replies.scanned), replies),
        InspectView::Finished(result) => result,
    }
}

/// What comes of an inspection: the first failure, else what the scan found.
pub open spec fn inspect_outcome(replies: InspectReplies) -> Result<bool, u32> {
    match replies.name {
        Err(error) => Err(last_error_code(error)),
        Ok(name) => if !name_fits(name.buffer@, name.length) {
            Err(ERROR_INVALID_DATA)
        } else {
            match replies.opened {
                Err(error) => Err(error),
                Ok(_) => replies.scanned,
            }
        },
    }
}

/// An inspection reports the first failure, or what the scan found.
pub proof fn law_inspection_reports_the_first_failure(replies: InspectReplies)
    ensures
        inspect_drive(inspect_start(), replies) == inspect_outcome(replies),
{
    reveal_with_fuel(inspect_drive, 4);
}

/// The file is open at the end exactly if every call that was made succeeded. Otherwise the
/// result is the code of a failed call: the first of switching redirection off, switching it on
/// again, and opening.
pub proof fn law_open_succeeds_only_if_all_calls_do(redirected: bool, replies: OpenReplies)
    ensures
        open_outcome(redirected, replies) is Ok <==> replies.opened is Ok && (redirected
            ==> replies.disabled is Ok && replies.restored is Ok),
        redirected ==> (replies.disabled matches Err(error) ==> open_outcome(redirected, replies)
            == Err::<(), u32>(last_error_code(error))),
        redirected && replies.disabled is Ok ==> (replies.restored matches Err(error)
            ==> open_outcome(redirected, replies) == Err::<(), u32>(last_error_code(error))),
        !redirected || (replies.disabled is Ok && replies.restored is Ok) ==> (replies.opened
            matches Err(failure) ==> open_outcome(redirected, replies) == Err::<(), u32>(
            io_error_code(failure),
        )),
{
}

/// The steps of an inspection from `step` to the end, the last one included.
pub open spec fn inspect_steps(step: InspectView, replies: InspectReplies) -> Seq<InspectView>
    decreases inspect_replies_left(step),
{
    seq![step] + match step {
        InspectView::QueryName { .. } => inspect_steps(after_name(replies.name), replies),
        InspectView::OpenImage { .. } => inspect_steps(after_open(replies.opened), replies),
        InspectView::ScanImage => inspect_steps(InspectView::Finished(replies.scanned), replies),
        InspectView::Finished(_) => seq![],
    }
}

/// The file that an inspection opens is the file that was named, unit by unit, and what it
/// reports is the scan of that file. The name is asked for in the form that file calls take, with
/// room for the longest. Only a name that is not empty and leaves room in its buffer
/// is used, and only an opened file is scanned.
pub proof fn law_the_named_file_is_the_one_inspected(replies: InspectReplies)
    ensures
        ({
            let steps = inspect_steps(inspect_start(), replies);
            match replies.name {
                Err(error) => {
                    &&& steps.len() == 2
                    &&& steps[1] == InspectView::Finished(Err(last_error_code(error)))
                },
                Ok(name) => if name.length == 0 || name.length >= name.buffer@.len() {
                    &&& steps.len() == 2
                    &&& steps[1] == InspectView::Finished(Err(ERROR_INVALID_DATA))
                } else {
                    &&& steps[1] matches InspectView::OpenImage { path } && {
                        &&& path.len() == name.length
                        &&& forall|i: int| 0 <= i < name.length ==> path[i] == name.buffer@[i]
                    }
                    &&& match replies.opened {
                        Err(error) => {
                            &&& steps.len() == 3
                            &&& steps[2] == InspectView::Finished(Err(error))
                        },
                        Ok(_) => {
                            &&& steps.len() == 4
                            &&& steps[2] == InspectView::ScanImage
                            &&& steps[3] == InspectView::Finished(replies.scanned)
                        },
                    }
                },
            }
        }),
        inspect_steps(inspect_start(), replies)[0] == (InspectView::QueryName {
            format: PROCESS_NAME_WIN32,
            capacity: 32768,
        }),
        inspect_steps(inspect_start(), replies).last() == InspectView::Finished(
            inspect_outcome(replies),
        ),
{
    reveal_with_fuel(inspect_steps, 4);
}

/// An inspection is about the name alone, not about what else is in the buffer: two buffers that
/// hold the same name lead to the same file.
pub proof fn law_only_the_name_matters(name: ImageName, other: ImageName)
    requires
        name.length == other.length,
        0 < name.length < name.buffer@.len(),
        other.length < other.buffer@.len(),
        forall|i: int| 0 <= i < name.length ==> name.buffer@[i] == other.buffer@[i],
    ensures
        after_name(Ok(name)) == after_name(Ok(other)),
        after_name(Ok(name)) matches InspectView::OpenImage { path } && path
            =~= name.buffer@.subrange(0, name.length as int),
{
    assert(name.buffer@.take(name.length as int) =~= other.buffer@.take(other.length as int));
}

} // verus!
