//! How a failed system call or file operation becomes an error code.

use crate::win32::{ERROR_GEN_FAILURE, ERROR_INVALID_DATA};
use vstd::prelude::*;

verus! {

/// What a failed file operation says of itself.
#[derive(Clone, Copy, Debug, PartialEq, Eq, Structural)]
pub struct IoFailure {
    /// The file ended before the bytes that were asked for.
    pub unexpected_eof: bool,
    /// The system's own error number, where the failure has one.
    pub raw_os_error: Option<i32>,
}

/// The code of a failed call whose error number is `error`: a failure always has a code, even
/// where the system left none.
pub open spec fn last_error_code(error: u32) -> u32 {
    if error == 0 {
        ERROR_GEN_FAILURE
    } else {
        error
    }
}

/// The code of a failed file operation. A file that ends too early is invalid data; any other
/// failure is reported by its positive system number, or as a general failure without one.
pub open spec fn io_error_code(error: IoFailure) -> u32 {
    if error.unexpected_eof {
        ERROR_INVALID_DATA
    } else {
        match error.raw_os_error {
            Some(value) => if value > 0 {
                value as u32
            } else {
                ERROR_GEN_FAILURE
            },
            None => ERROR_GEN_FAILURE,
        }
    }
}

/// Turns the error number read right after a failed call into the code to report.
pub fn last_error(error: u32) -> (code: u32)
    ensures
        code == last_error_code(error),
        error != 0 ==> code == error,
        error == 0 ==> code == ERROR_GEN_FAILURE,
{
    if error == 0 {
        ERROR_GEN_FAILURE
    } else {
        error
    }
}

/// Turns a failed file operation into the code to report.
pub fn io_error(error: IoFailure) -> (code: u32)
    ensures
        code == io_error_code(error),
        error.unexpected_eof ==> code == ERROR_INVALID_DATA,
        !error.unexpected_eof ==> match error.raw_os_error {
            Some(value) => if value > 0 {
                code == value
            } else {
                code == ERROR_GEN_FAILURE
            },
            None => code == ERROR_GEN_FAILURE,
        },
{
    if error.unexpected_eof {
        return ERROR_INVALID_DATA;
    }
    match error.raw_os_error {
        Some(value) => if value > 0 {
            value as u32
        } else {
            ERROR_GEN_FAILURE
        },
        None => ERROR_GEN_FAILURE,
    }
}

/// No failure is reported with the code of success.
pub proof fn law_failures_have_a_code(error: u32, failure: IoFailure)
    ensures
        last_error_code(error) != 0,
        io_error_code(failure) != 0,
{
}

/// The system's own numbers are kept: a failed call, or a failed file operation that is not an
/// early end of the file, is reported by its number wherever it has one.
pub proof fn law_error_numbers_are_kept(error: u32, failure: IoFailure)
    ensures
        error != 0 ==> last_error_code(error) == error,
        last_error_code(0) == ERROR_GEN_FAILURE,
        failure.unexpected_eof ==> io_error_code(failure) == ERROR_INVALID_DATA,
        !failure.unexpected_eof ==> (failure.raw_os_error matches Some(value) ==> value > 0
            ==> io_error_code(failure) == value),
        !failure.unexpected_eof ==> (failure.raw_os_error matches Some(value) ==> value <= 0
            ==> io_error_code(failure) == ERROR_GEN_FAILURE),
        !failure.unexpected_eof && failure.raw_os_error is None ==> io_error_code(failure)
            == ERROR_GEN_FAILURE,
{
}

} // verus!
