//! The order of the calls that enable the debug privilege and that check for elevation.

use crate::win32::{
    ERROR_NOT_ALL_ASSIGNED, SE_PRIVILEGE_ENABLED, TOKEN_ADJUST_PRIVILEGES, TOKEN_QUERY,
};
use vstd::prelude::*;

verus! {

/// The number by which the local system knows a privilege.
#[derive(Clone, Copy, Debug, PartialEq, Eq, Structural)]
pub struct Luid {
    pub low_part: u32,
    pub high_part: i32,
}

/// A change of the privileges of a token: `count` privileges, the first of them this one.
#[derive(Clone, Copy, Debug, PartialEq, Eq, Structural)]
pub struct TokenPrivileges {
    pub count: u32,
    pub luid: Luid,
    pub attributes: u32,
}

/// What a call that adjusts privileges reports: whether it says that it succeeded, and the
/// error number that it left.
#[derive(Clone, Copy, Debug, PartialEq, Eq, Structural)]
pub struct Adjustment {
    pub succeeded: bool,
    pub error: u32,
}

/// What is needed next to enable the debug privilege, or what came of it.
#[derive(Clone, Copy, Debug, PartialEq, Eq)]
pub enum PrivilegeStep {
    /// The token of this process, opened with these rights.
    OpenToken { access: u32 },
    /// The number of the debug privilege.
    LookupDebugPrivilege,
    /// The error number of this thread set to zero.
    ClearLastError { luid: Luid },
    /// The privileges of the token adjusted: all of them disabled, or else these changed.
    AdjustPrivileges { disable_all: bool, privileges: TokenPrivileges },
    /// The token closed. The result is known.
    CloseToken { result: Result<(), u32> },
    /// Nothing: the privilege is enabled, or the error to report.
    Finished(Result<(), u32>),
}

/// The first step of enabling the debug privilege.
pub open spec fn privilege_start() -> PrivilegeStep {
    PrivilegeStep::OpenToken { access: TOKEN_ADJUST_PRIVILEGES | TOKEN_QUERY }
}

/// The step after the token was opened: `Ok` says whether there is a token to own, `Err` is
/// the error number of the failure.
pub open spec fn after_token(reply: Result<bool, u32>) -> PrivilegeStep {
    match reply {
        Ok(owned) => if owned {
            PrivilegeStep::LookupDebugPrivilege
        } else {
            PrivilegeStep::Finished(Err(ERROR_NOT_ALL_ASSIGNED))
        },
        Err(error) => PrivilegeStep::Finished(Err(error)),
    }
}

/// The step after the privilege was looked up, or after the error number of the failure.
pub open spec fn after_lookup(reply: Result<Luid, u32>) -> PrivilegeStep {
    match reply {
        Ok(luid) => PrivilegeStep::ClearLastError { luid },
        Err(error) => PrivilegeStep::CloseToken { result: Err(error) },
    }
}

/// The change that enables one privilege.
pub open spec fn enabling(luid: Luid) -> TokenPrivileges {
    TokenPrivileges { count: 1, luid, attributes: SE_PRIVILEGE_ENABLED }
}

/// The step after the error number was cleared: this one privilege is enabled, and the others
/// are left as they are.
pub open spec fn after_clear(luid: Luid) -> PrivilegeStep {
    PrivilegeStep::AdjustPrivileges { disable_all: false, privileges: enabling(luid) }
}

/// The result to report for an adjustment: it has to say that it succeeded and to leave no
/// error number.
pub open spec fn adjustment_result(adjustment: Adjustment) -> Result<(), u32> {
    if adjustment.succeeded && adjustment.error == 0 {
        Ok(())
    } else {
        Err(adjustment.error)
    }
}

/// Starts to enable the debug privilege of this process, which it takes to query processes of
/// services and of the system.
pub fn enable_debug_privilege() -> (step: PrivilegeStep)
    ensures
        step == privilege_start(),
        step == (PrivilegeStep::OpenToken { access: TOKEN_ADJUST_PRIVILEGES | TOKEN_QUERY }),
{
    PrivilegeStep::OpenToken { access: TOKEN_ADJUST_PRIVILEGES | TOKEN_QUERY }
}

/// Goes on with the opened token, or with the error number of the failure to open it.
pub fn token_opened(reply: Result<bool, u32>) -> (step: PrivilegeStep)
    ensures
        step == after_token(reply),
        reply == Ok::<bool, u32>(true) ==> step == PrivilegeStep::LookupDebugPrivilege,
        reply == Ok::<bool, u32>(false) ==> step == PrivilegeStep::Finished(
            Err(ERROR_NOT_ALL_ASSIGNED),
        ),
        reply matches Err(error) ==> step == PrivilegeStep::Finished(Err(error)),
{
    match reply {
        Ok(owned) => if owned {
            PrivilegeStep::LookupDebugPrivilege
        } else {
            PrivilegeStep::Finished(Err(ERROR_NOT_ALL_ASSIGNED))
        },
        Err(error) => PrivilegeStep::Finished(Err(error)),
    }
}

/// Goes on with the number of the privilege, or with the error number of the failure to find
/// it.
pub fn privilege_looked_up(reply: Result<Luid, u32>) -> (step: PrivilegeStep)
    ensures
        step == after_lookup(reply),
        reply matches Ok(luid) ==> step == (PrivilegeStep::ClearLastError { luid }),
        reply matches Err(error) ==> step == (PrivilegeStep::CloseToken { result: Err(error) }),
{
    match reply {
        Ok(luid) => PrivilegeStep::ClearLastError { luid },
        Err(error) => PrivilegeStep::CloseToken { result: Err(error) },
    }
}

/// Goes on after the error number of the thread was set to zero.
pub fn last_error_cleared(luid: Luid) -> (step: PrivilegeStep)
    ensures
        step == after_clear(luid),
        step matches PrivilegeStep::AdjustPrivileges { disable_all, privileges } && {
            &&& disable_all == false
            &&& privileges.count == 1
            &&& privileges.luid == luid
            &&& privileges.attributes == SE_PRIVILEGE_ENABLED
        },
{
    PrivilegeStep::AdjustPrivileges {
        disable_all: false,
        privileges: TokenPrivileges { count: 1, luid, attributes: SE_PRIVILEGE_ENABLED },
    }
}

/// Goes on with what the adjustment reported.
pub fn privileges_adjusted(adjustment: Adjustment) -> (step: PrivilegeStep)
    ensures
        step == (PrivilegeStep::CloseToken { result: adjustment_result(adjustment) }),
        adjustment.succeeded && adjustment.error == 0 ==> step == (PrivilegeStep::CloseToken {
            result: Ok(()),
        }),
        !adjustment.succeeded || adjustment.error != 0 ==> step == (PrivilegeStep::CloseToken {
            result: Err(adjustment.error),
        }),
{
    if !adjustment.succeeded {
        return PrivilegeStep::CloseToken { result: Err(adjustment.error) };
    }
    if adjustment.error == 0 {
        PrivilegeStep::CloseToken { result: Ok(()) }
    } else {
        PrivilegeStep::CloseToken { result: Err(adjustment.error) }
    }
}

/// Ends, after the token was closed, with the result that was known.
pub fn token_closed(result: Result<(), u32>) -> (step: PrivilegeStep)
    ensures
        step == PrivilegeStep::Finished(result),
{
    PrivilegeStep::Finished(result)
}

/// How the system answers the calls that enable a privilege.
pub struct PrivilegeReplies {
    pub token: Result<bool, u32>,
    pub luid: Result<Luid, u32>,
    pub adjustment: Adjustment,
}

/// How many replies the enabling of a privilege can still wait for.
pub open spec fn privilege_replies_left(step: PrivilegeStep) -> nat {
    match step {
        PrivilegeStep::OpenToken { .. } => 5,
        PrivilegeStep::LookupDebugPrivilege => 4,
        PrivilegeStep::ClearLastError { .. } => 3,
        PrivilegeStep::AdjustPrivileges { .. } => 2,
        PrivilegeStep::CloseToken { .. } => 1,
        PrivilegeStep::Finished(_) => 0,
    }
}

/// The steps from `step` to the end, the last one included.
pub open spec fn privilege_steps(step: PrivilegeStep, replies: PrivilegeReplies) -> Seq<
    PrivilegeStep,
>
    decreases privilege_replies_left(step),
{
    seq![step] + match step {
        PrivilegeStep::OpenToken { .. } => privilege_steps(after_token(replies.token), replies),
        PrivilegeStep::LookupDebugPrivilege => privilege_steps(
            after_lookup(replies.luid),
            replies,
        ),
        PrivilegeStep::ClearLastError { luid } => privilege_steps(after_clear(luid), replies),
        PrivilegeStep::AdjustPrivileges { .. } => privilege_steps(
            PrivilegeStep::CloseToken { result: adjustment_result(replies.adjustment) },
            replies,
        ),
        PrivilegeStep::CloseToken { result } => privilege_steps(
            PrivilegeStep::Finished(result),
            replies,
        ),
        PrivilegeStep::Finished(_) => seq![],
    }
}

/// What comes of enabling the debug privilege: the first failure, or success.
pub open spec fn privilege_outcome(replies: PrivilegeReplies) -> Result<(), u32> {
    match replies.token {
        Err(error) => Err(error),
        Ok(owned) => if !owned {
            Err(ERROR_NOT_ALL_ASSIGNED)
        } else {
            match replies.luid {
                Err(error) => Err(error),
                Ok(_) => adjustment_result(replies.adjustment),
            }
        },
    }
}

/// Enabling the debug privilege ends with its outcome, and stops at the first failure. The
/// privilege that was looked up is enabled, and no other is changed, right after the error
/// number was cleared, so that the number left behind is that of the adjustment. A token that
/// was opened is closed once, at the end, on every path; without one nothing is closed.
pub proof fn law_privilege_steps(replies: PrivilegeReplies)
    ensures
        replies.token == Ok::<bool, u32>(true) ==> match replies.luid {
            Ok(luid) => privilege_steps(privilege_start(), replies) == seq![
                privilege_start(),
                PrivilegeStep::LookupDebugPrivilege,
                PrivilegeStep::ClearLastError { luid },
                PrivilegeStep::AdjustPrivileges {
                    disable_all: false,
                    privileges: enabling(luid),
                },
                PrivilegeStep::CloseToken { result: privilege_outcome(replies) },
                PrivilegeStep::Finished(privilege_outcome(replies)),
            ],
            Err(_) => privilege_steps(privilege_start(), replies) == seq![
                privilege_start(),
                PrivilegeStep::LookupDebugPrivilege,
                PrivilegeStep::CloseToken { result: privilege_outcome(replies) },
                PrivilegeStep::Finished(privilege_outcome(replies)),
            ],
        },
        replies.token != Ok::<bool, u32>(true) ==> privilege_steps(privilege_start(), replies)
            == seq![privilege_start(), PrivilegeStep::Finished(privilege_outcome(replies))],
{
    reveal_with_fuel(privilege_steps, 6);
}

/// The privilege counts as enabled only if the adjustment both says that it succeeded and
/// leaves no error number: one that assigns not all privileges says the first and not the
/// second.
pub proof fn law_success_takes_both_channels(replies: PrivilegeReplies)
    ensures
        privilege_outcome(replies) == Ok::<(), u32>(()) <==> {
            &&& replies.token == Ok::<bool, u32>(true)
            &&& replies.luid is Ok
            &&& replies.adjustment.succeeded
            &&& replies.adjustment.error == 0
        },
{
}

/// What is needed next to find out whether this process is elevated, or what was found.
#[derive(Clone, Copy, Debug, PartialEq, Eq)]
pub enum ElevationStep {
    /// The token of this process, opened with these rights.
    OpenToken { access: u32 },
    /// The elevation of the token.
    QueryElevation,
    /// The token closed. The result is known.
    CloseToken { result: Result<bool, u32> },
    /// Nothing: whether the process is elevated, or the error to report.
    Finished(Result<bool, u32>),
}

/// The code of a failed call whose error number is `error`, where a failure without one counts
/// as a missing privilege.
pub open spec fn elevation_error_code(error: u32) -> u32 {
    if error == 0 {
        ERROR_NOT_ALL_ASSIGNED
    } else {
        error
    }
}

/// The first step of finding out whether this process is elevated.
pub open spec fn elevation_start() -> ElevationStep {
    ElevationStep::OpenToken { access: TOKEN_QUERY }
}

/// The step after the token was opened: `Ok` says whether there is a token to own, `Err` is
/// the error number of the failure.
pub open spec fn after_elevation_token(reply: Result<bool, u32>) -> ElevationStep {
    match reply {
        Ok(owned) => if owned {
            ElevationStep::QueryElevation
        } else {
            ElevationStep::Finished(Err(ERROR_NOT_ALL_ASSIGNED))
        },
        Err(error) => ElevationStep::Finished(Err(elevation_error_code(error))),
    }
}

/// The result to report for the elevation of the token, or for the error number of the failure
/// to find it.
pub open spec fn elevation_result(reply: Result<u32, u32>) -> Result<bool, u32> {
    match reply {
        Ok(elevated) => Ok(elevated != 0),
        Err(error) => Err(elevation_error_code(error)),
    }
}

/// Turns the error number of a failed call into the code to report.
fn elevation_error(error: u32) -> (code: u32)
    ensures
        code == elevation_error_code(error),
        error != 0 ==> code == error,
        error == 0 ==> code == ERROR_NOT_ALL_ASSIGNED,
{
    if error == 0 {
        ERROR_NOT_ALL_ASSIGNED
    } else {
        error
    }
}

/// Starts to find out whether this process is elevated.
pub fn process_is_elevated() -> (step: ElevationStep)
    ensures
        step == elevation_start(),
        step == (ElevationStep::OpenToken { access: TOKEN_QUERY }),
{
    ElevationStep::OpenToken { access: TOKEN_QUERY }
}

/// Goes on with the opened token, or with the error number of the failure to open it.
pub fn elevation_token_opened(reply: Result<bool, u32>) -> (step: ElevationStep)
    ensures
        step == after_elevation_token(reply),
        reply == Ok::<bool, u32>(true) ==> step == ElevationStep::QueryElevation,
        reply == Ok::<bool, u32>(false) ==> step == ElevationStep::Finished(
            Err(ERROR_NOT_ALL_ASSIGNED),
        ),
        reply matches Err(error) ==> error != 0 ==> step == ElevationStep::Finished(Err(error)),
        reply == Err::<bool, u32>(0) ==> step == ElevationStep::Finished(
            Err(ERROR_NOT_ALL_ASSIGNED),
        ),
{
    match reply {
        Ok(owned) => if owned {
            ElevationStep::QueryElevation
        } else {
            ElevationStep::Finished(Err(ERROR_NOT_ALL_ASSIGNED))
        },
        Err(error) => ElevationStep::Finished(Err(elevation_error(error))),
    }
}

/// Goes on with the elevation of the token, or with the error number of the failure to find it.
pub fn elevation_queried(reply: Result<u32, u32>) -> (step: ElevationStep)
    ensures
        step == (ElevationStep::CloseToken { result: elevation_result(reply) }),
        reply matches Ok(elevated) ==> step == (ElevationStep::CloseToken {
            result: Ok(elevated != 0),
        }),
        reply matches Err(error) ==> error != 0 ==> step == (ElevationStep::CloseToken {
            result: Err(error),
        }),
        reply == Err::<u32, u32>(0) ==> step == (ElevationStep::CloseToken {
            result: Err(ERROR_NOT_ALL_ASSIGNED),
        }),
{
    match reply {
        Ok(elevated) => ElevationStep::CloseToken { result: Ok(elevated != 0) },
        Err(error) => ElevationStep::CloseToken { result: Err(elevation_error(error)) },
    }
}

/// Ends, after the token was closed, with the result that was known.
pub fn elevation_token_closed(result: Result<bool, u32>) -> (step: ElevationStep)
    ensures
        step == ElevationStep::Finished(result),
{
    ElevationStep::Finished(result)
}

/// How the system answers the calls that find the elevation of a process.
pub struct ElevationReplies {
    pub token: Result<bool, u32>,
    pub elevation: Result<u32, u32>,
}

/// How many replies the question for elevation can still wait for.
pub open spec fn elevation_replies_left(step: ElevationStep) -> nat {
    match step {
        ElevationStep::OpenToken { .. } => 3,
        ElevationStep::QueryElevation => 2,
        ElevationStep::CloseToken { .. } => 1,
        ElevationStep::Finished(_) => 0,
    }
}

/// The steps from `step` to the end, the last one included.
pub open spec fn elevation_steps(step: ElevationStep, replies: ElevationReplies) -> Seq<
    ElevationStep,
>
    decreases elevation_replies_left(step),
{
    seq![step] + match step {
        ElevationStep::OpenToken { .. } => elevation_steps(
            after_elevation_token(replies.token),
            replies,
        ),
        ElevationStep::QueryElevation => elevation_steps(
            ElevationStep::CloseToken { result: elevation_result(replies.elevation) },
            replies,
        ),
        ElevationStep::CloseToken { result } => elevation_steps(
            ElevationStep::Finished(result),
            replies,
        ),
        ElevationStep::Finished(_) => seq![],
    }
}

/// What comes of the question for elevation: the first failure, or what the token says.
pub open spec fn elevation_outcome(replies: ElevationReplies) -> Result<bool, u32> {
    match replies.token {
        Err(error) => Err(elevation_error_code(error)),
        Ok(owned) => if owned {
            elevation_result(replies.elevation)
        } else {
            Err(ERROR_NOT_ALL_ASSIGNED)
        },
    }
}

/// The question for elevation ends with its outcome. The token is opened for reading alone and
/// is only asked. A token that was opened is closed once, at the end, whether or not it
/// answered; without one nothing is closed.
pub proof fn law_elevation_steps(replies: ElevationReplies)
    ensures
        replies.token == Ok::<bool, u32>(true) ==> elevation_steps(elevation_start(), replies)
            == seq![
            ElevationStep::OpenToken { access: TOKEN_QUERY },
            ElevationStep::QueryElevation,
            ElevationStep::CloseToken { result: elevation_outcome(replies) },
            ElevationStep::Finished(elevation_outcome(replies)),
        ],
        replies.token != Ok::<bool, u32>(true) ==> elevation_steps(elevation_start(), replies)
            == seq![
            ElevationStep::OpenToken { access: TOKEN_QUERY },
            ElevationStep::Finished(elevation_outcome(replies)),
        ],
{
    reveal_with_fuel(elevation_steps, 4);
}

/// A process is found elevated, or not, exactly as its token says, and only if there was a
/// token to ask; otherwise there is an error, and its code is never that of success.
pub proof fn law_elevation_is_what_the_token_says(replies: ElevationReplies)
    ensures
        match elevation_outcome(replies) {
            Ok(elevated) => {
                &&& replies.token == Ok::<bool, u32>(true)
                &&& replies.elevation matches Ok(value) && elevated == (value != 0)
            },
            Err(error) => {
                &&& error != 0
                &&& replies.token != Ok::<bool, u32>(true) || replies.elevation is Err
            },
        },
{
}

/// The one adjustment on the way to success enables the one privilege that was looked up, with
/// the attribute of an enabled privilege, and leaves all others alone. No other adjustment is
/// ever made, and none is made before the privilege is known.
pub proof fn law_only_the_looked_up_privilege_is_enabled(replies: PrivilegeReplies, i: int)
    requires
        0 <= i < privilege_steps(privilege_start(), replies).len(),
    ensures
        privilege_steps(privilege_start(), replies)[i] matches PrivilegeStep::AdjustPrivileges {
            disable_all,
            privileges,
        } ==> {
            &&& i == 3
            &&& replies.token == Ok::<bool, u32>(true)
            &&& replies.luid == Ok::<Luid, u32>(privileges.luid)
            &&& disable_all == false
            &&& privileges.count == 1
            &&& privileges.attributes == SE_PRIVILEGE_ENABLED
        },
        replies.token == Ok::<bool, u32>(true) && replies.luid is Ok && i == 3
            ==> privilege_steps(privilege_start(), replies)[i] is AdjustPrivileges,
        replies.token == Ok::<bool, u32>(true) ==> (replies.luid matches Ok(luid) ==> i == 2
            ==> privilege_steps(privilege_start(), replies)[i] == (PrivilegeStep::ClearLastError {
            luid,
        })),
        i == 0 ==> (privilege_steps(privilege_start(), replies)[i]
            matches PrivilegeStep::OpenToken { access } && access == TOKEN_ADJUST_PRIVILEGES
            | TOKEN_QUERY),
{
    law_privilege_steps(replies);
    reveal_with_fuel(privilege_steps, 6);
}

/// A failure to enable the privilege is reported as the call that failed left it; a missing
/// token counts as a missing privilege.
pub proof fn law_privilege_failures_are_reported(replies: PrivilegeReplies)
    ensures
        replies.token matches Err(error) ==> privilege_outcome(replies) == Err::<(), u32>(error),
        replies.token == Ok::<bool, u32>(false) ==> privilege_outcome(replies) == Err::<(), u32>(
            ERROR_NOT_ALL_ASSIGNED,
        ),
        replies.token == Ok::<bool, u32>(true) ==> (replies.luid matches Err(error)
            ==> privilege_outcome(replies) == Err::<(), u32>(error)),
        replies.token == Ok::<bool, u32>(true) && replies.luid is Ok && !(
        replies.adjustment.succeeded && replies.adjustment.error == 0) ==> privilege_outcome(
            replies,
        ) == Err::<(), u32>(replies.adjustment.error),
{
}

/// A failure to find the elevation is reported by the error number of the call that failed,
/// where it has one, and as a missing privilege otherwise.
pub proof fn law_elevation_failures_are_reported(replies: ElevationReplies)
    ensures
        replies.token matches Err(error) ==> error != 0 ==> elevation_outcome(replies) == Err::<
            bool,
            u32,
        >(error),
        replies.token == Err::<bool, u32>(0) || replies.token == Ok::<bool, u32>(false)
            ==> elevation_outcome(replies) == Err::<bool, u32>(ERROR_NOT_ALL_ASSIGNED),
        replies.token == Ok::<bool, u32>(true) ==> (replies.elevation matches Err(error) ==> error
            != 0 ==> elevation_outcome(replies) == Err::<bool, u32>(error)),
        replies.token == Ok::<bool, u32>(true) && replies.elevation == Err::<u32, u32>(0)
            ==> elevation_outcome(replies) == Err::<bool, u32>(ERROR_NOT_ALL_ASSIGNED),
        replies.token == Ok::<bool, u32>(true) ==> (replies.elevation matches Ok(value)
            ==> elevation_outcome(replies) == Ok::<bool, u32>(value != 0)),
{
}

} // verus!
