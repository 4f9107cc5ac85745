//! Errors of the RKNN3 runtime: the status codes it returns and the error
//! values the bindings build from them.

pub mod code;

use vstd::prelude::*;
use crate::text::{concat2, concat3, push_i64, int_decimal};

verus! {

/// An error of an RKNN3 call, or of the bindings' own checks.
///
/// The `Api*` variants name the runtime function that reported the error.
#[derive(Debug)]
pub enum Error {
    ApiFail { function: &'static str },
    ApiArgumentInvalid { function: &'static str },
    ApiModelInvalid { function: &'static str },
    ApiCtxInvalid { function: &'static str },
    ApiRunTaskFailed { function: &'static str },
    ApiOutOfMemory { function: &'static str },
    ApiTimeout { function: &'static str },
    ApiInputInvalid { function: &'static str },
    ApiOutputInvalid { function: &'static str },
    ApiDeviceUnavailable { function: &'static str },
    ApiDeviceUnmatch { function: &'static str },
    ApiTargetPlatformUnmatch { function: &'static str },
    ApiCommunication { function: &'static str },
    ApiMemSyncFailed { function: &'static str },
    ApiUnknown { function: &'static str, code: i32 },
    /// A string handed to the runtime held a NUL byte.
    NulByte { context: &'static str },
    /// The runtime handed back a null handle.
    NullHandle { context: &'static str },
    /// A configuration value was refused before any call.
    InvalidConfig { field: &'static str, reason: String },
}

/// The error that a nonzero status `code` of `function` stands for.
pub open spec fn error_for_code(function: &'static str, code: i32) -> Error {
    if code == code::FAIL {
        Error::ApiFail { function }
    } else if code == code::ARGUMENT_INVALID {
        Error::ApiArgumentInvalid { function }
    } else if code == code::MODEL_INVALID {
        Error::ApiModelInvalid { function }
    } else if code == code::CTX_INVALID {
        Error::ApiCtxInvalid { function }
    } else if code == code::RUN_TASK_FAILED {
        Error::ApiRunTaskFailed { function }
    } else if code == code::OUT_OF_MEMORY {
        Error::ApiOutOfMemory { function }
    } else if code == code::TIMEOUT {
        Error::ApiTimeout { function }
    } else if code == code::INPUT_INVALID {
        Error::ApiInputInvalid { function }
    } else if code == code::OUTPUT_INVALID {
        Error::ApiOutputInvalid { function }
    } else if code == code::DEVICE_UNAVAILABLE {
        Error::ApiDeviceUnavailable { function }
    } else if code == code::DEVICE_UNMATCH {
        Error::ApiDeviceUnmatch { function }
    } else if code == code::TARGET_PLATFORM_UNMATCH {
        Error::ApiTargetPlatformUnmatch { function }
    } else if code == code::COMMUNICATION {
        Error::ApiCommunication { function }
    } else if code == code::MEM_SYNC_FAILED {
        Error::ApiMemSyncFailed { function }
    } else {
        Error::ApiUnknown { function, code }
    }
}

/// What a call of `function` that returned `code` comes to.
pub open spec fn check_result(function: &'static str, code: i32) -> Result<(), Error> {
    if code == 0 {
        Ok(())
    } else {
        Err(error_for_code(function, code))
    }
}

impl Error {
    /// The message of this error.
    pub open spec fn text(&self) -> Seq<char> {
        match self {
            Error::ApiFail { function } => function@ + ": execution failed (RKNN3_ERR_FAIL)"@,
            Error::ApiArgumentInvalid { function } => function@
                + ": invalid argument (RKNN3_ERR_ARGUMENT_INVALID)"@,
            Error::ApiModelInvalid { function } => function@
                + ": invalid model (RKNN3_ERR_MODEL_INVALID)"@,
            Error::ApiCtxInvalid { function } => function@
                + ": invalid context (RKNN3_ERR_CTX_INVALID)"@,
            Error::ApiRunTaskFailed { function } => function@
                + ": task run failed (RKNN3_ERR_RUN_TASK_FAILED)"@,
            Error::ApiOutOfMemory { function } => function@
                + ": out of memory (RKNN3_ERR_OUT_OF_MEMORY)"@,
            Error::ApiTimeout { function } => function@
                + ": execution timed out (RKNN3_ERR_TIMEOUT)"@,
            Error::ApiInputInvalid { function } => function@
                + ": invalid input (RKNN3_ERR_INPUT_INVALID)"@,
            Error::ApiOutputInvalid { function } => function@
                + ": invalid output (RKNN3_ERR_OUTPUT_INVALID)"@,
            Error::ApiDeviceUnavailable { function } => function@
                + ": NPU device unavailable (RKNN3_ERR_DEVICE_UNAVAILABLE)"@,
            Error::ApiDeviceUnmatch { function } => function@
                + ": device mismatch (RKNN3_ERR_DEVICE_UNMATCH)"@,
            Error::ApiTargetPlatformUnmatch { function } => function@
                + ": target platform mismatch (RKNN3_ERR_TARGET_PLATFORM_UNMATCH)"@,
            Error::ApiCommunication { function } => function@
                + ": communication error (RKNN3_ERR_COMMUNICATION)"@,
            Error::ApiMemSyncFailed { function } => function@
                + ": memory sync failed (RKNN3_ERR_MEM_SYNC_FAILED)"@,
            Error::ApiUnknown { function, code } => function@
                + ": unknown RKNN3 error (code: "@ + int_decimal(*code as int) + ")"@,
            Error::NulByte { context } => context@ + " contains a null byte"@,
            Error::NullHandle { context } => "context handle is null: "@ + context@,
            Error::InvalidConfig { field, reason } => "invalid config: "@ + field@ + " \u{2014} "@
                + reason@,
        }
    }

    /// A string handed to the runtime as `context` held a NUL byte.
    pub fn nul_byte(context: &'static str) -> (e: Self)
        ensures
            e == (Error::NulByte { context }),
    {
        Error::NulByte { context }
    }

    /// The runtime handed back a null handle from `context`.
    pub fn null_handle(context: &'static str) -> (e: Self)
        ensures
            e == (Error::NullHandle { context }),
    {
        Error::NullHandle { context }
    }

    /// The configuration value `field` was refused for `reason`.
    pub fn invalid_config(field: &'static str, reason: &str) -> (e: Self)
        ensures
            e matches Error::InvalidConfig { field: f, reason: r } && f == field && r@ == reason@,
    {
        Error::InvalidConfig { field, reason: String::from_str(reason) }
    }

    /// `Ok` when `function` returned the success code 0, else the error its
    /// code stands for.
    pub fn check(function: &'static str, code: i32) -> (r: Result<(), Self>)
        ensures
            r == check_result(function, code),
    {
        if code == 0 {
            Ok(())
        } else {
            Err(Self::from_code(function, code))
        }
    }

    /// The error that status `code` of `function` stands for.
    pub fn from_code(function: &'static str, code: i32) -> (e: Self)
        ensures
            e == error_for_code(function, code),
    {
        match code {
            code::FAIL => Error::ApiFail { function },
            code::ARGUMENT_INVALID => Error::ApiArgumentInvalid { function },
            code::MODEL_INVALID => Error::ApiModelInvalid { function },
            code::CTX_INVALID => Error::ApiCtxInvalid { function },
            code::RUN_TASK_FAILED => Error::ApiRunTaskFailed { function },
            code::OUT_OF_MEMORY => Error::ApiOutOfMemory { function },
            code::TIMEOUT => Error::ApiTimeout { function },
            code::INPUT_INVALID => Error::ApiInputInvalid { function },
            code::OUTPUT_INVALID => Error::ApiOutputInvalid { function },
            code::DEVICE_UNAVAILABLE => Error::ApiDeviceUnavailable { function },
            code::DEVICE_UNMATCH => Error::ApiDeviceUnmatch { function },
            code::TARGET_PLATFORM_UNMATCH => Error::ApiTargetPlatformUnmatch { function },
            code::COMMUNICATION => Error::ApiCommunication { function },
            code::MEM_SYNC_FAILED => Error::ApiMemSyncFailed { function },
            _ => Error::ApiUnknown { function, code },
        }
    }

    /// The message of this error.
    pub fn message(&self) -> (s: String)
        ensures
            s@ == self.text(),
    {
        match self {
            Error::ApiFail { function } => concat2(function, ": execution failed (RKNN3_ERR_FAIL)"),
            Error::ApiArgumentInvalid { function } => concat2(
                function,
                ": invalid argument (RKNN3_ERR_ARGUMENT_INVALID)",
            ),
            Error::ApiModelInvalid { function } => concat2(
                function,
                ": invalid model (RKNN3_ERR_MODEL_INVALID)",
            ),
            Error::ApiCtxInvalid { function } => concat2(
                function,
                ": invalid context (RKNN3_ERR_CTX_INVALID)",
            ),
            Error::ApiRunTaskFailed { function } => concat2(
                function,
                ": task run failed (RKNN3_ERR_RUN_TASK_FAILED)",
            ),
            Error::ApiOutOfMemory { function } => concat2(
                function,
                ": out of memory (RKNN3_ERR_OUT_OF_MEMORY)",
            ),
            Error::ApiTimeout { function } => concat2(
                function,
                ": execution timed out (RKNN3_ERR_TIMEOUT)",
            ),
            Error::ApiInputInvalid { function } => concat2(
                function,
                ": invalid input (RKNN3_ERR_INPUT_INVALID)",
            ),
            Error::ApiOutputInvalid { function } => concat2(
                function,
                ": invalid output (RKNN3_ERR_OUTPUT_INVALID)",
            ),
            Error::ApiDeviceUnavailable { function } => concat2(
                function,
                ": NPU device unavailable (RKNN3_ERR_DEVICE_UNAVAILABLE)",
            ),
            Error::ApiDeviceUnmatch { function } => concat2(
                function,
                ": device mismatch (RKNN3_ERR_DEVICE_UNMATCH)",
            ),
            Error::ApiTargetPlatformUnmatch { function } => concat2(
                function,
                ": target platform mismatch (RKNN3_ERR_TARGET_PLATFORM_UNMATCH)",
            ),
            Error::ApiCommunication { function } => concat2(
                function,
                ": communication error (RKNN3_ERR_COMMUNICATION)",
            ),
            Error::ApiMemSyncFailed { function } => concat2(
                function,
                ": memory sync failed (RKNN3_ERR_MEM_SYNC_FAILED)",
            ),
            Error::ApiUnknown { function, code } => {
                let mut s = concat2(function, ": unknown RKNN3 error (code: ");
                push_i64(&mut s, *code as i64);
                s.append(")");
                s
            },
            Error::NulByte { context } => concat2(context, " contains a null byte"),
            Error::NullHandle { context } => concat2("context handle is null: ", context),
            Error::InvalidConfig { field, reason } => {
                let mut s = concat3("invalid config: ", field, " \u{2014} ");
                s.append(reason.as_str());
                s
            },
        }
    }
}

/// A call is accepted exactly when its status code is 0.
pub proof fn lemma_check_ok_iff_success(function: &'static str, code: i32)
    ensures
        check_result(function, code) is Ok <==> code == code::SUCCESS,
{
}

/// The runtime's fourteen documented error codes each have a variant of their
/// own; every other nonzero code is kept, as it came, in `ApiUnknown`.
pub proof fn lemma_codes_classified(function: &'static str, code: i32)
    requires
        code != 0,
    ensures
        (error_for_code(function, code) is ApiUnknown) <==> !(code::MEM_SYNC_FAILED <= code
            <= code::FAIL),
        error_for_code(function, code) matches Error::ApiUnknown { function: f, code: c } ==> f
            == function && c == code,
{
}

/// Distinct nonzero status codes give distinct errors: no two codes are
/// reported as the same failure.
pub proof fn lemma_codes_distinct(function: &'static str, c1: i32, c2: i32)
    requires
        c1 != 0,
        c2 != 0,
        c1 != c2,
    ensures
        error_for_code(function, c1) != error_for_code(function, c2),
{
}

/// The runtime's documented status codes, from -1 to -14, and the failure
/// each one reports.
pub proof fn lemma_code_table(function: &'static str)
    ensures
        error_for_code(function, -1i32) == (Error::ApiFail { function }),
        error_for_code(function, -2i32) == (Error::ApiArgumentInvalid { function }),
        error_for_code(function, -3i32) == (Error::ApiModelInvalid { function }),
        error_for_code(function, -4i32) == (Error::ApiCtxInvalid { function }),
        error_for_code(function, -5i32) == (Error::ApiRunTaskFailed { function }),
        error_for_code(function, -6i32) == (Error::ApiOutOfMemory { function }),
        error_for_code(function, -7i32) == (Error::ApiTimeout { function }),
        error_for_code(function, -8i32) == (Error::ApiInputInvalid { function }),
        error_for_code(function, -9i32) == (Error::ApiOutputInvalid { function }),
        error_for_code(function, -10i32) == (Error::ApiDeviceUnavailable { function }),
        error_for_code(function, -11i32) == (Error::ApiDeviceUnmatch { function }),
        error_for_code(function, -12i32) == (Error::ApiTargetPlatformUnmatch { function }),
        error_for_code(function, -13i32) == (Error::ApiCommunication { function }),
        error_for_code(function, -14i32) == (Error::ApiMemSyncFailed { function }),
{
}

/// The message of every error built from a status code begins with the name
/// of the runtime function that returned it.
pub proof fn lemma_message_names_function(function: &'static str, code: i32)
    requires
        code != 0,
    ensures
        error_for_code(function, code).text().len() >= function@.len(),
        error_for_code(function, code).text().subrange(0, function@.len() as int) == function@,
{
    let t = error_for_code(function, code).text();
    assert(t.subrange(0, function@.len() as int) =~= function@);
}

} // verus!
