//! Status codes of the RKNN3 runtime API.

use vstd::prelude::*;

verus! {

/// The call succeeded.
pub const SUCCESS: i32 = 0;
pub const FAIL: i32 = -1;
pub const ARGUMENT_INVALID: i32 = -2;
pub const MODEL_INVALID: i32 = -3;
pub const CTX_INVALID: i32 = -4;
pub const RUN_TASK_FAILED: i32 = -5;
pub const OUT_OF_MEMORY: i32 = -6;
pub const TIMEOUT: i32 = -7;
pub const INPUT_INVALID: i32 = -8;
pub const OUTPUT_INVALID: i32 = -9;
pub const DEVICE_UNAVAILABLE: i32 = -10;
pub const DEVICE_UNMATCH: i32 = -11;
pub const TARGET_PLATFORM_UNMATCH: i32 = -12;
pub const COMMUNICATION: i32 = -13;
pub const MEM_SYNC_FAILED: i32 = -14;
/// A warning: not every NPU core was put to use.
pub const WARN_NPU_CORE_UNUSED: i32 = -100;

} // verus!
