//! Symbolic result codes shared with the device firmware. The top bit of a
//! code is the fail bit; a code is an error exactly when that bit is set.

use vstd::prelude::*;

verus! {

pub const SL_RESULT_OK: u32 = 0;
pub const SL_RESULT_FAIL_BIT: u32 = 0x80000000;
pub const SL_RESULT_ALREADY_DONE: u32 = 0x20;
pub const SL_RESULT_INVALID_DATA: u32 = 0x8000 | SL_RESULT_FAIL_BIT;
pub const SL_RESULT_OPERATION_FAIL: u32 = 0x8001 | SL_RESULT_FAIL_BIT;
pub const SL_RESULT_OPERATION_TIMEOUT: u32 = 0x8002 | SL_RESULT_FAIL_BIT;
pub const SL_RESULT_OPERATION_STOP: u32 = 0x8003 | SL_RESULT_FAIL_BIT;
pub const SL_RESULT_OPERATION_NOT_SUPPORT: u32 = 0x8004 | SL_RESULT_FAIL_BIT;
pub const SL_RESULT_FORMAT_NOT_SUPPORT: u32 = 0x8005 | SL_RESULT_FAIL_BIT;
pub const SL_RESULT_INSUFFICIENT_MEMORY: u32 = 0x8006 | SL_RESULT_FAIL_BIT;

/// A result code reports success exactly when its fail bit is clear.
pub fn sl_is_ok(x: u32) -> (r: bool)
    ensures
        r == (x & SL_RESULT_FAIL_BIT == 0),
{
    (x & SL_RESULT_FAIL_BIT) == 0
}

/// A result code reports an error exactly when its fail bit is set.
pub fn sl_is_err(x: u32) -> (r: bool)
    ensures
        r == (x & SL_RESULT_FAIL_BIT != 0),
{
    (x & SL_RESULT_FAIL_BIT) != 0
}

} // verus!
