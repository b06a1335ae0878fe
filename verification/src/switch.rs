//! What a switch into a coroutine hands back.

use vstd::prelude::*;

verus! {

/// The result of a switch into a coroutine, from the two registers it returns:
/// the value passed back, and the coroutine's stack pointer, which is 0 once
/// the coroutine has finished. The stack pointer is present exactly when the
/// coroutine can be resumed.
pub fn switch_and_link_result(ret_val: usize, ret_sp: usize) -> (r: (usize, Option<usize>))
    ensures
        r.0 == ret_val,
        r.1 == (if ret_sp == 0 {
            None
        } else {
            Some(ret_sp)
        }),
{
    if ret_sp == 0 {
        (ret_val, None)
    } else {
        (ret_val, Some(ret_sp))
    }
}

} // verus!
