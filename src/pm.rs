//! Process-management constants.

use vstd::prelude::*;

verus! {

/// A process identifier. The kernel assigns only non-negative ones.
pub type Pid = i32;

/// Special PID for a process to refer to itself.
pub const PID_SELF: Pid = -1;

/// No process the kernel can name has `PID_SELF` as its identifier.
pub proof fn lemma_pid_self_not_assignable(pid: Pid)
    requires
        pid >= 0,
    ensures
        PID_SELF != pid,
{
}

} // verus!
