//! Preparing and interpreting the stateless detach call.
//!
//! Unmounting takes one string — a mount point path or, where the platform
//! supports it, a file-system ID encoded as `FSID:val0:val1` under the
//! by-fsid flag — and a flag mask.  No builder, no accumulated entries, and
//! no diagnostic side channel: the outcome is the return value and the
//! thread's error code alone.

use vstd::prelude::*;
use crate::flags::MntFlags;
use crate::options::is_cstr_bytes;
use crate::options::nul_free;
use crate::options::to_owned_cstr;

verus! {

/// The operating system's invalid-argument error code, returned when a
/// target string cannot be null-terminated.
pub const EINVAL: i32 = 22;

/// One prepared detach request: the null-terminated target string and the
/// flag bits to issue the call with.
#[derive(Debug)]
pub struct UnmountRequest {
    /// The null-terminated path — or fsid encoding — naming the file
    /// system to detach.
    pub target: Vec<u8>,
    /// The flag bits the call is issued with.
    pub flags: MntFlags,
}

/// Prepare a detach call for the given target and flags.  Exactly the
/// targets that hold an interior null byte are rejected, with the
/// invalid-argument code; any other target is copied, null-terminated, and
/// paired with the flags — and no other behavior modifiers — unchanged.
pub fn unmount_request(target: &[u8], flags: MntFlags) -> (r: Result<UnmountRequest, i32>)
    ensures
        r is Ok <==> nul_free(target@),
        r is Ok ==> r->Ok_0.target@ == target@.push(0u8)
            && is_cstr_bytes(r->Ok_0.target@)
            && r->Ok_0.flags == flags,
        r is Err ==> r->Err_0 == EINVAL,
{
    let n = target.len();
    let mut i: usize = 0;
    while i < n && target[i] != 0
        invariant
            0 <= i <= n,
            n == target@.len(),
            forall|j: int| 0 <= j < i ==> target@[j] != 0,
        decreases n - i,
    {
        i = i + 1;
    }
    if i < n {
        return Err(EINVAL);
    }
    Ok(UnmountRequest { target: to_owned_cstr(target), flags })
}

/// Interpret the detach call's outcome: a non-negative return is success,
/// a negative one carries the calling thread's error code.  This call has
/// no diagnostic text field at all.
pub fn unmount_outcome(ret: i32, errno_code: i32) -> (r: Result<(), i32>)
    ensures
        ret >= 0 ==> r == Ok::<(), i32>(()),
        ret < 0 ==> r == Err::<(), i32>(errno_code),
{
    if ret >= 0 {
        Ok(())
    } else {
        Err(errno_code)
    }
}

} // verus!
