//! The arithmetic of a compute dispatch over a buffer of 32-bit numbers:
//! how many bytes the buffer takes and how many workgroups cover it.

use vstd::prelude::*;

verus! {

/// The number of elements that one workgroup handles.
pub const WORKGROUP_SIZE: u32 = 64;

/// The size of one element in bytes.
pub const ELEMENT_BYTES: u64 = 4;

/// The sizes of one dispatch.
#[derive(Clone, Copy, Debug, PartialEq, Eq, Structural)]
pub struct DispatchPlan {
    /// The size of each buffer in bytes.
    pub bytes: u64,
    /// The number of workgroups to dispatch.
    pub workgroups: u32,
}

/// The least number of workgroups that cover a number of elements.
pub open spec fn workgroups_covering(elements: nat) -> nat {
    (elements + WORKGROUP_SIZE - 1) as nat / WORKGROUP_SIZE as nat
}

/// Plans the dispatch over a number of elements: the bytes of a buffer that
/// holds them and the least number of workgroups that cover them. There is
/// no plan where either number is out of range.
pub fn plan_dispatch(elements: usize) -> (plan: Option<DispatchPlan>)
    ensures
        match plan {
            Some(p) => p.bytes == ELEMENT_BYTES * elements && p.workgroups == workgroups_covering(
                elements as nat,
            ),
            None => ELEMENT_BYTES * elements > u64::MAX || workgroups_covering(elements as nat)
                > u32::MAX,
        },
{
    let count: u64 = elements as u64;
    let bytes: u64 = match ELEMENT_BYTES.checked_mul(count) {
        Some(bytes) => bytes,
        None => {
            return None;
        },
    };
    let size: u64 = WORKGROUP_SIZE as u64;
    let full: u64 = count / size;
    let rest: u64 = count % size;
    let workgroups: u64 = if rest == 0 {
        full
    } else {
        full + 1
    };
    assert(workgroups == workgroups_covering(elements as nat));
    if workgroups > u32::MAX as u64 {
        return None;
    }
    Some(DispatchPlan { bytes, workgroups: workgroups as u32 })
}

} // verus!
