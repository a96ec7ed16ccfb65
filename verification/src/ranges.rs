//! Range conflict detection: do two byte ranges, possibly taken through two
//! different views, denote intersecting physical memory?

use vstd::prelude::*;

use crate::buffer::BufferAccess;
use crate::buffer::BufferModel;

verus! {

/// Whether the half-open byte ranges `[a_start, a_start + a_len)` and
/// `[b_start, b_start + b_len)` intersect.  An empty range intersects nothing.
pub open spec fn ranges_overlap(a_start: int, a_len: int, b_start: int, b_len: int) -> bool {
    &&& a_len > 0
    &&& b_len > 0
    &&& a_start < b_start + b_len
    &&& b_start < a_start + a_len
}

/// Whether byte range `[a_offset, a_offset + a_len)` of view `a` and byte
/// range `[b_offset, b_offset + b_len)` of view `b` denote memory that could
/// be read and written in an order-dependent way within one operation.
///
/// Two views conflict exactly when they are backed by the same allocation and
/// their absolute byte ranges within that allocation overlap; a naive
/// comparison of the views themselves would miss distinct sub-views that share
/// physical backing.
pub open spec fn spec_conflicts(
    a: BufferModel,
    a_offset: int,
    a_len: int,
    b: BufferModel,
    b_offset: int,
    b_len: int,
) -> bool {
    &&& a.allocation == b.allocation
    &&& ranges_overlap(
        a.allocation_offset + a_offset,
        a_len,
        b.allocation_offset + b_offset,
        b_len,
    )
}

/// Whether byte range `[a_offset, a_offset + a_len)` of resource `a` and byte
/// range `[b_offset, b_offset + b_len)` of resource `b` denote overlapping
/// memory.
///
/// This is the single authoritative direction of the conflict predicate: both
/// orders of a resource pair go through the same decision, so the answer is
/// symmetric for every pair of resource types.
pub fn conflicts_buffer<A: BufferAccess, B: BufferAccess>(
    a: &A,
    a_offset: u64,
    a_len: u64,
    b: &B,
    b_offset: u64,
    b_len: u64,
) -> (r: bool)
    ensures
        r == spec_conflicts(
            a.model(),
            a_offset as int,
            a_len as int,
            b.model(),
            b_offset as int,
            b_len as int,
        ),
{
    if a.backing_allocation() != b.backing_allocation() {
        return false;
    }
    if a_len == 0 || b_len == 0 {
        return false;
    }
    // Absolute positions within the shared allocation; u128 keeps the sums of
    // u64 quantities exact.
    let a_start: u128 = a.backing_offset() as u128 + a_offset as u128;
    let b_start: u128 = b.backing_offset() as u128 + b_offset as u128;
    a_start < b_start + b_len as u128 && b_start < a_start + a_len as u128
}

/// Law: the conflict predicate is symmetric.  For all view pairs and ranges,
/// `a` conflicting with `b` and `b` conflicting with `a` are the same
/// judgment; the copy validator relies on this to guarantee that a passed
/// check holds in the reverse direction as well.
pub proof fn lemma_conflicts_symmetric(
    a: BufferModel,
    a_offset: int,
    a_len: int,
    b: BufferModel,
    b_offset: int,
    b_len: int,
)
    ensures
        spec_conflicts(a, a_offset, a_len, b, b_offset, b_len) == spec_conflicts(
            b,
            b_offset,
            b_len,
            a,
            a_offset,
            a_len,
        ),
{
}

} // verus!
