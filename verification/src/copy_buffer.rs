//! Validity of a buffer-to-buffer copy command.

use vstd::prelude::*;

use crate::buffer::BufferAccess;
use crate::buffer::BufferModel;
use crate::buffer::UsageFlag;
use crate::device::Device;
use crate::ranges::conflicts_buffer;
use crate::ranges::lemma_conflicts_symmetric;
use crate::ranges::spec_conflicts;

verus! {

/// Error that can happen from `check_copy_buffer`.
///
/// The set is closed: every way a copy command can be rejected is one of
/// these members, so callers can handle the taxonomy exhaustively.  Device
/// affinity is deliberately absent: a resource recorded against the wrong
/// device is a programming error at the call site, excluded by precondition
/// rather than reported.
#[derive(Debug, Copy, Clone, PartialEq, Eq, Structural)]
pub enum CheckCopyBufferError {
    /// The source buffer is missing the transfer source usage.
    SourceMissingTransferUsage,
    /// The destination buffer is missing the transfer destination usage.
    DestinationMissingTransferUsage,
    /// The source and destination are overlapping.
    OverlappingRanges,
}

impl CheckCopyBufferError {
    /// The diagnostic text `description` returns for this rejection reason.
    pub open spec fn spec_description(self) -> Seq<char> {
        match self {
            CheckCopyBufferError::SourceMissingTransferUsage => {
                "the source buffer is missing the transfer source usage"@
            },
            CheckCopyBufferError::DestinationMissingTransferUsage => {
                "the destination buffer is missing the transfer destination usage"@
            },
            CheckCopyBufferError::OverlappingRanges => {
                "the source and destination are overlapping"@
            },
        }
    }

    /// A fixed human-readable description of this rejection reason.
    pub fn description(&self) -> (r: &'static str)
        ensures
            r@ == self.spec_description(),
    {
        match *self {
            CheckCopyBufferError::SourceMissingTransferUsage => {
                "the source buffer is missing the transfer source usage"
            },
            CheckCopyBufferError::DestinationMissingTransferUsage => {
                "the destination buffer is missing the transfer destination usage"
            },
            CheckCopyBufferError::OverlappingRanges => {
                "the source and destination are overlapping"
            },
        }
    }
}

/// The number of bytes a copy of `source` into `destination` transfers: the
/// minimum of the two view sizes, never the larger.
pub open spec fn transfer_size(source: BufferModel, destination: BufferModel) -> u64 {
    if source.size <= destination.size {
        source.size
    } else {
        destination.size
    }
}

/// The outcome `check_copy_buffer` returns for the given source and
/// destination views.  The checks run in order and the first failure wins:
/// source usage, then destination usage, then the overlap of the two copied
/// ranges `[0, transfer_size)`.
pub open spec fn spec_check_copy_buffer(
    source: BufferModel,
    destination: BufferModel,
) -> Result<(), CheckCopyBufferError> {
    if !source.has_usage(UsageFlag::TransferSource) {
        Err(CheckCopyBufferError::SourceMissingTransferUsage)
    } else if !destination.has_usage(UsageFlag::TransferDestination) {
        Err(CheckCopyBufferError::DestinationMissingTransferUsage)
    } else if spec_conflicts(
        source,
        0,
        transfer_size(source, destination) as int,
        destination,
        0,
        transfer_size(source, destination) as int,
    ) {
        Err(CheckCopyBufferError::OverlappingRanges)
    } else {
        Ok(())
    }
}

/// Checks whether a copy buffer command is valid: on `Ok(())` the caller may
/// encode a copy of exactly `transfer_size(source, destination)` bytes from
/// offset 0 of `source` to offset 0 of `destination`.
///
/// The outcome is a pure function of the two resource models, so repeated
/// calls on fixed inputs return the same result.  Both resources must have
/// been created against `device`; a mismatch is a programming error at the
/// call site and is excluded by precondition instead of being reported as an
/// error.
pub fn check_copy_buffer<S: BufferAccess, D: BufferAccess>(
    device: &Device,
    source: &S,
    destination: &D,
) -> (r: Result<(), CheckCopyBufferError>)
    requires
        source.model().device_identity == device.spec_identity(),
        destination.model().device_identity == device.spec_identity(),
    ensures
        r == spec_check_copy_buffer(source.model(), destination.model()),
{
    if !source.has_usage(UsageFlag::TransferSource) {
        return Err(CheckCopyBufferError::SourceMissingTransferUsage);
    }
    if !destination.has_usage(UsageFlag::TransferDestination) {
        return Err(CheckCopyBufferError::DestinationMissingTransferUsage);
    }
    let source_size: u64 = source.size();
    let destination_size: u64 = destination.size();
    let size: u64 = if source_size <= destination_size {
        source_size
    } else {
        destination_size
    };
    if conflicts_buffer(source, 0, size, destination, 0, size) {
        return Err(CheckCopyBufferError::OverlappingRanges);
    }
    proof {
        lemma_conflicts_symmetric(
            source.model(),
            0,
            size as int,
            destination.model(),
            0,
            size as int,
        );
    }
    // Consistency invariant of a passed check: the detector would also report
    // no conflict in the reverse direction.
    assert(!spec_conflicts(
        destination.model(),
        0,
        size as int,
        source.model(),
        0,
        size as int,
    ));
    Ok(())
}

/// Law: usage checks are evaluated before the overlap check.  A source
/// without the transfer-source usage is reported as
/// `SourceMissingTransferUsage`, whatever else is wrong with the pair —
/// including a destination that is also missing its usage, or ranges that
/// also overlap.
pub proof fn lemma_source_usage_checked_first(source: BufferModel, destination: BufferModel)
    requires
        !source.has_usage(UsageFlag::TransferSource),
    ensures
        spec_check_copy_buffer(source, destination) == Err::<(), CheckCopyBufferError>(
            CheckCopyBufferError::SourceMissingTransferUsage,
        ),
{
}

/// Law: the destination usage check is evaluated before the overlap check.
/// With a capable source, a destination without the transfer-destination
/// usage is reported as `DestinationMissingTransferUsage` even when the
/// ranges also overlap.
pub proof fn lemma_destination_usage_checked_before_overlap(
    source: BufferModel,
    destination: BufferModel,
)
    requires
        source.has_usage(UsageFlag::TransferSource),
        !destination.has_usage(UsageFlag::TransferDestination),
    ensures
        spec_check_copy_buffer(source, destination) == Err::<(), CheckCopyBufferError>(
            CheckCopyBufferError::DestinationMissingTransferUsage,
        ),
{
}

/// Law: the checked range length is the minimum of the two sizes.  It never
/// exceeds either view, and it is one of the two sizes.
pub proof fn lemma_transfer_size_is_min(source: BufferModel, destination: BufferModel)
    ensures
        transfer_size(source, destination) <= source.size,
        transfer_size(source, destination) <= destination.size,
        transfer_size(source, destination) == source.size || transfer_size(source, destination)
            == destination.size,
{
}

/// Law: a self-copy with a nonzero length is rejected as overlapping.
/// Copying a capable view onto itself copies `[0, size)` onto `[0, size)` of
/// the same backing, which conflicts whenever the view is not empty.
pub proof fn lemma_self_copy_rejected(source: BufferModel)
    requires
        source.has_usage(UsageFlag::TransferSource),
        source.has_usage(UsageFlag::TransferDestination),
        source.size > 0,
    ensures
        spec_check_copy_buffer(source, source) == Err::<(), CheckCopyBufferError>(
            CheckCopyBufferError::OverlappingRanges,
        ),
{
}

/// Law: two disjoint sub-views of the same allocation are accepted.  When
/// both views carry their required usage and one view ends in the allocation
/// before the other begins, the copy is valid.
pub proof fn lemma_disjoint_subviews_accepted(source: BufferModel, destination: BufferModel)
    requires
        source.has_usage(UsageFlag::TransferSource),
        destination.has_usage(UsageFlag::TransferDestination),
        source.allocation == destination.allocation,
        source.allocation_offset + source.size <= destination.allocation_offset
            || destination.allocation_offset + destination.size <= source.allocation_offset,
    ensures
        spec_check_copy_buffer(source, destination) == Ok::<(), CheckCopyBufferError>(()),
{
}

/// Law: views backed by distinct allocations never conflict, so a copy
/// between them is accepted whenever both carry their required usage.
pub proof fn lemma_distinct_allocations_accepted(source: BufferModel, destination: BufferModel)
    requires
        source.has_usage(UsageFlag::TransferSource),
        destination.has_usage(UsageFlag::TransferDestination),
        source.allocation != destination.allocation,
    ensures
        spec_check_copy_buffer(source, destination) == Ok::<(), CheckCopyBufferError>(()),
{
}

/// Law: an empty source or destination makes the computed length zero, and a
/// zero-length copy succeeds — there is nothing to overlap — given correct
/// usage flags.
pub proof fn lemma_zero_size_accepted(source: BufferModel, destination: BufferModel)
    requires
        source.has_usage(UsageFlag::TransferSource),
        destination.has_usage(UsageFlag::TransferDestination),
        source.size == 0 || destination.size == 0,
    ensures
        transfer_size(source, destination) == 0,
        spec_check_copy_buffer(source, destination) == Ok::<(), CheckCopyBufferError>(()),
{
}

} // verus!
