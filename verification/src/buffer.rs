//! Byte-addressable buffer resources, seen through the capability contract the
//! validity checks need: device affinity, byte length, usage capabilities, and
//! a conflict predicate against another resource's byte range.

use vstd::prelude::*;

use crate::device::DeviceIdentity;

verus! {

/// A usage capability a buffer was declared with at creation, gating which
/// operations may legally reference it.
#[derive(Clone, Copy, Debug, PartialEq, Eq, Structural)]
pub enum UsageFlag {
    /// The buffer may be read as the source of a transfer operation.
    TransferSource,
    /// The buffer may be written as the destination of a transfer operation.
    TransferDestination,
}

/// Mathematical model of a buffer view: everything the validity checks read
/// of a resource.
///
/// A view may cover a sub-range of a larger allocation, and two distinct
/// views may be backed by the same allocation; `allocation` and
/// `allocation_offset` record the physical backing so that aliasing between
/// views is decidable.
pub struct BufferModel {
    /// Identity of the logical device the buffer was created against.
    pub device_identity: DeviceIdentity,
    /// Token identifying the underlying allocation backing this view.
    pub allocation: u64,
    /// First byte of this view within the underlying allocation.
    pub allocation_offset: u64,
    /// Length of this view in bytes.
    pub size: u64,
    /// Whether the buffer carries the transfer-source usage capability.
    pub transfer_source: bool,
    /// Whether the buffer carries the transfer-destination usage capability.
    pub transfer_destination: bool,
}

impl BufferModel {
    /// Membership of `flag` in the set of usage capabilities the buffer was
    /// created with.
    pub open spec fn has_usage(self, flag: UsageFlag) -> bool {
        match flag {
            UsageFlag::TransferSource => self.transfer_source,
            UsageFlag::TransferDestination => self.transfer_destination,
        }
    }
}

/// Capability contract of any byte-addressable resource a transfer operation
/// may reference.  The validators are written once against this interface,
/// not once per concrete resource type.
///
/// Every method is specified against the single mathematical model of the
/// resource, so that what one method reports (say, the byte length) agrees
/// with what another (say, the backing allocation) implies; the conflict
/// predicate over two such resources is derived from the same model by the
/// range conflict detector, which makes it symmetric by construction.
pub trait BufferAccess {
    /// The mathematical model of this resource view.
    spec fn model(&self) -> BufferModel;

    /// Identity of the logical device the resource was created against.
    fn device_identity(&self) -> (r: DeviceIdentity)
        ensures
            r == self.model().device_identity,
    ;

    /// Length of this view in bytes.
    fn size(&self) -> (r: u64)
        ensures
            r == self.model().size,
    ;

    /// Whether the resource was created with the given usage capability.
    fn has_usage(&self, flag: UsageFlag) -> (r: bool)
        ensures
            r == self.model().has_usage(flag),
    ;

    /// Token of the underlying allocation backing this view.  Two views
    /// reporting the same token share physical memory.
    fn backing_allocation(&self) -> (r: u64)
        ensures
            r == self.model().allocation,
    ;

    /// First byte of this view within its underlying allocation.
    fn backing_offset(&self) -> (r: u64)
        ensures
            r == self.model().allocation_offset,
    ;
}

/// A concrete buffer view: a (possibly partial) window onto an allocation,
/// together with the device affinity and usage capabilities of the buffer it
/// was taken from.
#[derive(Clone, Copy, Debug)]
pub struct BufferView {
    device_identity: DeviceIdentity,
    allocation: u64,
    allocation_offset: u64,
    size: u64,
    transfer_source: bool,
    transfer_destination: bool,
}

impl BufferView {
    pub fn new(
        device_identity: DeviceIdentity,
        allocation: u64,
        allocation_offset: u64,
        size: u64,
        transfer_source: bool,
        transfer_destination: bool,
    ) -> (b: BufferView)
        ensures
            b.model() == (BufferModel {
                device_identity,
                allocation,
                allocation_offset,
                size,
                transfer_source,
                transfer_destination,
            }),
    {
        BufferView {
            device_identity,
            allocation,
            allocation_offset,
            size,
            transfer_source,
            transfer_destination,
        }
    }
}

impl BufferAccess for BufferView {
    closed spec fn model(&self) -> BufferModel {
        BufferModel {
            device_identity: self.device_identity,
            allocation: self.allocation,
            allocation_offset: self.allocation_offset,
            size: self.size,
            transfer_source: self.transfer_source,
            transfer_destination: self.transfer_destination,
        }
    }

    fn device_identity(&self) -> (r: DeviceIdentity) {
        self.device_identity
    }

    fn size(&self) -> (r: u64) {
        self.size
    }

    fn has_usage(&self, flag: UsageFlag) -> (r: bool) {
        match flag {
            UsageFlag::TransferSource => self.transfer_source,
            UsageFlag::TransferDestination => self.transfer_destination,
        }
    }

    fn backing_allocation(&self) -> (r: u64) {
        self.allocation
    }

    fn backing_offset(&self) -> (r: u64) {
        self.allocation_offset
    }
}

} // verus!
