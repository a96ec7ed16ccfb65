use copy_validity::buffer::BufferAccess;
use copy_validity::buffer::BufferView;
use copy_validity::buffer::UsageFlag;
use copy_validity::copy_buffer::check_copy_buffer;
use copy_validity::copy_buffer::CheckCopyBufferError;
use copy_validity::device::Device;
use copy_validity::device::DeviceIdentity;
use copy_validity::ranges::conflicts_buffer;

fn device() -> Device {
    Device::new(DeviceIdentity::new(7))
}

fn view(
    allocation: u64,
    allocation_offset: u64,
    size: u64,
    transfer_source: bool,
    transfer_destination: bool,
) -> BufferView {
    BufferView::new(
        DeviceIdentity::new(7),
        allocation,
        allocation_offset,
        size,
        transfer_source,
        transfer_destination,
    )
}

#[test]
fn determinism_same_outcome_on_repeated_calls() {
    let dev = device();
    let src = view(1, 0, 40, true, false);
    let dst = view(1, 50, 50, false, true);
    let first = check_copy_buffer(&dev, &src, &dst);
    let second = check_copy_buffer(&dev, &src, &dst);
    assert_eq!(first, second);

    let overlapping = view(2, 0, 16, true, true);
    let first = check_copy_buffer(&dev, &overlapping, &overlapping);
    let second = check_copy_buffer(&dev, &overlapping, &overlapping);
    assert_eq!(first, second);
    assert_eq!(first, Err(CheckCopyBufferError::OverlappingRanges));
}

#[test]
fn conflict_is_symmetric() {
    let a = view(1, 0, 64, true, true);
    let b = view(1, 32, 64, true, true);
    assert_eq!(
        conflicts_buffer(&a, 0, 64, &b, 0, 64),
        conflicts_buffer(&b, 0, 64, &a, 0, 64)
    );
    assert!(conflicts_buffer(&a, 0, 64, &b, 0, 64));

    let c = view(1, 200, 64, true, true);
    assert_eq!(
        conflicts_buffer(&a, 0, 64, &c, 0, 64),
        conflicts_buffer(&c, 0, 64, &a, 0, 64)
    );
    assert!(!conflicts_buffer(&a, 0, 64, &c, 0, 64));
}

#[test]
fn zero_length_ranges_never_conflict() {
    let a = view(1, 0, 64, true, true);
    assert!(!conflicts_buffer(&a, 0, 0, &a, 0, 0));
    assert!(!conflicts_buffer(&a, 0, 0, &a, 0, 64));
    assert!(!conflicts_buffer(&a, 0, 64, &a, 0, 0));
}

#[test]
fn conflict_with_offsets_near_u64_max() {
    let a = view(1, u64::MAX - 8, 8, true, true);
    let b = view(1, u64::MAX - 4, 4, true, true);
    assert!(conflicts_buffer(&a, 0, 8, &b, 0, 4));
    assert!(!conflicts_buffer(&a, 0, 4, &b, 0, 4));
}

#[test]
fn source_usage_checked_before_overlap() {
    let dev = device();
    let src = view(1, 0, 40, false, true);
    let dst = view(1, 0, 40, false, true);
    assert_eq!(
        check_copy_buffer(&dev, &src, &dst),
        Err(CheckCopyBufferError::SourceMissingTransferUsage)
    );
}

#[test]
fn missing_capability_precedence() {
    let dev = device();
    // Identical backing, both capabilities missing: the first check wins.
    let src = view(1, 0, 40, false, false);
    let dst = view(1, 0, 40, false, false);
    assert_eq!(
        check_copy_buffer(&dev, &src, &dst),
        Err(CheckCopyBufferError::SourceMissingTransferUsage)
    );
}

#[test]
fn destination_usage_checked_before_overlap() {
    let dev = device();
    let src = view(1, 0, 40, true, false);
    let dst = view(1, 0, 40, true, false);
    assert_eq!(
        check_copy_buffer(&dev, &src, &dst),
        Err(CheckCopyBufferError::DestinationMissingTransferUsage)
    );
}

#[test]
fn self_copy_with_nonzero_length_rejected() {
    let dev = device();
    let buf = view(3, 16, 128, true, true);
    assert_eq!(
        check_copy_buffer(&dev, &buf, &buf),
        Err(CheckCopyBufferError::OverlappingRanges)
    );
}

#[test]
fn disjoint_subviews_of_one_allocation_accepted() {
    let dev = device();
    let src = view(9, 0, 40, true, false);
    let dst = view(9, 50, 50, false, true);
    assert_eq!(check_copy_buffer(&dev, &src, &dst), Ok(()));
    let reversed_roles = view(9, 50, 50, true, false);
    let lower = view(9, 0, 40, false, true);
    assert_eq!(check_copy_buffer(&dev, &reversed_roles, &lower), Ok(()));
}

#[test]
fn distinct_allocations_accepted() {
    let dev = device();
    let src = view(1, 0, 64, true, false);
    let dst = view(2, 0, 64, false, true);
    assert_eq!(check_copy_buffer(&dev, &src, &dst), Ok(()));
}

#[test]
fn checked_length_is_min_of_sizes() {
    let dev = device();
    // Ranges [0, 10) and [20, 30) of one allocation: only a length computed
    // as the larger size (100) would make these overlap.
    let src = view(5, 0, 10, true, false);
    let dst = view(5, 20, 100, false, true);
    assert_eq!(check_copy_buffer(&dev, &src, &dst), Ok(()));
    // Ranges [0, 30) and [20, 50): the minimum length 30 already overlaps.
    let src = view(5, 0, 30, true, false);
    assert_eq!(
        check_copy_buffer(&dev, &src, &dst),
        Err(CheckCopyBufferError::OverlappingRanges)
    );
}

#[test]
fn zero_size_source_or_destination_accepted() {
    let dev = device();
    let empty = view(4, 0, 0, true, true);
    let full = view(4, 0, 64, true, true);
    assert_eq!(check_copy_buffer(&dev, &empty, &full), Ok(()));
    assert_eq!(check_copy_buffer(&dev, &full, &empty), Ok(()));
    assert_eq!(check_copy_buffer(&dev, &empty, &empty), Ok(()));
}

#[test]
fn error_descriptions() {
    assert_eq!(
        CheckCopyBufferError::SourceMissingTransferUsage.description(),
        "the source buffer is missing the transfer source usage"
    );
    assert_eq!(
        CheckCopyBufferError::DestinationMissingTransferUsage.description(),
        "the destination buffer is missing the transfer destination usage"
    );
    assert_eq!(
        CheckCopyBufferError::OverlappingRanges.description(),
        "the source and destination are overlapping"
    );
}

#[test]
fn buffer_view_reports_its_attributes() {
    let id = DeviceIdentity::new(7);
    let buf = view(11, 32, 96, true, false);
    assert_eq!(buf.device_identity(), id);
    assert_eq!(buf.size(), 96);
    assert_eq!(buf.backing_allocation(), 11);
    assert_eq!(buf.backing_offset(), 32);
    assert!(buf.has_usage(UsageFlag::TransferSource));
    assert!(!buf.has_usage(UsageFlag::TransferDestination));
}

#[test]
fn device_reports_its_identity() {
    let id = DeviceIdentity::new(42);
    let dev = Device::new(id);
    assert_eq!(dev.device_identity(), id);
    assert_eq!(dev.device_identity().token, 42);
}
