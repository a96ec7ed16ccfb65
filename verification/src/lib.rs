//! Validity checks for command-buffer transfer operations.
//!
//! Before a resource-transfer command (such as a buffer-to-buffer copy) is
//! recorded into a command buffer, these pure checks decide on the CPU whether
//! the operation is safe to encode: the participating resources must carry the
//! required usage capabilities, and the source and destination byte ranges must
//! not denote overlapping memory.  Device affinity (every resource created
//! against the device the command is recorded on) is a caller-enforced
//! precondition, not a reported error.

pub mod buffer;
pub mod copy_buffer;
pub mod device;
pub mod ranges;
