//! The logical device a command buffer records against.

use vstd::prelude::*;

verus! {

/// Identity token of a logical device.
///
/// Resources created against the same logical device carry equal tokens, and
/// comparing tokens is the sole authority on device affinity: the validity
/// checks never inspect a device beyond its identity.
#[derive(Clone, Copy, Debug, PartialEq, Eq, Structural)]
pub struct DeviceIdentity {
    pub token: u64,
}

impl DeviceIdentity {
    pub fn new(token: u64) -> (r: DeviceIdentity)
        ensures
            r == (DeviceIdentity { token }),
    {
        DeviceIdentity { token }
    }
}

/// A logical device context, reduced to what the validity checks read of it:
/// its identity.
#[derive(Clone, Copy, Debug)]
pub struct Device {
    identity: DeviceIdentity,
}

impl Device {
    /// The identity this device context was created with.
    pub closed spec fn spec_identity(self) -> DeviceIdentity {
        self.identity
    }

    pub fn new(identity: DeviceIdentity) -> (d: Device)
        ensures
            d.spec_identity() == identity,
    {
        Device { identity }
    }

    pub fn device_identity(&self) -> (r: DeviceIdentity)
        ensures
            r == self.spec_identity(),
    {
        self.identity
    }
}

} // verus!
