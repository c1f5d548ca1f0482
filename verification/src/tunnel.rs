//! Platform defaults for the tunnel device.

use vstd::prelude::*;

verus! {

/// What this platform asks of a tunnel device.
#[derive(Debug, Clone, Copy, PartialEq, Eq, Structural)]
pub struct TunDefaults {
    /// Whether every packet read from or written to the device carries its
    /// framing header.
    pub packet_information: bool,
}

/// The tunnel defaults on Linux: packets carry their framing header.
pub fn new_tun_config() -> (config: TunDefaults)
    ensures
        config.packet_information,
{
    TunDefaults { packet_information: true }
}

} // verus!
