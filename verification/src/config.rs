//! Configuration for the serial transport.
//!
//! Only the parameters live here; opening and configuring the port is
//! I/O and belongs to the unverified shell around the library.

use vstd::prelude::*;

verus! {

/// Parameters for opening the meter's serial port.
pub struct SerialConfig<'a> {
    /// Device path of the port.
    pub port_name: &'a str,
    /// Line speed in baud.
    pub baud_rate: u32,
    /// Read timeout; a blocking read returns after at most this long.
    pub timeout: core::time::Duration,
}

impl<'a> SerialConfig<'a> {
    /// Bundles the port parameters.
    pub fn new(port_name: &'a str, baud_rate: u32, timeout: core::time::Duration) -> (c: Self)
        ensures
            c.port_name@ == port_name@,
            c.baud_rate == baud_rate,
            c.timeout == timeout,
    {
        SerialConfig { port_name, baud_rate, timeout }
    }
}

} // verus!
