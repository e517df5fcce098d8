//! The failures that the device layer reports.

use vstd::prelude::*;

verus! {

/// Why an operation on the device did not complete.
///
/// Nothing is retried: whichever failure comes first is handed to the caller as it is.
#[derive(Clone, Copy, Debug, PartialEq, Eq, Structural)]
pub enum Error {
    /// The packet has no first byte, hence no IP version.
    ZeroLength,
    /// The IP version of the packet, which is neither 4 nor 6.
    IpVersion(u8),
    /// The descriptor moved this many bytes, fewer than the packet-information header holds.
    ShortTransfer(usize),
    /// The descriptor claims to have stored this many bytes, more than it was given room for.
    Overrun(usize),
    /// The operating system refused the call, with this error number.
    Os(i32),
}

} // verus!
