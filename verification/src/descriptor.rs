//! The operating-system side of a device: something that moves whole packets.

use crate::error::Error;
use vstd::prelude::*;

verus! {

/// An open descriptor of a TUN device.
///
/// What a read or a write of a descriptor may do is for each kind of descriptor to say, in
/// `reads` and `writes`; the framing layer states its own results in terms of these two and
/// relies on neither. A kind that says nothing admits anything.
pub trait Descriptor {
    /// What one read may do: given a buffer that holds `before`, leave `after` in it and
    /// give `r`.
    open spec fn reads(&self, before: Seq<u8>, after: Seq<u8>, r: Result<usize, Error>) -> bool {
        true
    }

    /// What one write may do: handed `packet`, give `r`.
    open spec fn writes(&self, packet: Seq<u8>, r: Result<usize, Error>) -> bool {
        true
    }

    /// Takes one packet from the device into `buf` and gives the number of bytes stored.
    /// A buffer is as long after the call as before it: a slice has no other way to be.
    fn read(&self, buf: &mut [u8]) -> (r: Result<usize, Error>)
        ensures
            self.reads(old(buf)@, final(buf)@, r),
            final(buf)@.len() == old(buf)@.len(),
    ;

    /// Hands `buf` to the device as one packet and gives the number of bytes it accepted.
    fn write(&self, buf: &[u8]) -> (r: Result<usize, Error>)
        ensures
            self.writes(buf@, r),
    ;

    /// Makes later reads and writes fail at once where they would have blocked.
    fn set_nonblock(&self) -> Result<(), Error>;
}

} // verus!
