//! A TUN device seen from user space.
//!
//! A TUN device is a network interface whose packets are produced and consumed by a process
//! instead of hardware. This crate holds what is the same for every such device:
//!
//! - [`packet`]: telling IPv4 from IPv6, and the packet-information header that tags a packet
//!   with its protocol;
//! - [`split`]: the reader, the writer and the device that holds both, which share one
//!   descriptor and put the header on and take it off;
//! - [`descriptor`]: what the operating system's side of a device has to offer;
//! - [`configuration`] and [`device`]: the properties of an interface, and the order in which
//!   a device takes them.
//!
//! Nothing here blocks, retries or parses a packet beyond its first nibble.

pub mod configuration;
pub mod descriptor;
pub mod device;
pub mod error;
pub mod packet;
pub mod split;

pub use crate::configuration::{Configuration, IpAddress, Setting};
pub use crate::descriptor::Descriptor;
pub use crate::device::AbstractDevice;
pub use crate::error::Error;
pub use crate::packet::PACKET_INFORMATION_LENGTH;
pub use crate::split::{Reader, Tun, Writer};
