//! Packet framing: which IP version a packet carries, and the packet-information header that
//! tells the kernel driver so.
//!
//! With packet information switched on, every packet crosses the descriptor as
//! `[4-byte big-endian protocol tag][raw IP packet]`. The tag is the EtherType of the packet's
//! protocol, as the Linux TUN driver expects it.

use crate::error::Error;
use vstd::prelude::*;

verus! {

/// Number of bytes in the packet-information header.
pub const PACKET_INFORMATION_LENGTH: usize = 4;

/// EtherType of IPv4.
pub const ETHERTYPE_IPV4: u32 = 0x0800;

/// EtherType of IPv6.
pub const ETHERTYPE_IPV6: u32 = 0x86DD;

/// The version field of an IP header: the high nibble of its first byte.
pub open spec fn ip_version(first: u8) -> u8 {
    first >> 4
}

/// What the first byte of `packet` says of its protocol: `Ok(false)` for IPv4, `Ok(true)` for
/// IPv6, and an error for an empty packet or any other version.
pub open spec fn sniffed(packet: Seq<u8>) -> Result<bool, Error> {
    if packet.len() == 0 {
        Err(Error::ZeroLength)
    } else if ip_version(packet[0]) == 4 {
        Ok(false)
    } else if ip_version(packet[0]) == 6 {
        Ok(true)
    } else {
        Err(Error::IpVersion(ip_version(packet[0])))
    }
}

/// The four bytes of `value`, most significant first.
pub open spec fn big_endian(value: u32) -> Seq<u8> {
    seq![
        ((value >> 24) & 0xff) as u8,
        ((value >> 16) & 0xff) as u8,
        ((value >> 8) & 0xff) as u8,
        (value & 0xff) as u8,
    ]
}

/// The protocol tag of a packet: the EtherType of its IP version, big-endian.
pub open spec fn protocol_tag(ipv6: bool) -> Seq<u8> {
    big_endian(
        if ipv6 {
            ETHERTYPE_IPV6
        } else {
            ETHERTYPE_IPV4
        },
    )
}

/// The header that goes before a packet: none without packet information, else the tag.
pub open spec fn header_for(enabled: bool, ipv6: bool) -> Option<Seq<u8>> {
    if enabled {
        Some(protocol_tag(ipv6))
    } else {
        None
    }
}

/// Number of header bytes in front of every packet of a device.
pub open spec fn header_length(enabled: bool) -> usize {
    if enabled {
        PACKET_INFORMATION_LENGTH
    } else {
        0
    }
}

/// What crosses the descriptor for `payload` with packet information on: tag, then payload.
/// A payload whose protocol cannot be told is not framed at all.
pub open spec fn framed(payload: Seq<u8>) -> Result<Seq<u8>, Error> {
    match sniffed(payload) {
        Ok(ipv6) => Ok(protocol_tag(ipv6) + payload),
        Err(e) => Err(e),
    }
}

/// The payload inside `amount` bytes that arrived behind a header of `offset` bytes.
pub open spec fn payload_of(raw: Seq<u8>, offset: int, amount: int) -> Seq<u8> {
    raw.subrange(offset, amount)
}

/// `libc::ETH_P_IP`: the constant is 0x0800, the EtherType of IPv4.
#[verifier::external_body]
fn eth_p_ip() -> (r: i32)
    ensures
        r == 0x0800,
{
    libc::ETH_P_IP
}

/// `libc::ETH_P_IPV6`: the constant is 0x86DD, the EtherType of IPv6.
#[verifier::external_body]
fn eth_p_ipv6() -> (r: i32)
    ensures
        r == 0x86DD,
{
    libc::ETH_P_IPV6
}

/// Infers the protocol from the version nibble at the start of the packet.
pub fn is_ipv6(buf: &[u8]) -> (r: Result<bool, Error>)
    ensures
        r == sniffed(buf@),
        buf@.len() > 0 && buf@[0] >> 4 == 4 ==> r == Ok::<bool, Error>(false),
        buf@.len() > 0 && buf@[0] >> 4 == 6 ==> r == Ok::<bool, Error>(true),
        buf@.len() == 0 || (buf@[0] >> 4 != 4 && buf@[0] >> 4 != 6) ==> r is Err,
{
    if buf.len() == 0 {
        return Err(Error::ZeroLength);
    }
    let version: u8 = buf[0] >> 4;
    if version == 4 {
        Ok(false)
    } else if version == 6 {
        Ok(true)
    } else {
        Err(Error::IpVersion(version))
    }
}

/// Splits `value` into its bytes, most significant first.
fn to_big_endian(value: u32) -> (r: [u8; 4])
    ensures
        r@ == big_endian(value),
{
    let b0: u32 = (value >> 24) & 0xff;
    let b1: u32 = (value >> 16) & 0xff;
    let b2: u32 = (value >> 8) & 0xff;
    let b3: u32 = value & 0xff;
    assert(b0 < 256 && b1 < 256 && b2 < 256 && b3 < 256) by (bit_vector)
        requires
            b0 == (value >> 24) & 0xff,
            b1 == (value >> 16) & 0xff,
            b2 == (value >> 8) & 0xff,
            b3 == value & 0xff,
    ;
    let r: [u8; 4] = [b0 as u8, b1 as u8, b2 as u8, b3 as u8];
    assert(r@ =~= big_endian(value));
    r
}

/// Builds the packet-information header for a packet of the given protocol, or nothing when
/// the device carries no packet information.
pub fn generate_packet_information(packet_information: bool, ipv6: bool) -> (r: Option<[u8; 4]>)
    ensures
        !packet_information ==> r is None,
        match r {
            Some(header) => header_for(packet_information, ipv6) == Some(header@),
            None => header_for(packet_information, ipv6) is None,
        },
{
    if packet_information {
        let ether_type: i32 = if ipv6 {
            eth_p_ipv6()
        } else {
            eth_p_ip()
        };
        Some(to_big_endian(ether_type as u32))
    } else {
        None
    }
}

/// The two protocol tags, byte by byte: four bytes each, and not the same.
pub proof fn lemma_protocol_tags()
    ensures
        protocol_tag(false) == seq![0x00u8, 0x00u8, 0x08u8, 0x00u8],
        protocol_tag(true) == seq![0x00u8, 0x00u8, 0x86u8, 0xDDu8],
        protocol_tag(false).len() == PACKET_INFORMATION_LENGTH,
        protocol_tag(true).len() == PACKET_INFORMATION_LENGTH,
        protocol_tag(false) != protocol_tag(true),
{
    assert((0x0800u32 >> 24) & 0xff == 0 && (0x0800u32 >> 16) & 0xff == 0 && (0x0800u32 >> 8)
        & 0xff == 8 && 0x0800u32 & 0xff == 0) by (bit_vector);
    assert((0x86DDu32 >> 24) & 0xff == 0 && (0x86DDu32 >> 16) & 0xff == 0 && (0x86DDu32 >> 8)
        & 0xff == 0x86 && 0x86DDu32 & 0xff == 0xDD) by (bit_vector);
    assert(protocol_tag(false) =~= seq![0x00u8, 0x00u8, 0x08u8, 0x00u8]);
    assert(protocol_tag(true) =~= seq![0x00u8, 0x00u8, 0x86u8, 0xDDu8]);
    assert(protocol_tag(false)[2] != protocol_tag(true)[2]);
}

} // verus!
