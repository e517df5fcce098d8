use tun::error::Error;
use tun::packet::{generate_packet_information, is_ipv6, PACKET_INFORMATION_LENGTH};

#[test]
fn sniff_ipv4() {
    assert_eq!(is_ipv6(&[0x45, 0x00, 0x00, 0x14]), Ok(false));
    assert_eq!(is_ipv6(&[0x40]), Ok(false));
    assert_eq!(is_ipv6(&[0x4f, 0xff]), Ok(false));
}

#[test]
fn sniff_ipv6() {
    assert_eq!(is_ipv6(&[0x60, 0x00, 0x00, 0x00]), Ok(true));
    assert_eq!(is_ipv6(&[0x6f]), Ok(true));
}

#[test]
fn sniff_every_first_byte() {
    for first in 0..=255u8 {
        let expected = match first >> 4 {
            4 => Ok(false),
            6 => Ok(true),
            version => Err(Error::IpVersion(version)),
        };
        assert_eq!(is_ipv6(&[first, 0xaa, 0xbb]), expected);
    }
}

#[test]
fn sniff_empty_packet() {
    assert_eq!(is_ipv6(&[]), Err(Error::ZeroLength));
}

#[test]
fn sniff_other_versions() {
    assert_eq!(is_ipv6(&[0x00]), Err(Error::IpVersion(0)));
    assert_eq!(is_ipv6(&[0x54, 0x01]), Err(Error::IpVersion(5)));
    assert_eq!(is_ipv6(&[0xf6]), Err(Error::IpVersion(15)));
    // The low nibble does not count.
    assert_eq!(is_ipv6(&[0x06]), Err(Error::IpVersion(0)));
    assert_eq!(is_ipv6(&[0x04]), Err(Error::IpVersion(0)));
}

#[test]
fn sniff_looks_at_first_byte_only() {
    assert_eq!(is_ipv6(&[0x45, 0x60, 0x60]), Ok(false));
    assert_eq!(is_ipv6(&[0x60, 0x45, 0x45]), Ok(true));
}

#[test]
fn no_header_without_packet_information() {
    assert_eq!(generate_packet_information(false, false), None);
    assert_eq!(generate_packet_information(false, true), None);
}

#[test]
fn header_of_ipv4() {
    assert_eq!(generate_packet_information(true, false), Some([0x00, 0x00, 0x08, 0x00]));
}

#[test]
fn header_of_ipv6() {
    assert_eq!(generate_packet_information(true, true), Some([0x00, 0x00, 0x86, 0xdd]));
}

#[test]
fn headers_are_distinct_and_stable() {
    let v4 = generate_packet_information(true, false).unwrap();
    let v6 = generate_packet_information(true, true).unwrap();
    assert_ne!(v4, v6);
    assert_eq!(v4.len(), PACKET_INFORMATION_LENGTH);
    assert_eq!(v6.len(), PACKET_INFORMATION_LENGTH);
    for _ in 0..3 {
        assert_eq!(generate_packet_information(true, false), Some(v4));
        assert_eq!(generate_packet_information(true, true), Some(v6));
    }
}

#[test]
fn header_is_big_endian_ether_type() {
    let v4 = generate_packet_information(true, false).unwrap();
    let v6 = generate_packet_information(true, true).unwrap();
    assert_eq!(u32::from_be_bytes(v4), 0x0800);
    assert_eq!(u32::from_be_bytes(v6), 0x86dd);
    assert_eq!(u32::from_be_bytes(v4), libc::ETH_P_IP as u32);
    assert_eq!(u32::from_be_bytes(v6), libc::ETH_P_IPV6 as u32);
}

#[test]
fn header_length_is_four() {
    assert_eq!(PACKET_INFORMATION_LENGTH, 4);
}
