use zephyr_ffi::byte_order::{u16_to_network, u32_to_network};
use zephyr_ffi::socket::{
    make_result, peer_ipv4_octets, transfer_result, unit_result, AddressFamily, InetAddr,
    InetAddr6, Ipv4Addr, Ipv6Addr, SockAddr, SockProtocol, SockType, SOCKADDR_IN6_LEN,
    SOCKADDR_IN_LEN,
};

#[test]
fn network_order_of_port() {
    assert_eq!(u16_to_network(4242), [0x10, 0x92]);
    assert_eq!(u16_to_network(0), [0, 0]);
    assert_eq!(u16_to_network(0xffff), [0xff, 0xff]);
    assert_eq!(u16_to_network(1), [0, 1]);
}

#[test]
fn network_order_of_address() {
    assert_eq!(u32_to_network(0x7f00_0001), [127, 0, 0, 1]);
    assert_eq!(u32_to_network(0xc0a8_0102), [192, 168, 1, 2]);
    assert_eq!(u32_to_network(0x0102_0304), [1, 2, 3, 4]);
}

#[test]
fn raw_socket_parameters() {
    assert_eq!(AddressFamily::Inet.raw(), 1);
    assert_eq!(AddressFamily::Inet6.raw(), 2);
    assert_eq!(AddressFamily::Inet.sa_family(), 1);
    assert_eq!(AddressFamily::Inet6.sa_family(), 2);
    assert_eq!(SockType::Stream.raw(), 1);
    assert_eq!(SockType::Datagram.raw(), 2);
    assert_eq!(SockProtocol::Tcp.raw(), 6);
    assert_eq!(SockProtocol::Udp.raw(), 17);
}

#[test]
fn ipv4_address_is_stored_in_network_order() {
    assert_eq!(Ipv4Addr::new(0xc0a8_0102).octets(), [192, 168, 1, 2]);
    assert_eq!(Ipv4Addr::any().octets(), [0, 0, 0, 0]);
}

#[test]
fn ipv6_any_is_all_zero() {
    assert_eq!(Ipv6Addr::any().octets(), [0u8; 16]);
}

#[test]
fn inet_addr_ffi_layout() {
    let a = InetAddr::new(Ipv4Addr::new(0x0a00_0005), 4242);
    let (sa, len) = a.as_ffi_pair();
    assert_eq!(sa.family, 1);
    assert_eq!(sa.data, vec![0x10, 0x92, 10, 0, 0, 5]);
    assert_eq!(len, 8);
    assert_eq!(len, SOCKADDR_IN_LEN);
}

#[test]
fn inet_addr6_ffi_layout() {
    let a = InetAddr6::new(Ipv6Addr::any(), 80);
    let (sa, len) = a.as_ffi_pair();
    assert_eq!(sa.family, 2);
    let mut expected = vec![0u8, 80];
    expected.extend_from_slice(&[0u8; 16]);
    expected.extend_from_slice(&[0, 0, 0, 0]);
    assert_eq!(sa.data, expected);
    assert_eq!(len, 24);
    assert_eq!(len, SOCKADDR_IN6_LEN);
    assert_eq!(len, 2 + sa.data.len());
}

#[test]
fn peer_address_of_accepted_client() {
    let sa = SockAddr { family: 1, data: vec![0x30, 0x39, 192, 0, 2, 7] };
    assert_eq!(peer_ipv4_octets(&sa), [192, 0, 2, 7]);
}

#[test]
fn bound_address_reads_back_at_the_peer() {
    let a = InetAddr::new(Ipv4Addr::new(0xc633_6401), 65000);
    let (sa, _) = a.as_ffi_pair();
    assert_eq!(peer_ipv4_octets(&sa), [198, 51, 100, 1]);
    assert_eq!(u16::from_be_bytes([sa.data[0], sa.data[1]]), 65000);
}

#[test]
fn negative_return_value_is_the_errno() {
    assert_eq!(make_result(-1, 23), Err(23));
    assert_eq!(make_result(i32::MIN, 5), Err(5));
    assert_eq!(make_result(0, 23), Ok(0));
    assert_eq!(make_result(3, 23), Ok(3));
}

#[test]
fn unit_result_drops_the_value() {
    assert_eq!(unit_result(0, 9), Ok(()));
    assert_eq!(unit_result(7, 9), Ok(()));
    assert_eq!(unit_result(-1, 9), Err(9));
}

#[test]
fn transfer_result_keeps_the_length() {
    assert_eq!(transfer_result(128, 11), Ok(128));
    assert_eq!(transfer_result(0, 11), Ok(0));
    assert_eq!(transfer_result(-1, 11), Err(11));
}
