use vless_header::{parse_vless_header, AddressType};

/// Builds a minimal valid buffer around the given address-type and address
/// bytes: zero version, zero identifier, no addons, TCP command, port 80.
fn with_tail(tail: &[u8]) -> Vec<u8> {
    let mut b = vec![0u8; 17];
    b.push(0); // addons length
    b.push(1); // command
    b.push(0); // port, high byte
    b.push(80); // port, low byte
    b.extend_from_slice(tail);
    b
}

fn ipv6_tail(segments: [u16; 8]) -> Vec<u8> {
    let mut tail = vec![3u8];
    for s in segments {
        tail.push((s >> 8) as u8);
        tail.push((s & 0xff) as u8);
    }
    tail
}

#[test]
fn ipv4_dotted_decimal() {
    let h = parse_vless_header(&with_tail(&[1, 1, 2, 3, 4])).unwrap();
    assert_eq!(h.address_type, AddressType::IPv4);
    assert_eq!(h.address, "1.2.3.4");
    assert_eq!(h.raw_data_index, 26);
}

#[test]
fn ipv4_octet_extremes() {
    let h = parse_vless_header(&with_tail(&[1, 0, 255, 10, 100])).unwrap();
    assert_eq!(h.address, "0.255.10.100");
}

#[test]
fn domain_plain_ascii() {
    let h = parse_vless_header(&with_tail(&[2, 3, b'a', b'b', b'c'])).unwrap();
    assert_eq!(h.address_type, AddressType::Domain);
    assert_eq!(h.address, "abc");
    assert_eq!(h.raw_data_index, 26);
}

#[test]
fn domain_full_hostname() {
    let name = b"example.com";
    let mut tail = vec![2u8, name.len() as u8];
    tail.extend_from_slice(name);
    let h = parse_vless_header(&with_tail(&tail)).unwrap();
    assert_eq!(h.address, "example.com");
    assert_eq!(h.raw_data_index, 22 + 1 + name.len());
}

#[test]
fn domain_empty_name() {
    let h = parse_vless_header(&with_tail(&[2, 0, 0xaa])).unwrap();
    assert_eq!(h.address, "");
    assert_eq!(h.raw_data_index, 23);
}

#[test]
fn domain_exactly_24_byte_buffer() {
    let b = with_tail(&[2, 1, b'x']);
    assert_eq!(b.len(), 24);
    let h = parse_vless_header(&b).unwrap();
    assert_eq!(h.address, "x");
    assert_eq!(h.raw_data_index, 24);
}

#[test]
fn domain_invalid_utf8_replaced_not_rejected() {
    let h = parse_vless_header(&with_tail(&[2, 2, 0xff, b'a'])).unwrap();
    assert_eq!(h.address, "\u{fffd}a");
}

#[test]
fn ipv6_all_zero_is_double_colon() {
    let h = parse_vless_header(&with_tail(&ipv6_tail([0; 8]))).unwrap();
    assert_eq!(h.address_type, AddressType::IPv6);
    assert_eq!(h.address, "::");
    assert_eq!(h.raw_data_index, 38);
}

#[test]
fn ipv6_loopback() {
    let h = parse_vless_header(&with_tail(&ipv6_tail([0, 0, 0, 0, 0, 0, 0, 1]))).unwrap();
    assert_eq!(h.address, "::1");
}

#[test]
fn ipv6_lowercase_hex_without_leading_zeros() {
    let segs = [0x2001, 0x0db8, 0, 0, 0, 0, 0, 0x0001];
    let h = parse_vless_header(&with_tail(&ipv6_tail(segs))).unwrap();
    assert_eq!(h.address, "2001:db8::1");
}

#[test]
fn ipv6_no_zero_run() {
    let segs = [1, 2, 3, 4, 5, 6, 7, 8];
    let h = parse_vless_header(&with_tail(&ipv6_tail(segs))).unwrap();
    assert_eq!(h.address, "1:2:3:4:5:6:7:8");
}

#[test]
fn ipv6_single_zero_group_not_compressed() {
    let segs = [1, 0, 2, 3, 4, 5, 6, 7];
    let h = parse_vless_header(&with_tail(&ipv6_tail(segs))).unwrap();
    assert_eq!(h.address, "1:0:2:3:4:5:6:7");
}

#[test]
fn ipv6_leftmost_longest_run_wins() {
    let segs = [0x2001, 0, 0, 1, 0, 0, 0, 1];
    let h = parse_vless_header(&with_tail(&ipv6_tail(segs))).unwrap();
    assert_eq!(h.address, "2001:0:0:1::1");
}

#[test]
fn ipv6_first_of_two_equal_runs_compressed() {
    let segs = [1, 0, 0, 2, 3, 0, 0, 4];
    let h = parse_vless_header(&with_tail(&ipv6_tail(segs))).unwrap();
    assert_eq!(h.address, "1::2:3:0:0:4");
}

#[test]
fn ipv6_trailing_run_compressed() {
    let segs = [0xfe80, 1, 2, 3, 4, 0, 0, 0];
    let h = parse_vless_header(&with_tail(&ipv6_tail(segs))).unwrap();
    assert_eq!(h.address, "fe80:1:2:3:4::");
}

#[test]
fn ipv6_ipv4_mapped_rendered_dotted() {
    let segs = [0, 0, 0, 0, 0, 0xffff, 0xc0a8, 0x0101];
    let h = parse_vless_header(&with_tail(&ipv6_tail(segs))).unwrap();
    assert_eq!(h.address, "::ffff:192.168.1.1");
}

#[test]
fn ipv6_ffff_elsewhere_not_mapped() {
    let segs = [0, 0, 0, 0, 0xffff, 0, 0xc0a8, 0x0101];
    let h = parse_vless_header(&with_tail(&ipv6_tail(segs))).unwrap();
    assert_eq!(h.address, "::ffff:0:c0a8:101");
}
