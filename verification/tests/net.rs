use mullvad_api::net::{IpAddress, SocketAddress};

fn v4(a: u8, b: u8, c: u8, d: u8, port: u16) -> SocketAddress {
    SocketAddress { ip: IpAddress::V4(a, b, c, d), port }
}

#[test]
fn parses_a_version_4_address() {
    assert_eq!(SocketAddress::parse(b"203.0.113.9:443"), Some(v4(203, 0, 113, 9, 443)));
}

#[test]
fn parses_the_smallest_and_the_largest_version_4_address() {
    assert_eq!(SocketAddress::parse(b"0.0.0.0:0"), Some(v4(0, 0, 0, 0, 0)));
    assert_eq!(
        SocketAddress::parse(b"255.255.255.255:65535"),
        Some(v4(255, 255, 255, 255, 65535))
    );
}

#[test]
fn accepts_leading_zeros_in_a_port_only() {
    assert_eq!(SocketAddress::parse(b"10.0.0.1:0080"), Some(v4(10, 0, 0, 1, 80)));
    assert_eq!(SocketAddress::parse(b"10.0.0.01:80"), None);
    assert_eq!(SocketAddress::parse(b"010.0.0.1:80"), None);
}

#[test]
fn rejects_octets_and_ports_out_of_range() {
    assert_eq!(SocketAddress::parse(b"256.0.0.1:80"), None);
    assert_eq!(SocketAddress::parse(b"1.2.3.4:65536"), None);
    assert_eq!(SocketAddress::parse(b"1.2.3.4:99999999999999999999"), None);
    assert_eq!(SocketAddress::parse(b"1.2.3.1000:1"), None);
}

#[test]
fn rejects_texts_that_are_no_socket_address() {
    let texts: [&[u8]; 14] = [
        b"",
        b"1.2.3.4",
        b"1.2.3.4:",
        b"1.2.3:80",
        b"1.2.3.4.5:80",
        b"1..3.4:80",
        b".2.3.4:80",
        b"1.2.3.4:80 ",
        b" 1.2.3.4:80",
        b"1.2.3.4:8a",
        b"a.b.c.d:80",
        b"1.2.3.4:-1",
        b"1.2.3.4;80",
        b"api.mullvad.net:443",
    ];
    for text in texts {
        assert_eq!(SocketAddress::parse(text), None, "{:?}", text);
    }
}

fn v6(groups: [u16; 8], port: u16) -> SocketAddress {
    let [g0, g1, g2, g3, g4, g5, g6, g7] = groups;
    SocketAddress { ip: IpAddress::V6(g0, g1, g2, g3, g4, g5, g6, g7), port }
}

#[test]
fn parses_a_version_6_address_written_in_full() {
    assert_eq!(
        SocketAddress::parse(b"[2001:db8:0:0:0:0:0:1]:443"),
        Some(v6([0x2001, 0xdb8, 0, 0, 0, 0, 0, 1], 443))
    );
    assert_eq!(
        SocketAddress::parse(b"[FFFF:0db8:0000:0:0:0:0:00Ab]:1"),
        Some(v6([0xffff, 0xdb8, 0, 0, 0, 0, 0, 0xab], 1))
    );
}

#[test]
fn a_double_colon_stands_for_the_groups_left_out() {
    assert_eq!(SocketAddress::parse(b"[::]:0"), Some(v6([0; 8], 0)));
    assert_eq!(SocketAddress::parse(b"[::1]:443"), Some(v6([0, 0, 0, 0, 0, 0, 0, 1], 443)));
    assert_eq!(SocketAddress::parse(b"[1::]:443"), Some(v6([1, 0, 0, 0, 0, 0, 0, 0], 443)));
    assert_eq!(
        SocketAddress::parse(b"[2001:db8::abcd:1]:8080"),
        Some(v6([0x2001, 0xdb8, 0, 0, 0, 0, 0xabcd, 1], 8080))
    );
    assert_eq!(
        SocketAddress::parse(b"[1:2:3:4:5:6:7::]:9"),
        Some(v6([1, 2, 3, 4, 5, 6, 7, 0], 9))
    );
    assert_eq!(
        SocketAddress::parse(b"[::2:3:4:5:6:7:8]:9"),
        Some(v6([0, 2, 3, 4, 5, 6, 7, 8], 9))
    );
    assert_eq!(
        SocketAddress::parse(b"[1:2:3::6:7:8]:9"),
        Some(v6([1, 2, 3, 0, 0, 6, 7, 8], 9))
    );
}

#[test]
fn the_last_two_groups_may_be_written_in_dotted_form() {
    assert_eq!(
        SocketAddress::parse(b"[::ffff:1.2.3.4]:443"),
        Some(v6([0, 0, 0, 0, 0, 0xffff, 0x0102, 0x0304], 443))
    );
    assert_eq!(
        SocketAddress::parse(b"[::ffff:203.0.113.9]:443"),
        Some(v6([0, 0, 0, 0, 0, 0xffff, 0xcb00, 0x7109], 443))
    );
    assert_eq!(
        SocketAddress::parse(b"[::255.255.255.255]:1"),
        Some(v6([0, 0, 0, 0, 0, 0, 0xffff, 0xffff], 1))
    );
    assert_eq!(
        SocketAddress::parse(b"[1:2:3:4:5:6:10.0.0.1]:1"),
        Some(v6([1, 2, 3, 4, 5, 6, 0x0a00, 0x0001], 1))
    );
    assert_eq!(
        SocketAddress::parse(b"[64:ff9b::192.0.2.33]:80"),
        Some(v6([0x64, 0xff9b, 0, 0, 0, 0, 0xc000, 0x0221], 80))
    );
}

#[test]
fn rejects_dotted_forms_that_are_misplaced_or_malformed() {
    let texts: [&[u8]; 12] = [
        b"[1.2.3.4::]:1",
        b"[1.2.3.4::1]:1",
        b"[1:2:3:4:5:6:7:1.2.3.4]:1",
        b"[1:2:3:4:5:1.2.3.4]:1",
        b"[::1.2.3.4:5]:1",
        b"[::1.2.3]:1",
        b"[::1.2.3.4.5]:1",
        b"[::1.2.3.256]:1",
        b"[::01.2.3.4]:1",
        b"[::1.2.3.4567]:1",
        b"[::a.2.3.4]:1",
        b"[1:2:3:4:5:6:7::1.2.3.4]:1",
    ];
    for text in texts {
        assert_eq!(SocketAddress::parse(text), None, "{:?}", String::from_utf8_lossy(text));
    }
}

#[test]
fn an_address_that_fits_the_dotted_form_is_written_in_groups_and_read_back() {
    let mapped = v6([0, 0, 0, 0, 0, 0xffff, 0x0102, 0x0304], 443);
    assert_eq!(mapped.to_text(), b"[::ffff:102:304]:443".to_vec());
    assert_eq!(SocketAddress::parse(&mapped.to_text()), Some(mapped));
    assert_eq!(SocketAddress::parse(b"[::ffff:1.2.3.4]:443"), Some(mapped));
}

#[test]
fn rejects_version_6_texts_that_are_malformed() {
    let texts: [&[u8]; 18] = [
        b"[1:2:3:4:5:6:7]:443",
        b"[1:2:3:4:5:6:7:8:9]:443",
        b"[1:2:3:4:5:6:7:8::]:443",
        b"[::1:2:3:4:5:6:7:8]:443",
        b"[1::2::3]:443",
        b"[:::]:443",
        b"[:1:2:3:4:5:6:7:8]:443",
        b"[1:2:3:4:5:6:7:8:]:443",
        b"[1:2:3:4:5:6:7:8]",
        b"[1:2:3:4:5:6:7:8]443",
        b"[1:2:3:4:5:6:7:8]:",
        b"[1:2:3:4:5:6:7:12345]:443",
        b"[1:2:3:4:5:6:7:g]:443",
        b"[::1%eth0]:443",
        b"[::1:443",
        b"[",
        b"::1:443",
        b"1:2:3:4:5:6:7:8:443",
    ];
    for text in texts {
        assert_eq!(SocketAddress::parse(text), None, "{:?}", String::from_utf8_lossy(text));
    }
}

#[test]
fn writes_a_version_4_address() {
    assert_eq!(v4(203, 0, 113, 9, 443).to_text(), b"203.0.113.9:443".to_vec());
    assert_eq!(v4(0, 0, 0, 0, 0).to_text(), b"0.0.0.0:0".to_vec());
    assert_eq!(v4(255, 100, 10, 1, 65535).to_text(), b"255.100.10.1:65535".to_vec());
}

#[test]
fn writes_a_version_6_address_in_lower_case_without_its_longest_run_of_zeros() {
    assert_eq!(
        v6([0x2001, 0xDB8, 0, 0, 0, 0, 0xABCD, 1], 8080).to_text(),
        b"[2001:db8::abcd:1]:8080".to_vec()
    );
    assert_eq!(v6([0; 8], 0).to_text(), b"[::]:0".to_vec());
    assert_eq!(v6([0, 0, 0, 0, 0, 0, 0, 1], 443).to_text(), b"[::1]:443".to_vec());
    assert_eq!(v6([1, 0, 0, 0, 0, 0, 0, 0], 443).to_text(), b"[1::]:443".to_vec());
    assert_eq!(v6([0, 0, 1, 0, 0, 0, 2, 3], 1).to_text(), b"[0:0:1::2:3]:1".to_vec());
}

#[test]
fn writes_a_single_zero_group_out_and_takes_the_first_of_two_equal_runs() {
    assert_eq!(v6([1, 0, 2, 3, 4, 5, 6, 7], 1).to_text(), b"[1:0:2:3:4:5:6:7]:1".to_vec());
    assert_eq!(v6([1, 0, 0, 2, 3, 0, 0, 4], 1).to_text(), b"[1::2:3:0:0:4]:1".to_vec());
    assert_eq!(
        v6([0xffff, 0xfff, 0xff, 0xf, 0x10, 0x100, 0x1000, 0xa0a0], 65535).to_text(),
        b"[ffff:fff:ff:f:10:100:1000:a0a0]:65535".to_vec()
    );
}

#[test]
fn reading_what_was_written_gives_the_address_back() {
    let addresses = [
        v4(0, 0, 0, 0, 0),
        v4(45, 83, 223, 196, 443),
        v4(255, 255, 255, 255, 65535),
        v4(9, 99, 199, 200, 10000),
        v6([0; 8], 0),
        v6([0xffff, 0xfff, 0xff, 0xf, 0x10, 0x100, 0x1000, 0xa0a0], 65535),
        v6([0, 0, 0, 0, 0, 0, 0, 1], 1),
        v6([1, 0, 0, 0, 0, 0, 0, 0], 1),
        v6([0, 1, 0, 0, 1, 0, 0, 0], 1),
        v6([1, 0, 1, 0, 1, 0, 1, 0], 1),
        v6([0, 0, 1, 1, 1, 1, 0, 0], 1),
        v6([1, 2, 3, 4, 5, 6, 0, 0], 1),
        v6([0, 0, 3, 4, 5, 6, 7, 8], 1),
    ];
    for addr in addresses {
        assert_eq!(SocketAddress::parse(&addr.to_text()), Some(addr));
    }
}

#[test]
fn the_constructor_of_version_4_addresses_sets_every_field() {
    assert_eq!(SocketAddress::v4(1, 2, 3, 4, 5), v4(1, 2, 3, 4, 5));
}
