use mullvad_api::address_cache::{trim_bytes, AddressCache, Error, FileRead};
use mullvad_api::dns::{DnsResolver, NullDnsResolver, ResolveError};
use mullvad_api::endpoint::ApiEndpoint;
use mullvad_api::net::{IpAddress, SocketAddress};

fn addr(a: u8, b: u8, c: u8, d: u8, port: u16) -> SocketAddress {
    SocketAddress { ip: IpAddress::V4(a, b, c, d), port }
}

fn contents(text: &str) -> FileRead {
    FileRead::Contents(text.as_bytes().to_vec())
}

#[test]
fn a_new_cache_is_seeded_from_the_endpoint() {
    let endpoint = ApiEndpoint::new("api.example".to_string(), addr(203, 0, 113, 9, 443), false);
    let cache = AddressCache::new(&endpoint, None);
    assert_eq!(cache.current(), addr(203, 0, 113, 9, 443));
    assert_eq!(cache.hostname(), "api.example");
}

#[test]
fn a_cache_loads_the_address_in_the_file() {
    let cache =
        AddressCache::from_file(contents("203.0.113.9:443\n"), None, "api.example".to_string()).unwrap();
    assert_eq!(cache.current(), addr(203, 0, 113, 9, 443));
    assert_eq!(cache.hostname(), "api.example");
}

#[test]
fn white_space_around_the_address_is_ignored() {
    let cache =
        AddressCache::from_file(contents(" \t\r\n10.1.2.3:80 \n\n"), None, "h".to_string()).unwrap();
    assert_eq!(cache.current(), addr(10, 1, 2, 3, 80));
}

#[test]
fn a_missing_file_is_an_open_error() {
    let r = AddressCache::from_file(FileRead::Missing, None, "h".to_string());
    assert_eq!(r.err(), Some(Error::Open));
}

#[test]
fn an_unreadable_file_is_a_read_error() {
    let r = AddressCache::from_file(FileRead::Unreadable, None, "h".to_string());
    assert_eq!(r.err(), Some(Error::Read));
}

#[test]
fn a_file_without_an_address_is_a_parse_error() {
    for text in ["", "\n", "api.mullvad.net", "1.2.3.4", "1.2.3.4:80\n5.6.7.8:80", "1.2.3.4 :80", "[::1]"] {
        let r = AddressCache::from_file(contents(text), None, "h".to_string());
        assert_eq!(r.err(), Some(Error::Parse), "{:?}", text);
    }
}

#[test]
fn an_update_without_a_file_changes_memory_only() {
    let endpoint = ApiEndpoint::new("h".to_string(), addr(1, 1, 1, 1, 1), false);
    let mut cache = AddressCache::new(&endpoint, None);
    assert!(cache.set_address(addr(2, 2, 2, 2, 2)).is_none());
    assert_eq!(cache.current(), addr(2, 2, 2, 2, 2));
    assert_eq!(cache.hostname(), "h");
}

#[test]
fn an_update_with_a_file_hands_back_what_to_write() {
    let endpoint = ApiEndpoint::new("h".to_string(), addr(1, 1, 1, 1, 1), false);
    let mut cache = AddressCache::new(&endpoint, Some("/cache/api-ip-address.txt".to_string()));
    let write = cache.set_address(addr(203, 0, 113, 9, 443)).unwrap();
    assert_eq!(write.path, "/cache/api-ip-address.txt");
    assert_eq!(write.contents, b"203.0.113.9:443\n".to_vec());
    assert_eq!(cache.current(), addr(203, 0, 113, 9, 443));
}

#[test]
fn what_an_update_writes_loads_as_the_same_address() {
    let endpoint = ApiEndpoint::new("h".to_string(), addr(1, 1, 1, 1, 1), false);
    let mut cache = AddressCache::new(&endpoint, Some("file".to_string()));
    for address in [
        addr(0, 0, 0, 0, 0),
        addr(255, 255, 255, 255, 65535),
        SocketAddress { ip: IpAddress::V6(1, 2, 3, 4, 5, 6, 7, 0xffff), port: 9 },
    ] {
        let write = cache.set_address(address).unwrap();
        let loaded =
            AddressCache::from_file(FileRead::Contents(write.contents), None, "h".to_string()).unwrap();
        assert_eq!(loaded.current(), address);
    }
}

#[test]
fn the_cache_resolves_its_own_host_only() {
    let endpoint = ApiEndpoint::new("api.example".to_string(), addr(203, 0, 113, 9, 443), false);
    let cache = AddressCache::new(&endpoint, None);
    assert_eq!(cache.resolve_hostname("api.example"), Some(addr(203, 0, 113, 9, 443)));
    assert_eq!(cache.resolve_hostname("other.example"), None);
    assert_eq!(cache.resolve("api.example"), Ok(vec![addr(203, 0, 113, 9, 443)]));
    assert_eq!(cache.resolve("other.example"), Err(ResolveError::HostMismatch));
}

#[test]
fn the_null_resolver_finds_nothing() {
    assert_eq!(NullDnsResolver.resolve("api.mullvad.net"), Ok(vec![]));
    assert_eq!(NullDnsResolver.resolve(""), Ok(vec![]));
}

#[test]
fn trimming_cuts_white_space_at_both_ends_only() {
    assert_eq!(trim_bytes(b"  a b \n"), b"a b");
    assert_eq!(trim_bytes(b""), b"");
    assert_eq!(trim_bytes(b" \t\n\x0b\x0c\r"), b"");
    assert_eq!(trim_bytes(b"x"), b"x");
    assert_eq!(trim_bytes(b"\x08x\x0e"), b"\x08x\x0e");
}

#[test]
fn a_clone_of_a_cache_holds_the_same() {
    let endpoint = ApiEndpoint::new("h".to_string(), addr(1, 1, 1, 1, 1), false);
    let cache = AddressCache::new(&endpoint, Some("file".to_string()));
    let mut copy = cache.clone();
    assert_eq!(copy.current(), cache.current());
    assert_eq!(copy.hostname(), cache.hostname());
    assert_eq!(copy.set_address(addr(2, 2, 2, 2, 2)).unwrap().path, "file");
    assert_eq!(cache.current(), addr(1, 1, 1, 1, 1));
}
