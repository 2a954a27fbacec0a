use mullvad_api::address_cache::FileRead;
use mullvad_api::availability::State;
use mullvad_api::dns::NullDnsResolver;
use mullvad_api::endpoint::ApiEndpoint;
use mullvad_api::net::{IpAddress, SocketAddress};
use mullvad_api::proxy::{ApiConnectionMode, ProxyConfig};
use mullvad_api::rest::{Attempt, Error, Exchange, Response, Start, DEFAULT_TIMEOUT_MS};
use mullvad_api::runtime::{Runtime, API_IP_CACHE_FILENAME};

fn addr(a: u8, b: u8, c: u8, d: u8, port: u16) -> SocketAddress {
    SocketAddress { ip: IpAddress::V4(a, b, c, d), port }
}

fn plain_endpoint() -> ApiEndpoint {
    ApiEndpoint::from_env_vars(false, None, None, None, None, None)
}

fn host_endpoint(host: &str) -> ApiEndpoint {
    ApiEndpoint { host: Some(host.to_string()), address: None, disable_tls: false, force_direct: false }
}

fn contents(text: &str) -> FileRead {
    FileRead::Contents(text.as_bytes().to_vec())
}

fn attempt(start: Start) -> Attempt {
    match start {
        Start::Attempt(attempt) => attempt,
        other => panic!("no attempt: {:?}", other),
    }
}

#[test]
fn the_cache_file_has_its_fixed_name() {
    assert_eq!(API_IP_CACHE_FILENAME, "api-ip-address.txt");
}

#[test]
fn a_runtime_with_a_cache_file_starts_from_the_cached_address() {
    let runtime = Runtime::with_cache(
        false,
        &host_endpoint("api.example"),
        "/cache/api-ip-address.txt".to_string(),
        contents("203.0.113.9:443"),
        true,
    )
    .unwrap();
    assert_eq!(runtime.address_cache().current(), addr(203, 0, 113, 9, 443));
    assert_eq!(runtime.address_cache().hostname(), "api.example");
    assert_eq!(runtime.availability_handle().state(), State::Online);
    let (mut cache, _, _) = runtime.into_parts();
    assert_eq!(cache.set_address(addr(1, 1, 1, 1, 1)).unwrap().path, "/cache/api-ip-address.txt");
}

#[test]
fn a_runtime_for_the_default_host_starts_from_the_cached_address() {
    for overrides in [false, true] {
        let runtime = Runtime::with_cache(
            overrides,
            &plain_endpoint(),
            "file".to_string(),
            contents("203.0.113.9:443\n"),
            true,
        )
        .unwrap();
        assert_eq!(runtime.address_cache().current(), addr(203, 0, 113, 9, 443));
        assert_eq!(runtime.address_cache().hostname(), "api.mullvad.net");
    }
}

#[test]
fn a_runtime_without_a_usable_cache_file_starts_from_the_address_of_the_endpoint() {
    for read in [FileRead::Missing, FileRead::Unreadable, contents("garbage"), contents("")] {
        let runtime =
            Runtime::with_cache(false, &plain_endpoint(), "file".to_string(), read, true).unwrap();
        assert_eq!(runtime.address_cache().current(), addr(45, 83, 223, 196, 443));
    }
    let pinned = ApiEndpoint::new("api.example".to_string(), addr(127, 0, 0, 1, 8443), false);
    let runtime =
        Runtime::with_cache(false, &pinned, "file".to_string(), FileRead::Missing, true).unwrap();
    assert_eq!(runtime.address_cache().current(), addr(127, 0, 0, 1, 8443));
}

#[test]
fn where_overrides_are_heeded_an_overridden_endpoint_ignores_the_cache_file() {
    let endpoint = ApiEndpoint::new("api.example".to_string(), addr(127, 0, 0, 1, 8443), true);
    let runtime = Runtime::with_cache(
        true,
        &endpoint,
        "file".to_string(),
        contents("203.0.113.9:443"),
        true,
    )
    .unwrap();
    assert_eq!(runtime.address_cache().current(), addr(127, 0, 0, 1, 8443));
    assert_eq!(runtime.address_cache().hostname(), "api.example");
    let (mut cache, _, _) = runtime.into_parts();
    assert!(cache.set_address(addr(1, 1, 1, 1, 1)).is_none());

    let runtime = Runtime::with_cache(
        true,
        &host_endpoint("api.example"),
        "file".to_string(),
        contents("203.0.113.9:443"),
        true,
    )
    .unwrap();
    assert_eq!(runtime.address_cache().current(), addr(45, 83, 223, 196, 443));
}

#[test]
fn where_overrides_are_not_heeded_every_endpoint_reads_the_cache_file() {
    let endpoint = ApiEndpoint::new("api.example".to_string(), addr(127, 0, 0, 1, 8443), true);
    let runtime = Runtime::with_cache(
        false,
        &endpoint,
        "file".to_string(),
        contents("203.0.113.9:443"),
        true,
    )
    .unwrap();
    assert_eq!(runtime.address_cache().current(), addr(203, 0, 113, 9, 443));
    assert_eq!(runtime.address_cache().hostname(), "api.example");
}

#[test]
fn changes_are_written_only_where_asked_for() {
    let writing =
        Runtime::with_cache(false, &plain_endpoint(), "file".to_string(), FileRead::Missing, true)
            .unwrap();
    let (mut cache, _, _) = writing.into_parts();
    assert_eq!(cache.set_address(addr(1, 1, 1, 1, 1)).unwrap().path, "file");

    let silent =
        Runtime::with_cache(false, &plain_endpoint(), "file".to_string(), contents("9.9.9.9:9"), false)
            .unwrap();
    let (mut cache, _, _) = silent.into_parts();
    assert_eq!(cache.current(), addr(9, 9, 9, 9, 9));
    assert!(cache.set_address(addr(1, 1, 1, 1, 1)).is_none());
}

#[test]
fn a_bare_runtime_keeps_its_address_in_memory() {
    let endpoint = ApiEndpoint::new("api.example".to_string(), addr(10, 0, 0, 1, 443), false);
    let runtime = Runtime::new(&endpoint);
    assert_eq!(runtime.address_cache().current(), addr(10, 0, 0, 1, 443));
    assert_eq!(runtime.api_endpoint().host(), "api.example");
    let (mut cache, tracker, kept) = runtime.into_parts();
    assert!(cache.set_address(addr(1, 1, 1, 1, 1)).is_none());
    assert_eq!(tracker.state(), State::Online);
    assert_eq!(kept.address, Some(addr(10, 0, 0, 1, 443)));
}

#[test]
fn the_handle_for_the_proxies_is_wired_to_the_endpoint() {
    let endpoint = ApiEndpoint::new("api.example".to_string(), addr(10, 0, 0, 1, 443), true);
    let mut runtime = Runtime::new(&endpoint);
    let bridge = ApiConnectionMode::Bridge(ProxyConfig { endpoint: addr(5, 5, 5, 5, 1080) });
    let mut handle = runtime.mullvad_rest_handle(bridge.into_provider());
    assert_eq!(handle.token_store.len(), 0);
    let request = handle.factory.get("app/v1/api-addrs").unwrap().expected_status(vec![200]);
    assert_eq!(request.uri, "https://api.example/app/v1/api-addrs");
    assert_eq!(request.timeout_ms, DEFAULT_TIMEOUT_MS);
    let made = attempt(runtime.begin(&mut handle.service, &request, 1));
    assert_eq!(made.address, addr(10, 0, 0, 1, 443));
    assert_eq!(made.mode, bridge);
    assert!(!made.use_tls);

    let done = runtime.finish(
        &handle.service,
        &request,
        &made,
        Exchange::ConnectFailed("refused".to_string()),
        &mut handle.token_store,
    );
    assert!(matches!(done.result, Err(Error::HyperError(_))));
    assert_eq!(runtime.availability_handle().state(), State::Offline);
    assert_eq!(runtime.begin(&mut handle.service, &request, 2), Start::Pending);
    assert_eq!(runtime.begin(&mut handle.service, &request, 3), Start::Pending);
    assert_eq!(runtime.availability_handle().waiting(), vec![2, 3]);

    let done = runtime.finish(
        &handle.service,
        &request,
        &made,
        Exchange::Completed(Response { status: 200, body: "[]".to_string() }),
        &mut handle.token_store,
    );
    assert_eq!(done.result.unwrap().body, "[]");
    assert_eq!(done.released, vec![2, 3]);
    assert_eq!(runtime.availability_handle().state(), State::Online);
}

#[test]
fn finishing_at_another_address_hands_back_the_write() {
    let mut runtime = Runtime::with_cache(
        false,
        &plain_endpoint(),
        "file".to_string(),
        contents("203.0.113.9:443"),
        true,
    )
    .unwrap();
    let mut handle = runtime.mullvad_rest_handle(ApiConnectionMode::Direct.into_provider());
    let request = handle.factory.get("p").unwrap().expected_status(vec![200]);
    let mut made = attempt(runtime.begin(&mut handle.service, &request, 1));
    assert_eq!(made.address, addr(203, 0, 113, 9, 443));
    made.address = addr(198, 51, 100, 7, 443);
    let done = runtime.finish(
        &handle.service,
        &request,
        &made,
        Exchange::Completed(Response { status: 200, body: String::new() }),
        &mut handle.token_store,
    );
    let write = done.write.unwrap();
    assert_eq!(write.path, "file");
    assert_eq!(write.contents, b"198.51.100.7:443\n".to_vec());
    assert_eq!(runtime.address_cache().current(), addr(198, 51, 100, 7, 443));
}

#[test]
fn the_low_level_handle_connects_directly_with_its_own_resolver() {
    let mut runtime = Runtime::with_cache(
        false,
        &plain_endpoint(),
        "file".to_string(),
        contents("203.0.113.9:443"),
        false,
    )
    .unwrap();
    let mut service = runtime.rest_handle(NullDnsResolver);
    let request = mullvad_api::rest::RequestFactory::new("api.mullvad.net".to_string())
        .get("app/v1/api-addrs")
        .unwrap();
    let made = attempt(runtime.begin(&mut service, &request, 1));
    assert_eq!(made.mode, ApiConnectionMode::Direct);
    assert_eq!(made.address, addr(203, 0, 113, 9, 443));
    assert!(made.use_tls);
}
