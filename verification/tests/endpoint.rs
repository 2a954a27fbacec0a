use mullvad_api::endpoint::{ApiEndpoint, ConfigError, API_HOST_DEFAULT, API_PORT_DEFAULT};
use mullvad_api::net::{IpAddress, SocketAddress};

fn addr(a: u8, b: u8, c: u8, d: u8, port: u16) -> SocketAddress {
    SocketAddress { ip: IpAddress::V4(a, b, c, d), port }
}

fn some(s: &str) -> Option<String> {
    Some(s.to_string())
}

#[test]
fn an_endpoint_without_overrides_uses_the_defaults() {
    let endpoint = ApiEndpoint::from_env_vars(true, None, None, None, None, None);
    assert_eq!(endpoint.host(), "api.mullvad.net");
    assert_eq!(endpoint.host(), API_HOST_DEFAULT);
    assert_eq!(endpoint.address(), addr(45, 83, 223, 196, 443));
    assert_eq!(API_PORT_DEFAULT, 443);
    assert!(!endpoint.disable_tls);
    assert!(!endpoint.force_direct);
    assert!(!endpoint.should_disable_address_cache());
}

#[test]
fn new_sets_both_overrides() {
    let endpoint = ApiEndpoint::new("api.example".to_string(), addr(203, 0, 113, 9, 443), true);
    assert_eq!(endpoint.host(), "api.example");
    assert_eq!(endpoint.address(), addr(203, 0, 113, 9, 443));
    assert!(endpoint.disable_tls);
    assert!(!endpoint.force_direct);
    assert!(endpoint.should_disable_address_cache());
}

#[test]
fn set_addr_replaces_the_address_and_nothing_else() {
    let mut endpoint = ApiEndpoint::new("api.example".to_string(), addr(1, 1, 1, 1, 1), false);
    endpoint.set_addr(addr(2, 2, 2, 2, 2));
    assert_eq!(endpoint.address, Some(addr(2, 2, 2, 2, 2)));
    assert_eq!(endpoint.host.as_deref(), Some("api.example"));
    assert!(!endpoint.disable_tls);
}

#[test]
fn without_overrides_enabled_the_variables_are_ignored() {
    let endpoint = ApiEndpoint::from_env_vars(
        false,
        some("api.example"),
        some("not an address"),
        some("1"),
        some("1"),
        None,
    );
    assert_eq!(endpoint.host, None);
    assert_eq!(endpoint.address, None);
    assert!(!endpoint.disable_tls);
    assert!(!endpoint.force_direct);
}

#[test]
fn an_address_override_is_parsed() {
    let endpoint =
        ApiEndpoint::from_env_vars(true, None, some("203.0.113.9:8443"), None, None, None);
    assert_eq!(endpoint.host, None);
    assert_eq!(endpoint.host(), "api.mullvad.net");
    assert_eq!(endpoint.address, Some(addr(203, 0, 113, 9, 8443)));
    assert!(endpoint.force_direct);
    assert!(!endpoint.disable_tls);
}

#[test]
fn a_malformed_address_override_is_an_error() {
    for text in ["203.0.113.9", "localhost", "", "localhost:443", "1.2.3.4:65536"] {
        assert_eq!(
            ApiEndpoint::check_env_vars(true, &some("api.example"), &some(text), &None),
            Some(ConfigError::InvalidAddress),
            "{:?}",
            text
        );
        assert_eq!(
            ApiEndpoint::check_env_vars(true, &None, &some(text), &Some(vec![])),
            Some(ConfigError::InvalidAddress)
        );
        assert_eq!(ApiEndpoint::check_env_vars(false, &None, &some(text), &None), None);
    }
}

#[test]
fn sound_overrides_pass_the_check() {
    assert_eq!(ApiEndpoint::check_env_vars(true, &None, &None, &None), None);
    assert_eq!(ApiEndpoint::check_env_vars(true, &some("h"), &some("1.2.3.4:5"), &None), None);
    assert_eq!(ApiEndpoint::check_env_vars(true, &None, &some("[::1]:5"), &None), None);
    assert_eq!(ApiEndpoint::check_env_vars(true, &some("h"), &None, &Some(vec![])), None);
    assert_eq!(ApiEndpoint::check_env_vars(false, &some("h"), &None, &None), None);
}

#[test]
fn a_host_override_takes_the_first_resolved_address() {
    let resolved = vec![addr(10, 0, 0, 1, 443), addr(10, 0, 0, 2, 443)];
    assert!(ApiEndpoint::needs_resolution(true, &some("api.example"), &None));
    let endpoint =
        ApiEndpoint::from_env_vars(true, some("api.example"), None, some("1"), None, Some(resolved));
    assert_eq!(endpoint.host(), "api.example");
    assert_eq!(endpoint.address, Some(addr(10, 0, 0, 1, 443)));
    assert!(endpoint.disable_tls);
    assert!(endpoint.force_direct);
}

#[test]
fn a_host_override_that_resolves_to_nothing_has_no_address_override() {
    let endpoint =
        ApiEndpoint::from_env_vars(true, some("api.example"), None, None, None, Some(vec![]));
    assert_eq!(endpoint.address, None);
    assert_eq!(endpoint.address(), addr(45, 83, 223, 196, 443));
}

#[test]
fn a_host_override_that_does_not_resolve_is_an_error() {
    assert_eq!(
        ApiEndpoint::check_env_vars(true, &some("api.example"), &None, &None),
        Some(ConfigError::UnresolvedHost)
    );
}

#[test]
fn resolution_is_needed_only_for_a_host_without_an_address() {
    assert!(!ApiEndpoint::needs_resolution(false, &some("h"), &None));
    assert!(!ApiEndpoint::needs_resolution(true, &None, &None));
    assert!(!ApiEndpoint::needs_resolution(true, &some("h"), &some("1.2.3.4:5")));
}

#[test]
fn the_flags_are_off_only_for_the_value_zero() {
    let off = ApiEndpoint::from_env_vars(true, some("h"), some("1.2.3.4:5"), some("0"), some("0"), None);
    assert!(!off.disable_tls);
    assert!(!off.force_direct);
    let on = ApiEndpoint::from_env_vars(true, some("h"), some("1.2.3.4:5"), some("00"), some(""), None);
    assert!(on.disable_tls);
    assert!(on.force_direct);
}

#[test]
fn disabling_tls_needs_an_override() {
    let endpoint = ApiEndpoint::from_env_vars(true, None, None, some("1"), some("1"), None);
    assert!(!endpoint.disable_tls);
    assert!(endpoint.force_direct);
}

#[test]
fn a_clone_of_an_endpoint_has_the_same_fields() {
    let endpoint = ApiEndpoint::new("api.example".to_string(), addr(1, 2, 3, 4, 5), true);
    let copy = endpoint.clone();
    assert_eq!(copy.host, endpoint.host);
    assert_eq!(copy.address, endpoint.address);
    assert_eq!(copy.disable_tls, endpoint.disable_tls);
    assert_eq!(copy.force_direct, endpoint.force_direct);
}
