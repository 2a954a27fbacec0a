use mullvad_api::proxies::{
    token_request, AccountsProxy, ApiProxy, ProblemReportProxy, DEVICE_NOT_FOUND,
    INVALID_ACCESS_TOKEN, INVALID_ACCOUNT, INVALID_VOUCHER, MAX_DEVICES_REACHED, PUBKEY_IN_USE,
    VOUCHER_USED,
};
use mullvad_api::rest::{Error, Method, Request, RequestFactory, Response};

fn factory() -> RequestFactory {
    RequestFactory::new("api.example".to_string())
}

fn token() -> Result<String, Error> {
    Ok("tok".to_string())
}

fn headers(request: &Request) -> Vec<(String, String)> {
    request.headers.iter().map(|h| (h.name.clone(), h.value.clone())).collect()
}

fn bearer() -> (String, String) {
    ("authorization".to_string(), "Bearer tok".to_string())
}

fn check(
    request: Request,
    method: Method,
    path: &str,
    body: Option<&[u8]>,
    expected: u16,
    account: Option<&str>,
) {
    assert_eq!(request.method, method);
    assert_eq!(request.uri, format!("https://api.example/{}", path));
    assert_eq!(request.body.as_deref(), body);
    assert_eq!(request.expected_status, vec![expected]);
    assert_eq!(request.account.as_deref(), account);
    if account.is_some() {
        assert_eq!(headers(&request), vec![bearer()]);
    } else {
        assert!(request.headers.is_empty());
    }
}

#[test]
fn the_error_codes_of_the_api_are_spelled_as_the_api_spells_them() {
    assert_eq!(VOUCHER_USED, "VOUCHER_USED");
    assert_eq!(INVALID_VOUCHER, "INVALID_VOUCHER");
    assert_eq!(INVALID_ACCOUNT, "INVALID_ACCOUNT");
    assert_eq!(DEVICE_NOT_FOUND, "DEVICE_NOT_FOUND");
    assert_eq!(INVALID_ACCESS_TOKEN, "INVALID_ACCESS_TOKEN");
    assert_eq!(MAX_DEVICES_REACHED, "MAX_DEVICES_REACHED");
    assert_eq!(PUBKEY_IN_USE, "PUBKEY_IN_USE");
}

#[test]
fn account_data_is_asked_for_with_the_token() {
    let proxy = AccountsProxy::new(factory());
    let request = proxy.get_data_response("1234".to_string(), token()).unwrap();
    check(request, Method::Get, "accounts/v1/accounts/me", None, 200, Some("1234"));
}

#[test]
fn an_account_is_created_without_credentials() {
    let request = AccountsProxy::new(factory()).create_account_response().unwrap();
    check(request, Method::Post, "accounts/v1/accounts", None, 201, None);
}

#[test]
fn a_voucher_is_posted_as_json() {
    let request = AccountsProxy::new(factory())
        .submit_voucher("1234".to_string(), token(), b"{\"voucher_code\":\"abc\"}".to_vec())
        .unwrap();
    check(
        request,
        Method::Post,
        "app/v1/submit-voucher",
        Some(b"{\"voucher_code\":\"abc\"}"),
        200,
        Some("1234"),
    );
}

#[test]
fn deleting_an_account_repeats_the_account_number() {
    let request = AccountsProxy::new(factory()).delete_account("1234".to_string(), token()).unwrap();
    assert_eq!(request.method, Method::Delete);
    assert_eq!(request.uri, "https://api.example/accounts/v1/accounts/me");
    assert_eq!(request.expected_status, vec![204]);
    assert_eq!(request.account.as_deref(), Some("1234"));
    assert_eq!(
        headers(&request),
        vec![bearer(), ("Mullvad-Account-Number".to_string(), "1234".to_string())]
    );
}

#[test]
fn deleting_an_account_whose_number_cannot_stand_in_a_header_fails() {
    let r = AccountsProxy::new(factory()).delete_account("12\n34".to_string(), token());
    assert!(matches!(r, Err(Error::InvalidHeaderError)));
}

#[test]
fn the_store_payments_go_to_their_paths() {
    let proxy = AccountsProxy::new(factory());
    check(
        proxy.legacy_storekit_payment("1".to_string(), token(), b"r".to_vec()).unwrap(),
        Method::Post,
        "app/v1/create-apple-payment",
        Some(b"r"),
        200,
        Some("1"),
    );
    check(
        proxy.init_storekit_payment("1".to_string(), token()).unwrap(),
        Method::Post,
        "payments/apple/v2/init",
        None,
        200,
        Some("1"),
    );
    check(
        proxy.check_storekit_payment("1".to_string(), token(), b"t".to_vec()).unwrap(),
        Method::Post,
        "payments/apple/v2/check",
        Some(b"t"),
        200,
        Some("1"),
    );
    check(
        proxy.init_play_purchase("1".to_string(), token(), b"null".to_vec()).unwrap(),
        Method::Post,
        "payments/google-play/v1/init",
        Some(b"null"),
        200,
        Some("1"),
    );
    check(
        proxy.verify_play_purchase("1".to_string(), token(), b"p".to_vec()).unwrap(),
        Method::Post,
        "payments/google-play/v1/acknowledge",
        Some(b"p"),
        202,
        Some("1"),
    );
}

#[test]
fn the_website_token_is_asked_for_with_the_access_token() {
    let request = AccountsProxy::new(factory()).get_www_auth_token("1".to_string(), token()).unwrap();
    check(request, Method::Post, "app/v1/www-auth-token", None, 200, Some("1"));
}

#[test]
fn a_call_for_an_account_fails_with_the_error_of_the_token() {
    let proxy = AccountsProxy::new(factory());
    let r = proxy.get_data_response("1".to_string(), Err(Error::ApiError(429, "slow".to_string())));
    assert!(matches!(r, Err(Error::ApiError(429, m)) if m == "slow"));
    let r = proxy.get_www_auth_token("1".to_string(), Err(Error::TimeoutError));
    assert!(matches!(r, Err(Error::TimeoutError)));
}

#[test]
fn a_call_to_a_host_that_gives_no_uri_fails_before_the_token_is_looked_at() {
    let proxy = AccountsProxy::new(RequestFactory::new("not a host".to_string()));
    let r = proxy.get_data_response("1".to_string(), Err(Error::TimeoutError));
    assert!(matches!(r, Err(Error::InvalidUri)));
}

#[test]
fn a_problem_report_is_posted_as_json() {
    let request = ProblemReportProxy::new(factory()).problem_report(b"{}".to_vec()).unwrap();
    check(request, Method::Post, "app/v1/problem-report", Some(b"{}"), 204, None);
}

#[test]
fn the_addresses_of_the_api_are_fetched_and_probed() {
    let proxy = ApiProxy::new(factory());
    check(proxy.get_api_addrs_response().unwrap(), Method::Get, "app/v1/api-addrs", None, 200, None);
    check(proxy.api_addrs_available().unwrap(), Method::Head, "app/v1/api-addrs", None, 200, None);
    assert!(ApiProxy::addrs_available(&Response { status: 200, body: String::new() }));
    assert!(ApiProxy::addrs_available(&Response { status: 204, body: String::new() }));
    assert!(!ApiProxy::addrs_available(&Response { status: 404, body: String::new() }));
}

#[test]
fn a_token_is_fetched_with_a_post() {
    let request = token_request(&factory(), b"{\"account_number\":\"1234\"}".to_vec()).unwrap();
    check(
        request,
        Method::Post,
        "auth/v1/token",
        Some(b"{\"account_number\":\"1234\"}"),
        200,
        None,
    );
}
