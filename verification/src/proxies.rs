//! The typed calls to the API: for each, the request that it sends.
//!
//! A proxy describes requests and reads answers; sending is left to the
//! program, which hands each request to the request service. Where a call
//! is made for an account, the caller passes what fetching the token of the
//! account gave. Where a call has a body, the caller passes it serialised.

use crate::rest::{api_request, body_view, built, credentials_view, Error, Method, Request};
use crate::rest::{RequestFactory, Response};
use vstd::prelude::*;

verus! {

/// Error code returned by the API if the voucher has already been used.
pub const VOUCHER_USED: &'static str = "VOUCHER_USED";

/// Error code returned by the API if the voucher code is invalid.
pub const INVALID_VOUCHER: &'static str = "INVALID_VOUCHER";

/// Error code returned by the API if the account number is invalid.
pub const INVALID_ACCOUNT: &'static str = "INVALID_ACCOUNT";

/// Error code returned by the API if the device does not exist.
pub const DEVICE_NOT_FOUND: &'static str = "DEVICE_NOT_FOUND";

/// Error code returned by the API if the access token is invalid.
pub const INVALID_ACCESS_TOKEN: &'static str = "INVALID_ACCESS_TOKEN";

/// Error code returned by the API if the account has all the devices it may have.
pub const MAX_DEVICES_REACHED: &'static str = "MAX_DEVICES_REACHED";

/// Error code returned by the API if the key is in use by another device.
pub const PUBKEY_IN_USE: &'static str = "PUBKEY_IN_USE";

/// The status `200 OK`.
pub const OK: u16 = 200;

/// The status `201 Created`.
pub const CREATED: u16 = 201;

/// The status `202 Accepted`.
pub const ACCEPTED: u16 = 202;

/// The status `204 No Content`.
pub const NO_CONTENT: u16 = 204;

/// The name of the header that repeats the account number when an account is deleted.
pub open spec fn account_number_header() -> Seq<char> {
    "Mullvad-Account-Number"@
}

/// The request that a call sends which has no extra header.
pub open spec fn call(
    factory: RequestFactory,
    method: Method,
    path: Seq<char>,
    body: Option<Seq<u8>>,
    expected: u16,
    credentials: Option<(String, Result<String, Error>)>,
) -> Result<crate::rest::RequestView, Error> {
    api_request(
        factory.host(),
        factory.timeout_ms(),
        method,
        path,
        body,
        seq![expected],
        credentials_view(credentials),
        None,
    )
}

fn send(
    factory: &RequestFactory,
    method: Method,
    path: &str,
    body: Option<Vec<u8>>,
    expected: u16,
    credentials: Option<(String, Result<String, Error>)>,
) -> (r: Result<Request, Error>)
    ensures
        built(r) == call(*factory, method, path@, body_view(body), expected, credentials),
{
    let mut expected_status: Vec<u16> = Vec::new();
    expected_status.push(expected);
    assert(expected_status@ =~= seq![expected]);
    factory.api_request(method, path, body, expected_status, credentials, None)
}

/// The calls that deal with accounts.
#[derive(Debug)]
pub struct AccountsProxy {
    pub factory: RequestFactory,
}

impl AccountsProxy {
    pub fn new(factory: RequestFactory) -> (r: Self)
        ensures
            r.factory == factory,
    {
        AccountsProxy { factory }
    }

    /// Asks for the data of an account.
    pub fn get_data_response(&self, account: String, token: Result<String, Error>) -> (r: Result<
        Request,
        Error,
    >)
        ensures
            built(r) == call(
                self.factory,
                Method::Get,
                "accounts/v1/accounts/me"@,
                None,
                OK,
                Some((account, token)),
            ),
    {
        send(&self.factory, Method::Get, "accounts/v1/accounts/me", None, OK, Some((account, token)))
    }

    /// Asks for a new account.
    pub fn create_account_response(&self) -> (r: Result<Request, Error>)
        ensures
            built(r) == call(
                self.factory,
                Method::Post,
                "accounts/v1/accounts"@,
                None,
                CREATED,
                None,
            ),
    {
        send(&self.factory, Method::Post, "accounts/v1/accounts", None, CREATED, None)
    }

    /// Submits a voucher for an account. `body` is the serialised submission.
    pub fn submit_voucher(
        &self,
        account: String,
        token: Result<String, Error>,
        body: Vec<u8>,
    ) -> (r: Result<Request, Error>)
        ensures
            built(r) == call(
                self.factory,
                Method::Post,
                "app/v1/submit-voucher"@,
                Some(body@),
                OK,
                Some((account, token)),
            ),
    {
        send(
            &self.factory,
            Method::Post,
            "app/v1/submit-voucher",
            Some(body),
            OK,
            Some((account, token)),
        )
    }

    /// Asks for an account to be deleted. The account number is repeated in
    /// a header of its own.
    pub fn delete_account(&self, account: String, token: Result<String, Error>) -> (r: Result<
        Request,
        Error,
    >)
        ensures
            built(r) == api_request(
                self.factory.host(),
                self.factory.timeout_ms(),
                Method::Delete,
                "accounts/v1/accounts/me"@,
                None,
                seq![NO_CONTENT],
                Some((account@, token)),
                Some((account_number_header(), account@)),
            ),
    {
        let number = account.clone();
        let mut expected_status: Vec<u16> = Vec::new();
        expected_status.push(NO_CONTENT);
        assert(expected_status@ =~= seq![NO_CONTENT]);
        self.factory.api_request(
            Method::Delete,
            "accounts/v1/accounts/me",
            None,
            expected_status,
            Some((account, token)),
            Some(("Mullvad-Account-Number", number.as_str())),
        )
    }

    /// Reports a payment made in the app store. `body` is the serialised
    /// receipt.
    pub fn legacy_storekit_payment(
        &self,
        account: String,
        token: Result<String, Error>,
        body: Vec<u8>,
    ) -> (r: Result<Request, Error>)
        ensures
            built(r) == call(
                self.factory,
                Method::Post,
                "app/v1/create-apple-payment"@,
                Some(body@),
                OK,
                Some((account, token)),
            ),
    {
        send(
            &self.factory,
            Method::Post,
            "app/v1/create-apple-payment",
            Some(body),
            OK,
            Some((account, token)),
        )
    }

    /// Starts a payment in the app store.
    pub fn init_storekit_payment(&self, account: String, token: Result<String, Error>) -> (r:
        Result<Request, Error>)
        ensures
            built(r) == call(
                self.factory,
                Method::Post,
                "payments/apple/v2/init"@,
                None,
                OK,
                Some((account, token)),
            ),
    {
        send(&self.factory, Method::Post, "payments/apple/v2/init", None, OK, Some((account, token)))
    }

    /// Has a payment in the app store checked. `body` is the serialised
    /// transaction.
    pub fn check_storekit_payment(
        &self,
        account: String,
        token: Result<String, Error>,
        body: Vec<u8>,
    ) -> (r: Result<Request, Error>)
        ensures
            built(r) == call(
                self.factory,
                Method::Post,
                "payments/apple/v2/check"@,
                Some(body@),
                OK,
                Some((account, token)),
            ),
    {
        send(
            &self.factory,
            Method::Post,
            "payments/apple/v2/check",
            Some(body),
            OK,
            Some((account, token)),
        )
    }

    /// Starts a purchase in the play store. `body` is the serialised empty
    /// value.
    pub fn init_play_purchase(
        &self,
        account: String,
        token: Result<String, Error>,
        body: Vec<u8>,
    ) -> (r: Result<Request, Error>)
        ensures
            built(r) == call(
                self.factory,
                Method::Post,
                "payments/google-play/v1/init"@,
                Some(body@),
                OK,
                Some((account, token)),
            ),
    {
        send(
            &self.factory,
            Method::Post,
            "payments/google-play/v1/init",
            Some(body),
            OK,
            Some((account, token)),
        )
    }

    /// Has a purchase in the play store acknowledged. `body` is the
    /// serialised purchase.
    pub fn verify_play_purchase(
        &self,
        account: String,
        token: Result<String, Error>,
        body: Vec<u8>,
    ) -> (r: Result<Request, Error>)
        ensures
            built(r) == call(
                self.factory,
                Method::Post,
                "payments/google-play/v1/acknowledge"@,
                Some(body@),
                ACCEPTED,
                Some((account, token)),
            ),
    {
        send(
            &self.factory,
            Method::Post,
            "payments/google-play/v1/acknowledge",
            Some(body),
            ACCEPTED,
            Some((account, token)),
        )
    }

    /// Asks for a token that logs the account in on the website.
    pub fn get_www_auth_token(&self, account: String, token: Result<String, Error>) -> (r: Result<
        Request,
        Error,
    >)
        ensures
            built(r) == call(
                self.factory,
                Method::Post,
                "app/v1/www-auth-token"@,
                None,
                OK,
                Some((account, token)),
            ),
    {
        send(&self.factory, Method::Post, "app/v1/www-auth-token", None, OK, Some((account, token)))
    }
}

/// The call that hands in a problem report.
#[derive(Debug)]
pub struct ProblemReportProxy {
    pub factory: RequestFactory,
}

impl ProblemReportProxy {
    pub fn new(factory: RequestFactory) -> (r: Self)
        ensures
            r.factory == factory,
    {
        ProblemReportProxy { factory }
    }

    /// Hands in a problem report. `body` is the serialised report.
    pub fn problem_report(&self, body: Vec<u8>) -> (r: Result<Request, Error>)
        ensures
            built(r) == call(
                self.factory,
                Method::Post,
                "app/v1/problem-report"@,
                Some(body@),
                NO_CONTENT,
                None,
            ),
    {
        send(&self.factory, Method::Post, "app/v1/problem-report", Some(body), NO_CONTENT, None)
    }
}

/// The calls that ask the API about itself.
#[derive(Debug)]
pub struct ApiProxy {
    pub factory: RequestFactory,
}

impl ApiProxy {
    pub fn new(factory: RequestFactory) -> (r: Self)
        ensures
            r.factory == factory,
    {
        ApiProxy { factory }
    }

    /// Asks for the addresses that the API can be reached at.
    pub fn get_api_addrs_response(&self) -> (r: Result<Request, Error>)
        ensures
            built(r) == call(self.factory, Method::Get, "app/v1/api-addrs"@, None, OK, None),
    {
        send(&self.factory, Method::Get, "app/v1/api-addrs", None, OK, None)
    }

    /// Asks whether the list of addresses can be had, without fetching it.
    pub fn api_addrs_available(&self) -> (r: Result<Request, Error>)
        ensures
            built(r) == call(self.factory, Method::Head, "app/v1/api-addrs"@, None, OK, None),
    {
        send(&self.factory, Method::Head, "app/v1/api-addrs", None, OK, None)
    }

    /// Whether the answer to [`ApiProxy::api_addrs_available`] says that the
    /// list can be had: it does with a status of success.
    pub fn addrs_available(response: &Response) -> (r: bool)
        ensures
            r == (200 <= response.status <= 299),
    {
        response.is_success()
    }
}

/// The request that fetches an access token. `body` is the serialised
/// account number.
pub fn token_request(factory: &RequestFactory, body: Vec<u8>) -> (r: Result<Request, Error>)
    ensures
        built(r) == call(*factory, Method::Post, "auth/v1/token"@, Some(body@), OK, None),
{
    send(factory, Method::Post, "auth/v1/token", Some(body), OK, None)
}

} // verus!
