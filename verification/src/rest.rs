//! Requests to the API: how one is described, what it is sent with, and how
//! the outcome of its exchange on the wire is judged.

use crate::access::AccessTokenStore;
use crate::address_cache::{cache_file_contents, AddressCache, AddressCacheView, CacheWrite};
use crate::availability::{ApiAvailability, AvailabilityView};
use crate::dns::{DnsResolver, ResolveError};
use crate::net::{number_text, SocketAddress};
use crate::proxy::{ApiConnectionMode, ConnectionModeProvider};
use vstd::prelude::*;
use vstd::string::StringExecFns;

verus! {

/// The time a request may take unless it says otherwise, in milliseconds.
pub const DEFAULT_TIMEOUT_MS: u64 = 10000;

/// The status `401 Unauthorized`.
pub const UNAUTHORIZED: u16 = 401;

/// The status `403 Forbidden`.
pub const FORBIDDEN: u16 = 403;

/// The method of a request.
#[derive(Clone, Copy, Debug, PartialEq, Eq, Structural)]
pub enum Method {
    Get,
    Post,
    Put,
    Head,
    Delete,
}

/// What can go wrong with a request.
#[derive(Debug)]
pub enum Error {
    /// The request was dropped before it was answered.
    Aborted,
    /// The connection could not be made or broke. Holds a description.
    HyperError(String),
    /// The host name of the API could not be resolved.
    ResolutionError,
    /// The secure channel could not be set up. Holds a description.
    TlsError(String),
    /// The request took longer than it may.
    TimeoutError,
    /// A header name or value is not allowed in a request.
    InvalidHeaderError,
    /// The host and path give no valid address of a resource.
    InvalidUri,
    /// The body of the response is not of the expected shape. Holds a description.
    DeserializeError(String),
    /// The API answered with a status that the caller does not accept. Holds
    /// the status and the body of the response.
    ApiError(u16, String),
}

/// A header of a request.
#[derive(Debug)]
pub struct Header {
    pub name: String,
    pub value: String,
}

/// A request that has been described and not yet sent.
#[derive(Debug)]
pub struct Request {
    pub method: Method,
    pub uri: String,
    /// The body, already serialised.
    pub body: Option<Vec<u8>>,
    pub headers: Vec<Header>,
    /// The statuses that the caller takes as success.
    pub expected_status: Vec<u16>,
    /// The account that the request is made for, if it is made for one.
    pub account: Option<String>,
    pub timeout_ms: u64,
}

/// The abstract value of a request.
pub struct RequestView {
    pub method: Method,
    pub uri: Seq<char>,
    pub body: Option<Seq<u8>>,
    pub headers: Seq<(Seq<char>, Seq<char>)>,
    pub expected_status: Seq<u16>,
    pub account: Option<Seq<char>>,
    pub timeout_ms: u64,
}

impl View for Request {
    type V = RequestView;

    open spec fn view(&self) -> RequestView {
        RequestView {
            method: self.method,
            uri: self.uri@,
            body: match self.body {
                Some(b) => Some(b@),
                None => None,
            },
            headers: self.headers@.map_values(|h: Header| (h.name@, h.value@)),
            expected_status: self.expected_status@,
            account: match self.account {
                Some(a) => Some(a@),
                None => None,
            },
            timeout_ms: self.timeout_ms,
        }
    }
}

/// The response to a request.
#[derive(Debug)]
pub struct Response {
    pub status: u16,
    pub body: String,
}

/// Whether a character may stand in the value of a header: a tab, or any
/// character from the blank on but the delete character.
pub open spec fn header_value_char(c: char) -> bool {
    c as u32 == 9 || (c as u32 >= 32 && c as u32 != 127)
}

/// Whether a text may be the value of a header.
pub open spec fn valid_header_value(value: Seq<char>) -> bool {
    forall|i: int| 0 <= i < value.len() ==> header_value_char(#[trigger] value[i])
}

/// Whether a character may stand in the name of a header: a letter, a digit
/// or one of ``!#$%&'*+-.^_`|~``.
pub open spec fn header_name_char(c: char) -> bool {
    let u = c as u32;
    ||| u == 33
    ||| 35 <= u <= 39
    ||| u == 42
    ||| u == 43
    ||| u == 45
    ||| u == 46
    ||| 48 <= u <= 57
    ||| 65 <= u <= 90
    ||| 94 <= u <= 122
    ||| u == 124
    ||| u == 126
}

/// Whether a text may be the name of a header.
pub open spec fn valid_header_name(name: Seq<char>) -> bool {
    &&& 1 <= name.len() <= 65535
    &&& forall|i: int| 0 <= i < name.len() ==> header_name_char(#[trigger] name[i])
}

/// Whether the URI parser of the HTTP library takes the text as a URI.
pub uninterp spec fn uri_accepted(text: Seq<char>) -> bool;

/// The digits of `n` as characters.
pub open spec fn decimal_chars(n: nat) -> Seq<char> {
    number_text(n, 10).map_values(|b: u8| b as char)
}

/// Asks `hyper::header::HeaderValue::from_str` whether it takes the text. It
/// takes a text exactly when each of its bytes is a tab or is at least 32 and
/// not 127; the bytes of a character beyond ASCII are all above 127.
#[verifier::external_body]
fn header_value_accepted(value: &str) -> (r: bool)
    ensures
        r == valid_header_value(value@),
{
    hyper::header::HeaderValue::from_str(value).is_ok()
}

/// Asks `hyper::header::HeaderName::from_bytes` whether it takes the text. It
/// takes a text of 1 to 65535 bytes each of which its table of header
/// characters maps to a character, which are the letters, the digits and
/// ``!#$%&'*+-.^_`|~``.
#[verifier::external_body]
fn header_name_accepted(name: &str) -> (r: bool)
    ensures
        r == valid_header_name(name@),
{
    hyper::header::HeaderName::from_bytes(name.as_bytes()).is_ok()
}

/// Asks the parser of `hyper::Uri` whether it takes the text.
#[verifier::external_body]
fn uri_is_accepted(text: &str) -> (r: bool)
    ensures
        r == uri_accepted(text@),
{
    text.parse::<hyper::Uri>().is_ok()
}

/// Asks `hyper::StatusCode::is_success` whether a status is one of success,
/// which are those from 200 to 299. A number that is no status is none.
#[verifier::external_body]
fn status_is_success(code: u16) -> (r: bool)
    ensures
        r == (200 <= code <= 299),
{
    match hyper::StatusCode::from_u16(code) {
        Ok(status) => status.is_success(),
        Err(_) => false,
    }
}

/// Writes a number in decimal with `u16::to_string`.
#[verifier::external_body]
fn decimal_string(n: u16) -> (r: String)
    ensures
        r@ == decimal_chars(n as nat),
{
    n.to_string()
}

impl Clone for Error {
    fn clone(&self) -> (r: Self)
        ensures
            r == *self,
    {
        match self {
            Error::Aborted => Error::Aborted,
            Error::HyperError(d) => Error::HyperError(d.clone()),
            Error::ResolutionError => Error::ResolutionError,
            Error::TlsError(d) => Error::TlsError(d.clone()),
            Error::TimeoutError => Error::TimeoutError,
            Error::InvalidHeaderError => Error::InvalidHeaderError,
            Error::InvalidUri => Error::InvalidUri,
            Error::DeserializeError(d) => Error::DeserializeError(d.clone()),
            Error::ApiError(status, message) => Error::ApiError(*status, message.clone()),
        }
    }
}

impl Error {
    /// Whether the error says that the API could not be reached: the host did
    /// not resolve, the connection or the secure channel failed, or the time
    /// ran out. Such an error is reported to the availability tracker; no
    /// other is.
    pub open spec fn is_connectivity_spec(self) -> bool {
        self is HyperError || self is ResolutionError || self is TlsError || self is TimeoutError
    }

    /// Whether the error says that the API could not be reached.
    pub fn is_connectivity(&self) -> (r: bool)
        ensures
            r == self.is_connectivity_spec(),
    {
        match self {
            Error::HyperError(_) => true,
            Error::ResolutionError => true,
            Error::TlsError(_) => true,
            Error::TimeoutError => true,
            _ => false,
        }
    }

    /// Whether the error is the API refusing the credentials of the request.
    pub open spec fn is_rejection_spec(self) -> bool {
        self matches Error::ApiError(status, _) && (status == UNAUTHORIZED || status == FORBIDDEN)
    }

    /// Whether the error is the API refusing the credentials of the request,
    /// with status 401 or 403.
    pub fn is_rejection(&self) -> (r: bool)
        ensures
            r == self.is_rejection_spec(),
    {
        match self {
            Error::ApiError(status, _) => *status == UNAUTHORIZED || *status == FORBIDDEN,
            _ => false,
        }
    }

    /// The words that describe the error.
    pub open spec fn description(self) -> Seq<char> {
        match self {
            Error::Aborted => "Request cancelled"@,
            Error::HyperError(_) => "Hyper error"@,
            Error::ResolutionError => "DNS resolution error"@,
            Error::TlsError(_) => "Failed to set up the TLS connection"@,
            Error::TimeoutError => "Request timed out"@,
            Error::InvalidHeaderError => "Invalid header value"@,
            Error::InvalidUri => "Not a valid URI"@,
            Error::DeserializeError(_) => "Failed to deserialize data"@,
            Error::ApiError(status, message) => "Unexpected response status code "@
                + decimal_chars(status as nat) + " - "@ + message@,
        }
    }

    /// The words that describe the error.
    pub fn describe(&self) -> (r: String)
        ensures
            r@ == self.description(),
    {
        match self {
            Error::Aborted => String::from_str("Request cancelled"),
            Error::HyperError(_) => String::from_str("Hyper error"),
            Error::ResolutionError => String::from_str("DNS resolution error"),
            Error::TlsError(_) => String::from_str("Failed to set up the TLS connection"),
            Error::TimeoutError => String::from_str("Request timed out"),
            Error::InvalidHeaderError => String::from_str("Invalid header value"),
            Error::InvalidUri => String::from_str("Not a valid URI"),
            Error::DeserializeError(_) => String::from_str("Failed to deserialize data"),
            Error::ApiError(status, message) => {
                let number = decimal_string(*status);
                String::from_str("Unexpected response status code ").concat(
                    number.as_str(),
                ).concat(" - ").concat(message.as_str())
            },
        }
    }
}

impl Response {
    /// The status of the response.
    pub fn status(&self) -> (r: u16)
        ensures
            r == self.status,
    {
        self.status
    }

    /// Whether the status is one of success, from 200 to 299.
    pub fn is_success(&self) -> (r: bool)
        ensures
            r == (200 <= self.status <= 299),
    {
        status_is_success(self.status)
    }
}


/// The address of the resource at `path` on `host`.
pub open spec fn request_uri(host: Seq<char>, path: Seq<char>) -> Seq<char> {
    "https://"@ + host + "/"@ + path
}

/// The value of the header that carries an access token.
pub open spec fn bearer(token: Seq<char>) -> Seq<char> {
    "Bearer "@ + token
}

/// The name of the header that carries an access token.
pub open spec fn authorization() -> Seq<char> {
    "authorization"@
}

impl RequestView {
    /// A request with nothing but a method and an address.
    pub open spec fn bare(method: Method, uri: Seq<char>, timeout_ms: u64) -> RequestView {
        RequestView {
            method,
            uri,
            body: None,
            headers: Seq::empty(),
            expected_status: Seq::empty(),
            account: None,
            timeout_ms,
        }
    }

    /// Whether the caller takes `status` as success.
    pub open spec fn accepts(self, status: u16) -> bool {
        self.expected_status.contains(status)
    }

    /// The request with one more header.
    pub open spec fn with_header(self, name: Seq<char>, value: Seq<char>) -> RequestView {
        RequestView { headers: self.headers.push((name, value)), ..self }
    }
}

impl Request {
    /// The request with the statuses that the caller takes as success.
    pub fn expected_status(self, expected: Vec<u16>) -> (r: Request)
        ensures
            r@ == (RequestView { expected_status: expected@, ..self@ }),
    {
        let mut request = self;
        request.expected_status = expected;
        request
    }

    /// The request with the time it may take, in milliseconds.
    pub fn timeout(self, timeout_ms: u64) -> (r: Request)
        ensures
            r@ == (RequestView { timeout_ms, ..self@ }),
    {
        let mut request = self;
        request.timeout_ms = timeout_ms;
        request
    }

    /// The request with a body that is already serialised.
    pub fn body(self, body: Vec<u8>) -> (r: Request)
        ensures
            r@ == (RequestView { body: Some(body@), ..self@ }),
    {
        let mut request = self;
        request.body = Some(body);
        request
    }

    /// The request with one more header. Fails, and gives no request, unless
    /// the name and the value are allowed in a header.
    pub fn header(self, name: &str, value: &str) -> (r: Result<Request, Error>)
        ensures
            match r {
                Ok(request) => valid_header_name(name@) && valid_header_value(value@) && request@
                    == self@.with_header(name@, value@),
                Err(e) => !(valid_header_name(name@) && valid_header_value(value@)) && e
                    is InvalidHeaderError,
            },
    {
        if !header_name_accepted(name) || !header_value_accepted(value) {
            return Err(Error::InvalidHeaderError);
        }
        let mut request = self;
        let ghost before = request.headers@;
        request.headers.push(Header { name: String::from_str(name), value: String::from_str(value) });
        proof {
            let f = |h: Header| (h.name@, h.value@);
            assert(request.headers@.map_values(f) =~= before.map_values(f).push((name@, value@)));
        }
        Ok(request)
    }

    /// The request made for an account, with the access token of the
    /// account as its credential. `token` is what asking the token store, and
    /// fetching a token where it had none, gave. Where that failed the
    /// request fails with the same error, and is never sent.
    pub fn account(self, account: String, token: Result<String, Error>) -> (r: Result<
        Request,
        Error,
    >)
        ensures
            match token {
                Ok(t) => match r {
                    Ok(request) => valid_header_value(bearer(t@)) && request@ == (RequestView {
                        account: Some(account@),
                        ..self@.with_header(authorization(), bearer(t@))
                    }),
                    Err(e) => !valid_header_value(bearer(t@)) && e is InvalidHeaderError,
                },
                Err(e) => r == Err::<Request, Error>(e),
            },
    {
        match token {
            Err(e) => Err(e),
            Ok(t) => {
                let value = String::from_str("Bearer ").concat(t.as_str());
                if !header_value_accepted(value.as_str()) {
                    return Err(Error::InvalidHeaderError);
                }
                let mut request = self;
                let ghost before = request.headers@;
                request.headers.push(Header { name: String::from_str("authorization"), value });
                request.account = Some(account);
                proof {
                    let f = |h: Header| (h.name@, h.value@);
                    assert(request.headers@.map_values(f) =~= before.map_values(f).push(
                        (authorization(), bearer(t@)),
                    ));
                }
                Ok(request)
            },
        }
    }

    /// Whether the caller takes `status` as success.
    pub fn accepts(&self, status: u16) -> (r: bool)
        ensures
            r == self@.accepts(status),
    {
        let mut i: usize = 0;
        while i < self.expected_status.len()
            invariant
                i <= self.expected_status.len(),
                forall|k: int| 0 <= k < i ==> self.expected_status@[k] != status,
            decreases self.expected_status.len() - i,
        {
            if self.expected_status[i] == status {
                return true;
            }
            i = i + 1;
        }
        false
    }
}

/// Builds requests to one host.
#[derive(Debug)]
pub struct RequestFactory {
    hostname: String,
    default_timeout_ms: u64,
}

impl RequestFactory {
    /// The host that the requests go to.
    pub closed spec fn host(self) -> Seq<char> {
        self.hostname@
    }

    /// The time that a request of this factory may take, in milliseconds.
    pub closed spec fn timeout_ms(self) -> u64 {
        self.default_timeout_ms
    }

    /// A factory of requests to `hostname`.
    pub fn new(hostname: String) -> (r: Self)
        ensures
            r.host() == hostname@,
            r.timeout_ms() == DEFAULT_TIMEOUT_MS,
    {
        RequestFactory { hostname, default_timeout_ms: DEFAULT_TIMEOUT_MS }
    }

    /// The factory with another time for its requests.
    pub fn default_timeout(self, timeout_ms: u64) -> (r: Self)
        ensures
            r.host() == self.host(),
            r.timeout_ms() == timeout_ms,
    {
        let mut factory = self;
        factory.default_timeout_ms = timeout_ms;
        factory
    }

    /// The address of the resource at `path` on the host of this factory.
    pub fn uri(&self, path: &str) -> (r: String)
        ensures
            r@ == request_uri(self.host(), path@),
    {
        String::from_str("https://").concat(self.hostname.as_str()).concat("/").concat(path)
    }

    /// The request for `uri`, given whether `uri` is a valid address.
    pub fn build(&self, uri: String, method: Method, uri_is_valid: bool) -> (r: Result<
        Request,
        Error,
    >)
        ensures
            match r {
                Ok(request) => uri_is_valid && request@ == RequestView::bare(
                    method,
                    uri@,
                    self.timeout_ms(),
                ),
                Err(e) => !uri_is_valid && e is InvalidUri,
            },
    {
        if !uri_is_valid {
            return Err(Error::InvalidUri);
        }
        let request = Request {
            method,
            uri,
            body: None,
            headers: Vec::new(),
            expected_status: Vec::new(),
            account: None,
            timeout_ms: self.default_timeout_ms,
        };
        assert(request@.headers =~= Seq::empty());
        Ok(request)
    }

    /// A request with the given method for the resource at `path`. Fails where
    /// host and path give no valid address.
    pub fn request(&self, path: &str, method: Method) -> (r: Result<Request, Error>)
        ensures
            match r {
                Ok(request) => uri_accepted(request_uri(self.host(), path@)) && request@
                    == RequestView::bare(
                    method,
                    request_uri(self.host(), path@),
                    self.timeout_ms(),
                ),
                Err(e) => !uri_accepted(request_uri(self.host(), path@)) && e is InvalidUri,
            },
    {
        let uri = self.uri(path);
        let valid = uri_is_accepted(uri.as_str());
        self.build(uri, method, valid)
    }

    /// A request to read the resource at `path`.
    pub fn get(&self, path: &str) -> (r: Result<Request, Error>)
        ensures
            match r {
                Ok(request) => uri_accepted(request_uri(self.host(), path@)) && request@
                    == RequestView::bare(
                    Method::Get,
                    request_uri(self.host(), path@),
                    self.timeout_ms(),
                ),
                Err(e) => !uri_accepted(request_uri(self.host(), path@)) && e is InvalidUri,
            },
    {
        self.request(path, Method::Get)
    }

    /// A request to post to the resource at `path`, without a body.
    pub fn post(&self, path: &str) -> (r: Result<Request, Error>)
        ensures
            match r {
                Ok(request) => uri_accepted(request_uri(self.host(), path@)) && request@
                    == RequestView::bare(
                    Method::Post,
                    request_uri(self.host(), path@),
                    self.timeout_ms(),
                ),
                Err(e) => !uri_accepted(request_uri(self.host(), path@)) && e is InvalidUri,
            },
    {
        self.request(path, Method::Post)
    }

    /// A request to put to the resource at `path`, without a body.
    pub fn put(&self, path: &str) -> (r: Result<Request, Error>)
        ensures
            match r {
                Ok(request) => uri_accepted(request_uri(self.host(), path@)) && request@
                    == RequestView::bare(
                    Method::Put,
                    request_uri(self.host(), path@),
                    self.timeout_ms(),
                ),
                Err(e) => !uri_accepted(request_uri(self.host(), path@)) && e is InvalidUri,
            },
    {
        self.request(path, Method::Put)
    }

    /// A request for the headers of the resource at `path`.
    pub fn head(&self, path: &str) -> (r: Result<Request, Error>)
        ensures
            match r {
                Ok(request) => uri_accepted(request_uri(self.host(), path@)) && request@
                    == RequestView::bare(
                    Method::Head,
                    request_uri(self.host(), path@),
                    self.timeout_ms(),
                ),
                Err(e) => !uri_accepted(request_uri(self.host(), path@)) && e is InvalidUri,
            },
    {
        self.request(path, Method::Head)
    }

    /// A request to delete the resource at `path`.
    pub fn delete(&self, path: &str) -> (r: Result<Request, Error>)
        ensures
            match r {
                Ok(request) => uri_accepted(request_uri(self.host(), path@)) && request@
                    == RequestView::bare(
                    Method::Delete,
                    request_uri(self.host(), path@),
                    self.timeout_ms(),
                ),
                Err(e) => !uri_accepted(request_uri(self.host(), path@)) && e is InvalidUri,
            },
    {
        self.request(path, Method::Delete)
    }

    /// A request to post the serialised JSON value `body` to the resource at
    /// `path`.
    pub fn post_json_bytes(&self, path: &str, body: Vec<u8>) -> (r: Result<Request, Error>)
        ensures
            match r {
                Ok(request) => uri_accepted(request_uri(self.host(), path@)) && request@
                    == (RequestView {
                    body: Some(body@),
                    ..RequestView::bare(
                        Method::Post,
                        request_uri(self.host(), path@),
                        self.timeout_ms(),
                    )
                }),
                Err(e) => !uri_accepted(request_uri(self.host(), path@)) && e is InvalidUri,
            },
    {
        match self.request(path, Method::Post) {
            Ok(request) => Ok(request.body(body)),
            Err(e) => Err(e),
        }
    }
}


/// What came of sending a request.
#[derive(Debug)]
pub enum Exchange {
    /// The API answered, with whatever status.
    Completed(Response),
    /// The time of the request ran out.
    TimedOut,
    /// The host name of the API could not be resolved.
    ResolutionFailed,
    /// The connection could not be made or broke. Holds a description.
    ConnectFailed(String),
    /// The secure channel could not be set up. Holds a description.
    TlsFailed(String),
}

/// How one attempt of a request is to be made.
#[derive(Clone, Copy, Debug, PartialEq, Eq, Structural)]
pub struct Attempt {
    /// The transport to use.
    pub mode: ApiConnectionMode,
    /// The address of the API.
    pub address: SocketAddress,
    /// Whether the connection is secured with TLS.
    pub use_tls: bool,
    /// The time that the attempt may take, in milliseconds.
    pub timeout_ms: u64,
}

/// How a request goes on when it asks to begin.
#[derive(Clone, Copy, Debug, PartialEq, Eq, Structural)]
pub enum Start {
    /// The API is not online. The request stays pending: it is registered as
    /// a waiter with the tracker and asks again once it is released.
    Pending,
    /// The address was needed and the host name of the API did not resolve.
    Unresolved,
    /// The attempt to make.
    Attempt(Attempt),
}

impl Start {
    /// The attempt to make, if there is one.
    pub open spec fn attempt(self) -> Option<Attempt> {
        match self {
            Start::Attempt(attempt) => Some(attempt),
            _ => None,
        }
    }
}

/// What finishing a request gives: the answer for the caller, and what is
/// left for the program to carry out.
#[derive(Debug)]
pub struct Completion {
    /// The answer for the caller of the request.
    pub result: Result<Response, Error>,
    /// The waiters to wake, now that the API is known to be reachable.
    pub released: Vec<u64>,
    /// The cache file to overwrite, where the cached address has changed.
    pub write: Option<CacheWrite>,
}

/// The answer that the caller of a request gets for an exchange. A response
/// with a status that the caller accepts is handed on. A response with any
/// other status is an error that holds the status and the body. Each way in
/// which the exchange can fail has an error of its own.
pub open spec fn judged(expected_status: Seq<u16>, exchange: Exchange) -> Result<Response, Error> {
    match exchange {
        Exchange::Completed(response) => if expected_status.contains(response.status) {
            Ok(response)
        } else {
            Err(Error::ApiError(response.status, response.body))
        },
        Exchange::TimedOut => Err(Error::TimeoutError),
        Exchange::ResolutionFailed => Err(Error::ResolutionError),
        Exchange::ConnectFailed(description) => Err(Error::HyperError(description)),
        Exchange::TlsFailed(description) => Err(Error::TlsError(description)),
    }
}

/// The address that a request is sent to. An address that the endpoint
/// overrides comes before all others. Without one, the first address that the
/// resolver found is taken, and the cached address where it found none.
pub open spec fn target_address(
    address_override: Option<SocketAddress>,
    resolved: Seq<SocketAddress>,
    cached: SocketAddress,
) -> SocketAddress {
    match address_override {
        Some(address) => address,
        None => if resolved.len() > 0 {
            resolved[0]
        } else {
            cached
        },
    }
}

/// The tracker after an exchange: any answer of the API counts as a success,
/// whatever its status, and only a failure to get an answer as a failure.
pub open spec fn availability_after(before: AvailabilityView, exchange: Exchange) -> AvailabilityView {
    if exchange is Completed {
        before.report_success()
    } else {
        before.report_failure()
    }
}

/// Whether an exchange ends in an answer that the caller of the request accepts.
pub open spec fn succeeded(expected_status: Seq<u16>, exchange: Exchange) -> bool {
    exchange matches Exchange::Completed(response) && expected_status.contains(response.status)
}

/// The cached address after an exchange: the address that was used where the
/// request succeeded, the same as before in every other case.
pub open spec fn cached_after(
    before: SocketAddress,
    used: SocketAddress,
    expected_status: Seq<u16>,
    exchange: Exchange,
) -> SocketAddress {
    if succeeded(expected_status, exchange) {
        used
    } else {
        before
    }
}

/// The tokens after a request: the token of the account that the request was
/// made for is dropped where the API refused it with status 401 or 403.
pub open spec fn tokens_after(
    before: Map<Seq<char>, Seq<char>>,
    account: Option<Seq<char>>,
    result: Result<Response, Error>,
) -> Map<Seq<char>, Seq<char>> {
    match (account, result) {
        (Some(a), Err(e)) => if e.is_rejection_spec() {
            before.remove(a)
        } else {
            before
        },
        _ => before,
    }
}

/// Judges an exchange for the caller of the request.
pub fn judge(request: &Request, exchange: Exchange) -> (r: Result<Response, Error>)
    ensures
        r == judged(request@.expected_status, exchange),
{
    match exchange {
        Exchange::Completed(response) => {
            if request.accepts(response.status) {
                Ok(response)
            } else {
                Err(Error::ApiError(response.status, response.body))
            }
        },
        Exchange::TimedOut => Err(Error::TimeoutError),
        Exchange::ResolutionFailed => Err(Error::ResolutionError),
        Exchange::ConnectFailed(description) => Err(Error::HyperError(description)),
        Exchange::TlsFailed(description) => Err(Error::TlsError(description)),
    }
}

/// Picks the address to send a request to.
pub fn pick_address(
    address_override: Option<SocketAddress>,
    resolved: &Vec<SocketAddress>,
    cached: SocketAddress,
) -> (r: SocketAddress)
    ensures
        r == target_address(address_override, resolved@, cached),
{
    match address_override {
        Some(address) => address,
        None => if resolved.len() > 0 {
            resolved[0]
        } else {
            cached
        },
    }
}

/// Who resolves the host name of the API for a request service.
#[derive(Debug)]
pub enum Resolver<R> {
    /// The address cache of the runtime.
    Cache,
    /// A resolver that the service was given.
    Custom(R),
}

/// The settings of a request service that no request changes.
pub struct ServiceConfig {
    /// The host name of the API.
    pub host: Seq<char>,
    /// The address that the endpoint overrides, if any.
    pub address_override: Option<SocketAddress>,
    /// Whether connections are made without TLS.
    pub disable_tls: bool,
    /// Whether bridges and proxies are left unused.
    pub force_direct: bool,
}

/// Carries out requests: decides how each attempt is made, and what follows
/// from its outcome for the caller, the availability tracker, the address
/// cache and the token store.
#[derive(Debug)]
pub struct RequestService<P, R> {
    provider: P,
    resolver: Resolver<R>,
    host: String,
    address_override: Option<SocketAddress>,
    disable_tls: bool,
    force_direct: bool,
}

impl<P: ConnectionModeProvider, R: DnsResolver> RequestService<P, R> {
    /// The settings of the service.
    pub closed spec fn config(self) -> ServiceConfig {
        ServiceConfig {
            host: self.host@,
            address_override: self.address_override,
            disable_tls: self.disable_tls,
            force_direct: self.force_direct,
        }
    }

    /// Whether the service resolves the host name with the address cache.
    pub closed spec fn resolves_with_cache(self) -> bool {
        self.resolver is Cache
    }

    /// The provider of connection modes, as it is now.
    pub closed spec fn provider(self) -> P {
        self.provider
    }

    /// Who resolves the host name for the service.
    pub closed spec fn resolver(self) -> Resolver<R> {
        self.resolver
    }

    /// A service for the API at `host`.
    pub fn spawn(
        provider: P,
        resolver: Resolver<R>,
        host: String,
        address_override: Option<SocketAddress>,
        disable_tls: bool,
        force_direct: bool,
    ) -> (r: Self)
        ensures
            r.config() == (ServiceConfig {
                host: host@,
                address_override,
                disable_tls,
                force_direct,
            }),
            r.resolves_with_cache() == (resolver is Cache),
            r.provider() == provider,
            r.resolver() == resolver,
    {
        RequestService { provider, resolver, host, address_override, disable_tls, force_direct }
    }

    /// The attempt that follows from a connection mode and from what
    /// resolving the host name gave. A failed resolution fails the request
    /// unless the address is overridden, in which case nothing hangs on it.
    pub fn plan(
        &self,
        request: &Request,
        mode: ApiConnectionMode,
        resolved: Result<Vec<SocketAddress>, ResolveError>,
        cached: SocketAddress,
    ) -> (r: Option<Attempt>)
        ensures
            r == planned(self.config(), request@.timeout_ms, mode, resolved, cached),
    {
        let mode = if self.force_direct {
            ApiConnectionMode::Direct
        } else {
            mode
        };
        let address = match self.address_override {
            Some(address) => address,
            None => match resolved {
                Ok(found) => pick_address(None, &found, cached),
                Err(_) => {
                    return None;
                },
            },
        };
        Some(Attempt { mode, address, use_tls: !self.disable_tls, timeout_ms: request.timeout_ms })
    }

    /// Decides how `request` goes on. While the API is not online the request
    /// stays pending: `waiter` is registered with the tracker, and neither
    /// the provider nor the resolver is asked. Once it is online, the provider
    /// is asked for the connection mode, unless only direct connections are
    /// allowed, and the resolver for the address, unless the address is
    /// overridden. Where the address was needed and the resolver failed the
    /// request is unresolved.
    pub fn begin(
        &mut self,
        request: &Request,
        cache: &AddressCache,
        availability: &mut ApiAvailability,
        waiter: u64,
    ) -> (r: Start)
        ensures
            final(self).config() == old(self).config(),
            final(self).resolves_with_cache() == old(self).resolves_with_cache(),
            final(self).resolver() == old(self).resolver(),
            final(availability)@ == old(availability)@.wait(waiter),
            (r is Pending) == (old(availability)@.state() != crate::availability::State::Online),
            r is Pending || old(self).config().force_direct ==> final(self).provider() == old(
                self,
            ).provider(),
            !(r is Pending) ==> {
                &&& exists|
                    mode: ApiConnectionMode,
                    resolved: Result<Vec<SocketAddress>, ResolveError>,
                |
                    r.attempt() == #[trigger] planned(
                        old(self).config(),
                        request@.timeout_ms,
                        mode,
                        resolved,
                        cache@.address,
                    )
                &&& match r.attempt() {
                    Some(attempt) => {
                        &&& attempt.use_tls == !old(self).config().disable_tls
                        &&& attempt.timeout_ms == request@.timeout_ms
                        &&& old(self).config().force_direct ==> attempt.mode
                            == ApiConnectionMode::Direct
                        &&& match old(self).config().address_override {
                            Some(address) => attempt.address == address,
                            None => old(self).resolves_with_cache() ==> attempt.address
                                == cache@.address && old(self).config().host == cache@.hostname,
                        }
                    },
                    None => old(self).config().address_override is None && !(
                    old(self).resolves_with_cache() && old(self).config().host
                        == cache@.hostname),
                }
            },
    {
        if !availability.wait_for_online(waiter) {
            return Start::Pending;
        }
        let mode = if self.force_direct {
            ApiConnectionMode::Direct
        } else {
            self.provider.get_connection_mode()
        };
        let resolved = if self.address_override.is_some() {
            Ok(Vec::new())
        } else {
            match &self.resolver {
                Resolver::Cache => cache.resolve(self.host.as_str()),
                Resolver::Custom(resolver) => resolver.resolve(self.host.as_str()),
            }
        };
        let ghost asked = resolved;
        let attempt = self.plan(request, mode, resolved, cache.current());
        assert(attempt == planned(
            self.config(),
            request@.timeout_ms,
            mode,
            asked,
            cache@.address,
        ));
        match attempt {
            Some(attempt) => Start::Attempt(attempt),
            None => Start::Unresolved,
        }
    }

    /// Ends a request that [`RequestService::begin`] found unresolved: the
    /// host name of the API did not resolve, so the caller gets the
    /// error of that, and the tracker hears of a failure.
    pub fn unresolved(&self, availability: &mut ApiAvailability) -> (r: Completion)
        ensures
            r.result == Err::<Response, Error>(Error::ResolutionError),
            final(availability)@ == old(availability)@.report_failure(),
            r.released@.len() == 0,
            r.write is None,
    {
        availability.report_failure();
        Completion { result: Err(Error::ResolutionError), released: Vec::new(), write: None }
    }

    /// Draws the consequences of an exchange.
    ///
    /// The caller of the request gets the response where its status is one
    /// that the request accepts, and an error in every other case. The
    /// tracker hears of a success whenever the API answered and of a failure
    /// whenever it did not. Where the request succeeded at another address
    /// than the cached one, the cache takes that address. Where the API
    /// refused the credentials of an account, the token of the account is
    /// dropped.
    pub fn finish(
        &self,
        request: &Request,
        attempt: &Attempt,
        exchange: Exchange,
        availability: &mut ApiAvailability,
        cache: &mut AddressCache,
        tokens: &mut AccessTokenStore,
    ) -> (r: Completion)
        ensures
            r.result == judged(request@.expected_status, exchange),
            final(availability)@ == availability_after(old(availability)@, exchange),
            r.released@ == if exchange is Completed {
                old(availability)@.released(final(availability)@)
            } else {
                Seq::<u64>::empty()
            },
            final(cache)@ == (AddressCacheView {
                address: cached_after(
                    old(cache)@.address,
                    attempt.address,
                    request@.expected_status,
                    exchange,
                ),
                ..old(cache)@
            }),
            match r.write {
                Some(write) => {
                    &&& succeeded(request@.expected_status, exchange)
                    &&& attempt.address != old(cache)@.address
                    &&& old(cache)@.write_path == Some(write.path@)
                    &&& write.contents@ == cache_file_contents(attempt.address)
                },
                None => !succeeded(request@.expected_status, exchange) || attempt.address == old(
                    cache,
                )@.address || old(cache)@.write_path is None,
            },
            final(tokens)@ == tokens_after(old(tokens)@, request@.account, r.result),
    {
        let answered = match &exchange {
            Exchange::Completed(_) => true,
            _ => false,
        };
        let result = judge(request, exchange);
        let released = if answered {
            availability.report_success()
        } else {
            availability.report_failure();
            Vec::new()
        };
        let write = if result.is_ok() && attempt.address != cache.current() {
            cache.set_address(attempt.address)
        } else {
            None
        };
        match (&request.account, &result) {
            (Some(account), Err(e)) => {
                if e.is_rejection() {
                    tokens.invalidate(account.as_str());
                }
            },
            _ => {},
        }
        Completion { result, released, write }
    }
}

/// The attempt that follows from the settings of a service, a connection mode
/// and what resolving the host name gave.
pub open spec fn planned(
    config: ServiceConfig,
    timeout_ms: u64,
    mode: ApiConnectionMode,
    resolved: Result<Vec<SocketAddress>, ResolveError>,
    cached: SocketAddress,
) -> Option<Attempt> {
    let mode = if config.force_direct {
        ApiConnectionMode::Direct
    } else {
        mode
    };
    match (config.address_override, resolved) {
        (None, Err(_)) => None,
        (address_override, found) => Some(
            Attempt {
                mode,
                address: target_address(
                    address_override,
                    match found {
                        Ok(v) => v@,
                        Err(_) => Seq::empty(),
                    },
                    cached,
                ),
                use_tls: !config.disable_tls,
                timeout_ms,
            },
        ),
    }
}


impl Clone for RequestFactory {
    fn clone(&self) -> (r: Self)
        ensures
            r.host() == self.host(),
            r.timeout_ms() == self.timeout_ms(),
    {
        RequestFactory {
            hostname: self.hostname.clone(),
            default_timeout_ms: self.default_timeout_ms,
        }
    }
}

/// What the typed proxies of the API work with: the service that carries out
/// requests, the factory that describes them, and the store of the tokens
/// that authenticate them.
#[derive(Debug)]
pub struct MullvadRestHandle<P, R> {
    pub service: RequestService<P, R>,
    pub factory: RequestFactory,
    pub token_store: AccessTokenStore,
}

impl<P: ConnectionModeProvider, R: DnsResolver> MullvadRestHandle<P, R> {
    /// Bundles a service and a factory with an empty token store.
    pub fn new(service: RequestService<P, R>, factory: RequestFactory) -> (r: Self)
        ensures
            r.service == service,
            r.factory == factory,
            r.token_store@ == Map::<Seq<char>, Seq<char>>::empty(),
    {
        MullvadRestHandle { service, factory, token_store: AccessTokenStore::new() }
    }
}

/// An address that the endpoint overrides is the address of every attempt,
/// whatever is cached and whatever the resolver finds or fails to find.
pub proof fn lemma_override_takes_precedence(
    config: ServiceConfig,
    timeout_ms: u64,
    mode: ApiConnectionMode,
    resolved: Result<Vec<SocketAddress>, ResolveError>,
    cached: SocketAddress,
)
    requires
        config.address_override is Some,
    ensures
        planned(config, timeout_ms, mode, resolved, cached) matches Some(attempt)
            && attempt.address == config.address_override->0,
{
}

/// An exchange in which the API answered with a status that the request
/// accepts is no failure for the tracker: the tracker hears of a success,
/// which leaves an online tracker online.
pub proof fn lemma_accepted_status_is_no_failure(
    before: AvailabilityView,
    expected_status: Seq<u16>,
    exchange: Exchange,
)
    requires
        succeeded(expected_status, exchange),
    ensures
        judged(expected_status, exchange) is Ok,
        availability_after(before, exchange) == before.report_success(),
        !before.suspended ==> availability_after(before, exchange).state()
            == crate::availability::State::Online,
        before.suspended ==> availability_after(before, exchange) == before,
{
}

/// An exchange in which the API did not answer is always reported to the
/// tracker as a failure, and the caller gets an error of connectivity.
pub proof fn lemma_transport_error_is_failure(
    before: AvailabilityView,
    expected_status: Seq<u16>,
    exchange: Exchange,
)
    requires
        !(exchange is Completed),
    ensures
        judged(expected_status, exchange) matches Err(e) && e.is_connectivity_spec(),
        availability_after(before, exchange) == before.report_failure(),
        !before.suspended ==> availability_after(before, exchange).state()
            == crate::availability::State::Offline,
{
}

/// A status that the request does not accept is an error for the caller and
/// none for the tracker: the API answered, so it is reachable.
pub proof fn lemma_refused_status_is_reachable(
    before: AvailabilityView,
    expected_status: Seq<u16>,
    response: Response,
)
    requires
        !expected_status.contains(response.status),
    ensures
        judged(expected_status, Exchange::Completed(response)) == Err::<Response, Error>(
            Error::ApiError(response.status, response.body),
        ),
        !Error::ApiError(response.status, response.body).is_connectivity_spec(),
        availability_after(before, Exchange::Completed(response)) == before.report_success(),
        before.state() == crate::availability::State::Online ==> availability_after(
            before,
            Exchange::Completed(response),
        ).state() == crate::availability::State::Online,
{
}


/// The view of what a builder gave: the view of the request, or the error.
pub open spec fn built(r: Result<Request, Error>) -> Result<RequestView, Error> {
    match r {
        Ok(request) => Ok(request@),
        Err(e) => Err(e),
    }
}

/// `request` with one more header where one is given. Fails unless the name
/// and the value are allowed in a header.
pub open spec fn with_extra_header(
    request: RequestView,
    extra: Option<(Seq<char>, Seq<char>)>,
) -> Result<RequestView, Error> {
    match extra {
        None => Ok(request),
        Some((name, value)) => if valid_header_name(name) && valid_header_value(value) {
            Ok(request.with_header(name, value))
        } else {
            Err(Error::InvalidHeaderError)
        },
    }
}

/// The request that a typed call to the API describes.
///
/// It fails where host and path give no valid address; where it is made for
/// an account and no token could be had, with the error of that; where the
/// token cannot stand in a header; and where the extra header is not allowed.
pub open spec fn api_request(
    host: Seq<char>,
    timeout_ms: u64,
    method: Method,
    path: Seq<char>,
    body: Option<Seq<u8>>,
    expected_status: Seq<u16>,
    credentials: Option<(Seq<char>, Result<String, Error>)>,
    extra: Option<(Seq<char>, Seq<char>)>,
) -> Result<RequestView, Error> {
    let uri = request_uri(host, path);
    let base = RequestView { body, expected_status, ..RequestView::bare(method, uri, timeout_ms) };
    if !uri_accepted(uri) {
        Err(Error::InvalidUri)
    } else {
        match credentials {
            None => with_extra_header(base, extra),
            Some((account, Ok(token))) => if valid_header_value(bearer(token@)) {
                with_extra_header(
                    RequestView {
                        account: Some(account),
                        ..base.with_header(authorization(), bearer(token@))
                    },
                    extra,
                )
            } else {
                Err(Error::InvalidHeaderError)
            },
            Some((_, Err(e))) => Err(e),
        }
    }
}

/// The view of the credentials that a request is made with.
pub open spec fn credentials_view(credentials: Option<(String, Result<String, Error>)>) -> Option<
    (Seq<char>, Result<String, Error>),
> {
    match credentials {
        Some((account, token)) => Some((account@, token)),
        None => None,
    }
}

/// The view of an optional body.
pub open spec fn body_view(body: Option<Vec<u8>>) -> Option<Seq<u8>> {
    match body {
        Some(b) => Some(b@),
        None => None,
    }
}

/// The view of an optional header.
pub open spec fn extra_view(extra: Option<(&str, &str)>) -> Option<(Seq<char>, Seq<char>)> {
    match extra {
        Some((name, value)) => Some((name@, value@)),
        None => None,
    }
}

impl RequestFactory {
    /// Describes a typed call to the API: a method and a path, a serialised
    /// body if there is one, the statuses taken as success, the account with
    /// what fetching its token gave if the call is made for one, and one
    /// more header if one is needed.
    pub fn api_request(
        &self,
        method: Method,
        path: &str,
        body: Option<Vec<u8>>,
        expected_status: Vec<u16>,
        credentials: Option<(String, Result<String, Error>)>,
        extra: Option<(&str, &str)>,
    ) -> (r: Result<Request, Error>)
        ensures
            built(r) == api_request(
                self.host(),
                self.timeout_ms(),
                method,
                path@,
                body_view(body),
                expected_status@,
                credentials_view(credentials),
                extra_view(extra),
            ),
    {
        let request = match self.request(path, method) {
            Ok(request) => request,
            Err(e) => {
                return Err(e);
            },
        };
        let request = match body {
            Some(b) => request.body(b),
            None => request,
        };
        let request = request.expected_status(expected_status);
        let request = match credentials {
            None => request,
            Some((account, token)) => match request.account(account, token) {
                Ok(request) => request,
                Err(e) => {
                    return Err(e);
                },
            },
        };
        match extra {
            None => Ok(request),
            Some((name, value)) => request.header(name, value),
        }
    }
}

} // verus!
