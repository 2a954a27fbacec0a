//! The root of the pieces: one address cache and one availability tracker
//! for one endpoint, and the handles that requests are made through.

use crate::address_cache::{loaded_address, AddressCache, AddressCacheView, FileRead};
use crate::availability::{ApiAvailability, AvailabilityView, State};
use crate::access::AccessTokenStore;
use crate::dns::{DnsResolver, NullDnsResolver, ResolveError};
use crate::endpoint::ApiEndpoint;
use crate::net::SocketAddress;
use crate::proxy::{ApiConnectionMode, ConnectionModeProvider, StaticConnectionModeProvider};
use crate::rest::{Attempt, Completion, Exchange, MullvadRestHandle, Request, RequestFactory};
use crate::rest::Start;
use crate::rest::{RequestService, Resolver, ServiceConfig};
use vstd::prelude::*;
use vstd::string::StringExecFns;

verus! {

/// The name of the cache file in the cache directory.
pub const API_IP_CACHE_FILENAME: &'static str = "api-ip-address.txt";

/// What can go wrong at the level of the whole client.
#[derive(Debug)]
pub enum Error {
    /// A request could not be described or carried out.
    RestError(crate::rest::Error),
    /// The cached address could not be loaded.
    AddressCacheError(crate::address_cache::Error),
    /// Waiting for the API to become available was cut short.
    ApiCheckError(crate::availability::Error),
    /// A host name could not be resolved. Holds a description.
    ResolutionFailed(String),
}

/// The address cache that a runtime starts with.
///
/// Where overrides are heeded and the endpoint has one, the runtime does
/// without the file: it takes the endpoint's own address and never writes.
/// In every other case the address in the file is taken; where the file
/// gives none, the address of the endpoint is. Changes are written to the
/// file only where `write_changes` says so.
pub open spec fn starting_cache(
    overrides: bool,
    endpoint: ApiEndpoint,
    cache_file: Seq<char>,
    read: FileRead,
    write_changes: bool,
) -> AddressCacheView {
    if overrides && (endpoint.host is Some || endpoint.address is Some) {
        AddressCacheView {
            address: endpoint.address_view(),
            hostname: endpoint.host_view(),
            write_path: None,
        }
    } else {
        AddressCacheView {
            address: match loaded_address(read) {
                Ok(address) => address,
                Err(_) => endpoint.address_view(),
            },
            hostname: endpoint.host_view(),
            write_path: if write_changes {
                Some(cache_file)
            } else {
                None
            },
        }
    }
}

/// Holds what all requests of one client share.
#[derive(Debug)]
pub struct Runtime {
    address_cache: AddressCache,
    api_availability: ApiAvailability,
    endpoint: ApiEndpoint,
}

impl Runtime {
    /// The address cache as it is now.
    pub closed spec fn cache(self) -> AddressCacheView {
        self.address_cache@
    }

    /// The availability tracker as it is now.
    pub closed spec fn availability(self) -> AvailabilityView {
        self.api_availability@
    }

    /// The endpoint that the runtime was made for.
    pub closed spec fn endpoint(self) -> ApiEndpoint {
        self.endpoint
    }

    /// A runtime for `endpoint` that keeps its address in memory only.
    pub fn new(endpoint: &ApiEndpoint) -> (r: Self)
        ensures
            r.endpoint() == *endpoint,
            r.availability() == AvailabilityView::initial(),
            r.cache() == (AddressCacheView {
                address: endpoint.address_view(),
                hostname: endpoint.host_view(),
                write_path: None,
            }),
    {
        Runtime {
            address_cache: AddressCache::new(endpoint, None),
            api_availability: ApiAvailability::new(),
            endpoint: endpoint.clone(),
        }
    }

    /// A runtime for `endpoint` that starts from the cached address.
    ///
    /// `read` is what reading the file at `cache_file` gave. A file that is
    /// missing or holds no address is no error: the runtime then starts from
    /// the address of the endpoint. `overrides` says whether the overrides of
    /// the endpoint are heeded in this build; only then does an endpoint
    /// with an override do without the file. Always succeeds.
    pub fn with_cache(
        overrides: bool,
        endpoint: &ApiEndpoint,
        cache_file: String,
        read: FileRead,
        write_changes: bool,
    ) -> (r: Result<Self, Error>)
        ensures
            r matches Ok(runtime) && runtime.endpoint() == *endpoint && runtime.availability()
                == AvailabilityView::initial() && runtime.cache() == starting_cache(
                overrides,
                *endpoint,
                cache_file@,
                read,
                write_changes,
            ),
    {
        if overrides && endpoint.should_disable_address_cache() {
            return Ok(Runtime::new(endpoint));
        }
        let write_file = if write_changes {
            Some(cache_file)
        } else {
            None
        };
        let host = String::from_str(endpoint.host());
        let address_cache = match AddressCache::from_file(read, clone_path(&write_file), host) {
            Ok(cache) => cache,
            Err(_) => AddressCache::new(endpoint, write_file),
        };
        Ok(
            Runtime {
                address_cache,
                api_availability: ApiAvailability::new(),
                endpoint: endpoint.clone(),
            },
        )
    }

    /// The handle that the typed proxies work with. Its service picks its
    /// connection modes with `connection_mode_provider` and resolves the host
    /// of the API with the address cache; its token store is empty.
    pub fn mullvad_rest_handle<T: ConnectionModeProvider>(
        &self,
        connection_mode_provider: T,
    ) -> (r: MullvadRestHandle<T, NullDnsResolver>)
        ensures
            r.service.config() == self.service_config(),
            r.service.resolves_with_cache(),
            r.service.provider() == connection_mode_provider,
            r.factory.host() == self.endpoint().host_view(),
            r.factory.timeout_ms() == crate::rest::DEFAULT_TIMEOUT_MS,
            r.token_store@ == Map::<Seq<char>, Seq<char>>::empty(),
    {
        let service = RequestService::spawn(
            connection_mode_provider,
            Resolver::Cache,
            String::from_str(self.endpoint.host()),
            self.endpoint.address,
            self.endpoint.disable_tls,
            self.endpoint.force_direct,
        );
        let factory = RequestFactory::new(String::from_str(self.endpoint.host()));
        MullvadRestHandle::new(service, factory)
    }

    /// A service that connects directly, with TLS, and resolves the host of
    /// the API with `dns_resolver`. It has no part in the handling of tokens.
    pub fn rest_handle<R: DnsResolver>(&self, dns_resolver: R) -> (r: RequestService<
        StaticConnectionModeProvider,
        R,
    >)
        ensures
            r.config() == (ServiceConfig {
                disable_tls: false,
                force_direct: true,
                ..self.service_config()
            }),
            !r.resolves_with_cache(),
            r.resolver() == Resolver::Custom(dns_resolver),
            r.provider().mode == ApiConnectionMode::Direct,
    {
        RequestService::spawn(
            ApiConnectionMode::Direct.into_provider(),
            Resolver::Custom(dns_resolver),
            String::from_str(self.endpoint.host()),
            self.endpoint.address,
            false,
            true,
        )
    }

    /// The settings that the services of this runtime take from its endpoint.
    pub open spec fn service_config(self) -> ServiceConfig {
        ServiceConfig {
            host: self.endpoint().host_view(),
            address_override: self.endpoint().address,
            disable_tls: self.endpoint().disable_tls,
            force_direct: self.endpoint().force_direct,
        }
    }

    /// A copy of the availability tracker as it is now.
    pub fn availability_handle(&self) -> (r: ApiAvailability)
        ensures
            r@ == self.availability(),
    {
        self.api_availability.clone()
    }

    /// The address cache.
    pub fn address_cache(&self) -> (r: &AddressCache)
        ensures
            r@ == self.cache(),
    {
        &self.address_cache
    }

    /// The endpoint that the runtime was made for.
    pub fn api_endpoint(&self) -> (r: &ApiEndpoint)
        ensures
            *r == self.endpoint(),
    {
        &self.endpoint
    }

    /// Takes the runtime apart into what requests share.
    pub fn into_parts(self) -> (r: (AddressCache, ApiAvailability, ApiEndpoint))
        ensures
            r.0@ == self.cache(),
            r.1@ == self.availability(),
            r.2 == self.endpoint(),
    {
        (self.address_cache, self.api_availability, self.endpoint)
    }

    /// Decides how `request` goes on with `service`, with the tracker and the
    /// address cache of this runtime. See [`RequestService::begin`].
    pub fn begin<P: ConnectionModeProvider, R: DnsResolver>(
        &mut self,
        service: &mut RequestService<P, R>,
        request: &Request,
        waiter: u64,
    ) -> (r: Start)
        ensures
            final(self).endpoint() == old(self).endpoint(),
            final(self).cache() == old(self).cache(),
            final(service).config() == old(service).config(),
            final(service).resolves_with_cache() == old(service).resolves_with_cache(),
            final(service).resolver() == old(service).resolver(),
            final(self).availability() == old(self).availability().wait(waiter),
            (r is Pending) == (old(self).availability().state() != State::Online),
            r is Pending || old(service).config().force_direct ==> final(service).provider()
                == old(service).provider(),
            !(r is Pending) ==> {
                &&& exists|
                    mode: ApiConnectionMode,
                    resolved: Result<Vec<SocketAddress>, ResolveError>,
                |
                    r.attempt() == #[trigger] crate::rest::planned(
                        old(service).config(),
                        request@.timeout_ms,
                        mode,
                        resolved,
                        old(self).cache().address,
                    )
                &&& match r.attempt() {
                    Some(attempt) => {
                        &&& attempt.use_tls == !old(service).config().disable_tls
                        &&& attempt.timeout_ms == request@.timeout_ms
                        &&& old(service).config().force_direct ==> attempt.mode
                            == ApiConnectionMode::Direct
                        &&& match old(service).config().address_override {
                            Some(address) => attempt.address == address,
                            None => old(service).resolves_with_cache() ==> attempt.address == old(
                                self,
                            ).cache().address && old(service).config().host == old(
                                self,
                            ).cache().hostname,
                        }
                    },
                    None => old(service).config().address_override is None && !(
                    old(service).resolves_with_cache() && old(service).config().host == old(
                        self,
                    ).cache().hostname),
                }
            },
    {
        service.begin(request, &self.address_cache, &mut self.api_availability, waiter)
    }

    /// Draws the consequences of an exchange for the tracker and the cache of
    /// this runtime and for `tokens`.
    pub fn finish<P: ConnectionModeProvider, R: DnsResolver>(
        &mut self,
        service: &RequestService<P, R>,
        request: &Request,
        attempt: &Attempt,
        exchange: Exchange,
        tokens: &mut AccessTokenStore,
    ) -> (r: Completion)
        ensures
            final(self).endpoint() == old(self).endpoint(),
            r.result == crate::rest::judged(request@.expected_status, exchange),
            final(self).availability() == crate::rest::availability_after(
                old(self).availability(),
                exchange,
            ),
            r.released@ == if exchange is Completed {
                old(self).availability().released(final(self).availability())
            } else {
                Seq::<u64>::empty()
            },
            final(self).cache() == (AddressCacheView {
                address: crate::rest::cached_after(
                    old(self).cache().address,
                    attempt.address,
                    request@.expected_status,
                    exchange,
                ),
                ..old(self).cache()
            }),
            match r.write {
                Some(write) => {
                    &&& crate::rest::succeeded(request@.expected_status, exchange)
                    &&& attempt.address != old(self).cache().address
                    &&& old(self).cache().write_path == Some(write.path@)
                    &&& write.contents@ == crate::address_cache::cache_file_contents(
                        attempt.address,
                    )
                },
                None => !crate::rest::succeeded(request@.expected_status, exchange)
                    || attempt.address == old(self).cache().address || old(
                    self,
                ).cache().write_path is None,
            },
            final(tokens)@ == crate::rest::tokens_after(old(tokens)@, request@.account, r.result),
    {
        service.finish(
            request,
            attempt,
            exchange,
            &mut self.api_availability,
            &mut self.address_cache,
            tokens,
        )
    }
}

fn clone_path(path: &Option<String>) -> (r: Option<String>)
    ensures
        r == *path,
{
    match path {
        Some(p) => Some(p.clone()),
        None => None,
    }
}


/// Where overrides are heeded, an endpoint with an override is an endpoint
/// for another host than the one that the cache file is kept for: the
/// runtime then starts from the endpoint's own address whatever the file
/// holds, and never writes to the file.
pub proof fn lemma_override_ignores_cache_file(
    overrides: bool,
    endpoint: ApiEndpoint,
    cache_file: Seq<char>,
    read: FileRead,
    write_changes: bool,
)
    requires
        overrides,
        endpoint.host is Some || endpoint.address is Some,
    ensures
        starting_cache(overrides, endpoint, cache_file, read, write_changes).address
            == endpoint.address_view(),
        starting_cache(overrides, endpoint, cache_file, read, write_changes).write_path is None,
{
}

/// Where the file is used, which is wherever overrides are not heeded or the
/// endpoint has none, a runtime that finds in the cache file what an update
/// of the cache wrote for an address starts from that address.
pub proof fn lemma_written_address_starts_runtime(
    overrides: bool,
    endpoint: ApiEndpoint,
    cache_file: Seq<char>,
    read: FileRead,
    write_changes: bool,
    address: SocketAddress,
)
    requires
        !overrides || (endpoint.host is None && endpoint.address is None),
        read matches FileRead::Contents(bytes) && bytes@
            == crate::address_cache::cache_file_contents(address),
    ensures
        starting_cache(overrides, endpoint, cache_file, read, write_changes).address == address,
        starting_cache(overrides, endpoint, cache_file, read, write_changes).hostname
            == endpoint.host_view(),
{
    crate::address_cache::lemma_written_address_loads(address, read);
}

} // verus!
