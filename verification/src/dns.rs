//! Resolving a host name to the addresses it can be reached at.

use crate::address_cache::AddressCache;
use crate::net::SocketAddress;
use vstd::prelude::*;

verus! {

/// Why a host name gave no addresses.
#[derive(Clone, Copy, Debug, PartialEq, Eq, Structural)]
pub enum ResolveError {
    /// The resolver answers for one host only, and another was asked for.
    HostMismatch,
    /// The lookup itself failed.
    LookupFailed,
}

/// Resolves a host name to socket addresses. An empty answer is no failure:
/// it says that the resolver knows of no address.
pub trait DnsResolver {
    fn resolve(&self, host: &str) -> Result<Vec<SocketAddress>, ResolveError>;
}

/// A resolver that knows of no address for any host.
#[derive(Clone, Copy, Debug, PartialEq, Eq, Structural)]
pub struct NullDnsResolver;

impl DnsResolver for NullDnsResolver {
    fn resolve(&self, host: &str) -> (r: Result<Vec<SocketAddress>, ResolveError>)
        ensures
            r matches Ok(found) && found@.len() == 0,
    {
        Ok(Vec::new())
    }
}

/// The address cache resolves its own host to the address it holds, and no
/// other host.
impl DnsResolver for AddressCache {
    fn resolve(&self, host: &str) -> (r: Result<Vec<SocketAddress>, ResolveError>)
        ensures
            host@ == self@.hostname ==> (r matches Ok(found) && found@ == seq![self@.address]),
            host@ != self@.hostname ==> r == Err::<Vec<SocketAddress>, ResolveError>(
                ResolveError::HostMismatch,
            ),
    {
        match self.resolve_hostname(host) {
            Some(address) => {
                let mut found: Vec<SocketAddress> = Vec::new();
                found.push(address);
                Ok(found)
            },
            None => Err(ResolveError::HostMismatch),
        }
    }
}

} // verus!
