//! The ways a request can be carried to the API, and who picks one.

use crate::net::SocketAddress;
use vstd::prelude::*;

verus! {

/// The proxy that a request is sent through.
#[derive(Clone, Copy, Debug, PartialEq, Eq, Structural)]
pub struct ProxyConfig {
    /// Where the proxy listens.
    pub endpoint: SocketAddress,
}

/// The transport used for one attempt of a request.
#[derive(Clone, Copy, Debug, PartialEq, Eq, Structural)]
pub enum ApiConnectionMode {
    /// Connect to the API itself.
    Direct,
    /// Connect through a bridge relay that was selected for this purpose.
    Bridge(ProxyConfig),
    /// Connect through a proxy that the user supplied.
    CustomProxy(ProxyConfig),
}

/// Yields the connection mode for the next attempt of a request.
///
/// A provider may hand out another mode each time it is asked. The mode it
/// returns holds for the attempt that asked for it and for no other.
pub trait ConnectionModeProvider {
    fn get_connection_mode(&mut self) -> ApiConnectionMode;
}

/// A provider that hands out the same mode every time.
#[derive(Clone, Copy, Debug, PartialEq, Eq, Structural)]
pub struct StaticConnectionModeProvider {
    pub mode: ApiConnectionMode,
}

impl ConnectionModeProvider for StaticConnectionModeProvider {
    fn get_connection_mode(&mut self) -> (r: ApiConnectionMode)
        ensures
            r == old(self).mode,
            *final(self) == *old(self),
    {
        self.mode
    }
}

impl ApiConnectionMode {
    /// Whether the mode goes through a proxy of either kind.
    pub open spec fn is_proxied(self) -> bool {
        !(self is Direct)
    }

    /// The proxy that the mode goes through, if it goes through one.
    pub fn proxy(&self) -> (r: Option<ProxyConfig>)
        ensures
            r == match *self {
                ApiConnectionMode::Direct => None,
                ApiConnectionMode::Bridge(config) => Some(config),
                ApiConnectionMode::CustomProxy(config) => Some(config),
            },
    {
        match self {
            ApiConnectionMode::Direct => None,
            ApiConnectionMode::Bridge(config) => Some(*config),
            ApiConnectionMode::CustomProxy(config) => Some(*config),
        }
    }

    /// A provider that hands out this mode and never another.
    pub fn into_provider(self) -> (r: StaticConnectionModeProvider)
        ensures
            r.mode == self,
    {
        StaticConnectionModeProvider { mode: self }
    }
}

} // verus!
