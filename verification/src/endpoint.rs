//! The endpoint of the API: the host name it answers to and the address it is
//! reached at, each either overridden or left to its default.

use crate::net::{parse_socket_address, IpAddress, SocketAddress};
use vstd::prelude::*;
use vstd::string::StringExecFns;

verus! {

/// The host name of the API unless it is overridden.
pub const API_HOST_DEFAULT: &'static str = "api.mullvad.net";

/// The port of the API unless the address is overridden.
pub const API_PORT_DEFAULT: u16 = 443;

/// The environment variable that overrides the host name.
pub const API_HOST_VAR: &'static str = "MULLVAD_API_HOST";

/// The environment variable that overrides the socket address.
pub const API_ADDR_VAR: &'static str = "MULLVAD_API_ADDR";

/// The environment variable that switches TLS off for an overridden endpoint.
pub const DISABLE_TLS_VAR: &'static str = "MULLVAD_API_DISABLE_TLS";

/// The environment variable that decides whether bridges and proxies may be used.
pub const API_FORCE_DIRECT_VAR: &'static str = "MULLVAD_API_FORCE_DIRECT";

/// The address of the API unless it is overridden or a better one is cached.
pub open spec fn default_address() -> SocketAddress {
    SocketAddress { ip: IpAddress::V4(45, 83, 223, 196), port: API_PORT_DEFAULT }
}

/// The bytes of a string as they stand in a file or a variable.
pub open spec fn text_bytes(s: Seq<char>) -> Seq<u8> {
    vstd::utf8::encode_utf8(s)
}

/// A hostname and socket address to reach the API over.
#[derive(Debug)]
pub struct ApiEndpoint {
    /// An overridden host name, if any.
    pub host: Option<String>,
    /// An overridden address, if any. Where it is set it is used for every
    /// connection, before any cached or resolved address.
    pub address: Option<SocketAddress>,
    /// Whether connections are made without TLS. Only an overridden endpoint
    /// can have this set.
    pub disable_tls: bool,
    /// Whether bridges and proxies are left unused.
    pub force_direct: bool,
}

/// What can be wrong with the overrides found in the environment.
#[derive(Clone, Copy, Debug, PartialEq, Eq, Structural)]
pub enum ConfigError {
    /// The address override is no socket address.
    InvalidAddress,
    /// The host is overridden without an address, and the host did not resolve.
    UnresolvedHost,
}

/// Whether the value of a flag variable switches the flag on: every value but `0` does.
pub open spec fn flag_is_set(value: Seq<char>) -> bool {
    value != "0"@
}

/// What is wrong with the overrides, if anything is: an address override
/// that is no socket address, or a host that is overridden without an address
/// and did not resolve. Without `overrides` nothing can be wrong.
pub open spec fn override_error(
    overrides: bool,
    host_var: Option<String>,
    address_var: Option<String>,
    resolved: Option<Seq<SocketAddress>>,
) -> Option<ConfigError> {
    if !overrides {
        None
    } else {
        match address_var {
            Some(text) => if parse_socket_address(text_bytes(text@)) is None {
                Some(ConfigError::InvalidAddress)
            } else {
                None
            },
            None => if host_var is Some && resolved is None {
                Some(ConfigError::UnresolvedHost)
            } else {
                None
            },
        }
    }
}

/// The view of what resolving a host gave.
pub open spec fn resolved_view(resolved: Option<Vec<SocketAddress>>) -> Option<Seq<SocketAddress>> {
    match resolved {
        Some(found) => Some(found@),
        None => None,
    }
}

/// The endpoint that the four override variables describe. `resolved` is what
/// resolving the overridden host gave; it is looked at only where the host is
/// overridden and the address is not.
pub open spec fn endpoint_from_vars(
    overrides: bool,
    host_var: Option<String>,
    address_var: Option<String>,
    disable_tls_var: Option<String>,
    force_direct_var: Option<String>,
    resolved: Option<Seq<SocketAddress>>,
) -> Result<ApiEndpoint, ConfigError> {
    if !overrides {
        Ok(ApiEndpoint { host: None, address: None, disable_tls: false, force_direct: false })
    } else {
        let force_direct = match force_direct_var {
            Some(v) => flag_is_set(v@),
            None => host_var is Some || address_var is Some,
        };
        let disable_tls = match disable_tls_var {
            Some(v) => flag_is_set(v@),
            None => false,
        };
        match address_var {
            Some(text) => match parse_socket_address(text_bytes(text@)) {
                Some(addr) => Ok(
                    ApiEndpoint { host: host_var, address: Some(addr), disable_tls, force_direct },
                ),
                None => Err(ConfigError::InvalidAddress),
            },
            None => match host_var {
                Some(host) => match resolved {
                    Some(found) => Ok(
                        ApiEndpoint {
                            host: Some(host),
                            address: if found.len() > 0 {
                                Some(found[0])
                            } else {
                                None
                            },
                            disable_tls,
                            force_direct,
                        },
                    ),
                    None => Err(ConfigError::UnresolvedHost),
                },
                None => Ok(
                    ApiEndpoint { host: None, address: None, disable_tls: false, force_direct },
                ),
            },
        }
    }
}

/// Reads a flag variable: every value but `0` switches the flag on.
fn read_flag(value: &String) -> (r: bool)
    ensures
        r == flag_is_set(value@),
{
    let zero = String::from_str("0");
    !(*value == zero)
}

impl Clone for ApiEndpoint {
    fn clone(&self) -> (r: Self)
        ensures
            r == *self,
    {
        ApiEndpoint {
            host: match &self.host {
                Some(h) => Some(h.clone()),
                None => None,
            },
            address: self.address,
            disable_tls: self.disable_tls,
            force_direct: self.force_direct,
        }
    }
}

impl ApiEndpoint {
    /// The host name to use: the override, or the default where there is none.
    pub open spec fn host_view(self) -> Seq<char> {
        match self.host {
            Some(h) => h@,
            None => API_HOST_DEFAULT@,
        }
    }

    /// The address to use: the override, or the default where there is none.
    pub open spec fn address_view(self) -> SocketAddress {
        match self.address {
            Some(a) => a,
            None => default_address(),
        }
    }

    /// Returns an endpoint with the given host and socket address.
    pub fn new(host: String, address: SocketAddress, disable_tls: bool) -> (r: Self)
        ensures
            r == (ApiEndpoint {
                host: Some(host),
                address: Some(address),
                disable_tls,
                force_direct: false,
            }),
    {
        ApiEndpoint { host: Some(host), address: Some(address), disable_tls, force_direct: false }
    }

    /// Whether resolving the overridden host is needed before
    /// [`ApiEndpoint::from_env_vars`] can give an endpoint.
    pub fn needs_resolution(
        overrides: bool,
        host_var: &Option<String>,
        address_var: &Option<String>,
    ) -> (r: bool)
        ensures
            r == (overrides && host_var is Some && address_var is None),
    {
        overrides && host_var.is_some() && address_var.is_none()
    }

    /// Says what is wrong with the overrides, if anything is. The caller
    /// tests this before it asks for the endpoint with
    /// [`ApiEndpoint::from_env_vars`], and treats an error as fatal.
    pub fn check_env_vars(
        overrides: bool,
        host_var: &Option<String>,
        address_var: &Option<String>,
        resolved: &Option<Vec<SocketAddress>>,
    ) -> (r: Option<ConfigError>)
        ensures
            r == override_error(overrides, *host_var, *address_var, resolved_view(*resolved)),
    {
        if !overrides {
            return None;
        }
        match address_var {
            Some(text) => match SocketAddress::parse(text.as_str().as_bytes()) {
                Some(_) => None,
                None => Some(ConfigError::InvalidAddress),
            },
            None => if host_var.is_some() && resolved.is_none() {
                Some(ConfigError::UnresolvedHost)
            } else {
                None
            },
        }
    }

    /// Returns the endpoint that the override variables describe.
    ///
    /// Without `overrides` the variables are ignored and the endpoint has no
    /// override at all. With them, a host overridden without an address takes
    /// the first address that resolving it gave. Overrides with something
    /// wrong are a fatal error of configuration and are not taken here.
    pub fn from_env_vars(
        overrides: bool,
        host_var: Option<String>,
        address_var: Option<String>,
        disable_tls_var: Option<String>,
        force_direct_var: Option<String>,
        resolved: Option<Vec<SocketAddress>>,
    ) -> (r: ApiEndpoint)
        requires
            override_error(overrides, host_var, address_var, resolved_view(resolved)) is None,
        ensures
            Ok::<ApiEndpoint, ConfigError>(r) == endpoint_from_vars(
                overrides,
                host_var,
                address_var,
                disable_tls_var,
                force_direct_var,
                resolved_view(resolved),
            ),
    {
        if !overrides {
            return ApiEndpoint { host: None, address: None, disable_tls: false, force_direct: false };
        }
        let force_direct = match &force_direct_var {
            Some(v) => read_flag(v),
            None => host_var.is_some() || address_var.is_some(),
        };
        let disable_tls = match &disable_tls_var {
            Some(v) => read_flag(v),
            None => false,
        };
        match address_var {
            Some(text) => ApiEndpoint {
                host: host_var,
                address: SocketAddress::parse(text.as_str().as_bytes()),
                disable_tls,
                force_direct,
            },
            None => match host_var {
                Some(host) => {
                    let address = match resolved {
                        Some(found) => if found.len() > 0 {
                            Some(found[0])
                        } else {
                            None
                        },
                        None => None,
                    };
                    ApiEndpoint { host: Some(host), address, disable_tls, force_direct }
                },
                None => ApiEndpoint { host: None, address: None, disable_tls: false, force_direct },
            },
        }
    }

    /// Whether the cached address is to be left unused: it is where the host
    /// or the address is overridden, since the cache is kept for the default
    /// host.
    pub fn should_disable_address_cache(&self) -> (r: bool)
        ensures
            r == (self.host is Some || self.address is Some),
    {
        self.host.is_some() || self.address.is_some()
    }

    /// Replaces the address override.
    pub fn set_addr(&mut self, address: SocketAddress)
        ensures
            *final(self) == (ApiEndpoint { address: Some(address), ..*old(self) }),
    {
        self.address = Some(address);
    }

    /// The host name, or the default where it is not overridden.
    pub fn host(&self) -> (r: &str)
        ensures
            r@ == self.host_view(),
    {
        match &self.host {
            Some(h) => h.as_str(),
            None => API_HOST_DEFAULT,
        }
    }

    /// The address, or the default where it is not overridden.
    pub fn address(&self) -> (r: SocketAddress)
        ensures
            r == self.address_view(),
    {
        match self.address {
            Some(a) => a,
            None => SocketAddress::v4(45, 83, 223, 196, API_PORT_DEFAULT),
        }
    }
}

} // verus!
