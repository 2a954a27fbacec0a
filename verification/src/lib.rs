//! Connectivity core of a VPN client's control-plane API client.
//!
//! The crate holds the decisions behind every outbound API call: which
//! address a request goes to, how the cached address is read from and written
//! to its text form, how reachability is tracked and who is woken when the API
//! becomes reachable again, how access tokens are cached per account, how a
//! request is described and how the outcome of its wire exchange is judged.
//! Everything here works on plain values; sockets, files, timers and tasks
//! belong to the program around it.

pub mod access;
pub mod address_cache;
pub mod availability;
pub mod client;
pub mod dns;
pub mod endpoint;
pub mod management_interface;
pub mod net;
pub mod net_v6;
pub mod proxies;
pub mod proxy;
pub mod rest;
pub mod rpc;
pub mod runtime;

pub use address_cache::AddressCache;
pub use dns::{DnsResolver, NullDnsResolver};
pub use endpoint::ApiEndpoint;
pub use proxies::{AccountsProxy, ApiProxy, ProblemReportProxy};
pub use proxies::{DEVICE_NOT_FOUND, INVALID_ACCESS_TOKEN, INVALID_ACCOUNT, INVALID_VOUCHER};
pub use proxies::{MAX_DEVICES_REACHED, PUBKEY_IN_USE, VOUCHER_USED};
pub use runtime::{Error, Runtime, API_IP_CACHE_FILENAME};
