//! The client side of the management interface: a client that speaks in the
//! daemon's own terms, and the errors that it makes of the statuses it gets.

use crate::management_interface::FromProtobufTypeError;
use crate::rpc::{Code, Status};
use vstd::prelude::*;
use vstd::string::StringSliceAdditionalSpecFns;

verus! {

/// The details of the status that says that a custom list does not exist.
pub const CUSTOM_LIST_LIST_NOT_FOUND_DETAILS: &'static str = "custom_list_list_not_found";

/// The details of the status that says that a custom list of that name exists.
pub const CUSTOM_LIST_LIST_EXISTS_DETAILS: &'static str = "custom_list_list_exists";

/// What can go wrong with a call of the management interface.
#[derive(Debug)]
pub enum Error {
    /// The call ended with a status that stands for no error below.
    Rpc(Status),
    /// The daemon answered with a value that stands for nothing.
    InvalidResponse(FromProtobufTypeError),
    /// The daemon sent an event without content.
    MissingDaemonEvent,
    ApiAccessMethodSettingsNotFound,
    ApiAccessMethodNotFound,
    DurationTooLarge,
    InvalidVoucher,
    UsedVoucher,
    TooManyDevices,
    InvalidAccount,
    AlreadyLoggedIn,
    DeviceNotFound,
    CustomListListNotFound,
    CustomListExists,
    PathMustBeUtf8,
}

/// A client of the management interface that takes and returns the daemon's
/// own types. `C` is the client of the remote procedure calls underneath.
#[derive(Debug)]
pub struct MullvadProxyClient<C>(C);

impl<C> MullvadProxyClient<C> {
    /// The client underneath.
    pub closed spec fn rpc_client(self) -> C {
        self.0
    }

    /// Wraps a client of the remote procedure calls.
    pub fn from_rpc_client(client: C) -> (r: Self)
        ensures
            r.rpc_client() == client,
    {
        MullvadProxyClient(client)
    }

    /// The client of the remote procedure calls, to make a call with.
    pub fn as_rpc_client(&mut self) -> (r: &mut C)
        ensures
            *r == old(self).rpc_client(),
            final(self).rpc_client() == *final(r),
    {
        &mut self.0
    }

    /// Unwraps the client of the remote procedure calls.
    pub fn into_rpc_client(self) -> (r: C)
        ensures
            r == self.rpc_client(),
    {
        self.0
    }
}

/// The error for a status that a call about devices and accounts ended with.
pub open spec fn device_error_of(status: Status) -> Error {
    match status.code {
        Code::ResourceExhausted => Error::TooManyDevices,
        Code::Unauthenticated => Error::InvalidAccount,
        Code::AlreadyExists => Error::AlreadyLoggedIn,
        Code::NotFound => Error::DeviceNotFound,
        _ => Error::Rpc(status),
    }
}

/// The error for a status that a call about custom lists ended with. A status
/// counts as one about a list only with the details that say so.
pub open spec fn custom_list_error_of(status: Status) -> Error {
    if status.code == Code::NotFound && status.details@
        == CUSTOM_LIST_LIST_NOT_FOUND_DETAILS.spec_bytes() {
        Error::CustomListListNotFound
    } else if status.code == Code::AlreadyExists && status.details@
        == CUSTOM_LIST_LIST_EXISTS_DETAILS.spec_bytes() {
        Error::CustomListExists
    } else {
        Error::Rpc(status)
    }
}

/// The error for a status that handing in a voucher ended with.
pub open spec fn voucher_error_of(status: Status) -> Error {
    match status.code {
        Code::NotFound => Error::InvalidVoucher,
        Code::ResourceExhausted => Error::UsedVoucher,
        _ => Error::Rpc(status),
    }
}

/// Whether two runs of bytes are the same.
fn same_bytes(a: &[u8], b: &[u8]) -> (r: bool)
    ensures
        r == (a@ == b@),
{
    if a.len() != b.len() {
        return false;
    }
    let mut i: usize = 0;
    while i < a.len()
        invariant
            i <= a.len(),
            a.len() == b.len(),
            forall|k: int| 0 <= k < i ==> a@[k] == b@[k],
        decreases a.len() - i,
    {
        if a[i] != b[i] {
            return false;
        }
        i = i + 1;
    }
    assert(a@ =~= b@);
    true
}

/// Makes an error of the status that a call about devices and accounts ended with.
pub fn map_device_error(status: Status) -> (r: Error)
    ensures
        r == device_error_of(status),
{
    match status.code {
        Code::ResourceExhausted => Error::TooManyDevices,
        Code::Unauthenticated => Error::InvalidAccount,
        Code::AlreadyExists => Error::AlreadyLoggedIn,
        Code::NotFound => Error::DeviceNotFound,
        _ => Error::Rpc(status),
    }
}

/// Makes an error of the status that a call about custom lists ended with.
pub fn map_custom_list_error(status: Status) -> (r: Error)
    ensures
        r == custom_list_error_of(status),
{
    match status.code {
        Code::NotFound => {
            if same_bytes(status.details.as_slice(), CUSTOM_LIST_LIST_NOT_FOUND_DETAILS.as_bytes()) {
                Error::CustomListListNotFound
            } else {
                Error::Rpc(status)
            }
        },
        Code::AlreadyExists => {
            if same_bytes(status.details.as_slice(), CUSTOM_LIST_LIST_EXISTS_DETAILS.as_bytes()) {
                Error::CustomListExists
            } else {
                Error::Rpc(status)
            }
        },
        _ => Error::Rpc(status),
    }
}

/// Makes an error of the status that handing in a voucher ended with.
pub fn map_voucher_error(status: Status) -> (r: Error)
    ensures
        r == voucher_error_of(status),
{
    match status.code {
        Code::NotFound => Error::InvalidVoucher,
        Code::ResourceExhausted => Error::UsedVoucher,
        _ => Error::Rpc(status),
    }
}

/// The content of an event that the daemon sent. An event without content is
/// an error.
pub fn event_content<E>(event: Option<E>) -> (r: Result<E, Error>)
    ensures
        r == match event {
            Some(content) => Ok::<E, Error>(content),
            None => Err::<E, Error>(Error::MissingDaemonEvent),
        },
{
    match event {
        Some(content) => Ok(content),
        None => Err(Error::MissingDaemonEvent),
    }
}

/// The place of the first access method with the given identifier among the
/// identifiers of all access methods.
pub fn find_access_method(ids: &Vec<u128>, id: u128) -> (r: Result<usize, Error>)
    ensures
        match r {
            Ok(i) => i < ids.len() && ids@[i as int] == id && forall|k: int|
                0 <= k < i ==> ids@[k] != id,
            Err(e) => e is ApiAccessMethodNotFound && !ids@.contains(id),
        },
{
    let mut i: usize = 0;
    while i < ids.len()
        invariant
            i <= ids.len(),
            forall|k: int| 0 <= k < i ==> ids@[k] != id,
        decreases ids.len() - i,
    {
        if ids[i] == id {
            return Ok(i);
        }
        i = i + 1;
    }
    Err(Error::ApiAccessMethodNotFound)
}

/// The size that a request carries: zero where no size is set.
pub fn size_to_request(size: Option<u16>) -> (r: u32)
    ensures
        r == match size {
            Some(n) => n as u32,
            None => 0u32,
        },
{
    match size {
        Some(n) => n as u32,
        None => 0,
    }
}

} // verus!
