//! What the management interface answers when the daemon reports an error:
//! for each kind of error, the status that the caller of the remote call
//! gets.
//!
//! The errors of the daemon are given here by their kind and by the words
//! that describe them, which is all that the answer depends on.

use crate::rest::Error as RestError;
use crate::rest::{FORBIDDEN, UNAUTHORIZED};
use crate::rpc::{Code, Status, StatusView};
use vstd::prelude::*;
use vstd::string::StringExecFns;

verus! {

/// The message for a voucher code that does not exist.
pub const INVALID_VOUCHER_MESSAGE: &'static str = "This voucher code is invalid";

/// The message for a voucher code that was used before.
pub const USED_VOUCHER_MESSAGE: &'static str = "This voucher code has already been used";

/// The kinds of error of the device service.
#[derive(Debug)]
pub enum DeviceErrorKind {
    MaxDevicesReached,
    InvalidAccount,
    InvalidDevice,
    NoDevice,
    InvalidVoucher,
    UsedVoucher,
    /// The device cache could not be read or written.
    DeviceIoError,
    /// A request to the API failed in a way that says nothing of the device.
    OtherRestError(RestError),
    /// Any other error.
    Other,
}

/// An error of the device service.
#[derive(Debug)]
pub struct DeviceError {
    pub kind: DeviceErrorKind,
    /// The words that describe the error.
    pub text: String,
}

/// The kinds of error of the account history.
#[derive(Clone, Copy, Debug, PartialEq, Eq, Structural)]
pub enum AccountHistoryErrorKind {
    Read,
    Write,
    Serialize,
    WriteCancelled,
}

/// An error of the account history.
#[derive(Debug)]
pub struct AccountHistoryError {
    pub kind: AccountHistoryErrorKind,
    /// The words that describe the error.
    pub text: String,
}

/// The kinds of error of the version check.
#[derive(Clone, Copy, Debug, PartialEq, Eq, Structural)]
pub enum VersionErrorKind {
    Download,
    ReadVersionCache,
    ApiCheck,
    /// Any other error.
    Other,
}

/// An error of the version check.
#[derive(Debug)]
pub struct VersionError {
    pub kind: VersionErrorKind,
    /// The words that describe the error.
    pub text: String,
}

/// The platforms that have split tunnelling with errors of its own.
#[derive(Clone, Copy, Debug, PartialEq, Eq, Structural)]
pub enum Platform {
    Windows,
    MacOs,
}

/// The kinds of error of split tunnelling.
#[derive(Debug)]
pub enum SplitTunnelErrorKind {
    /// The addresses could not be registered with the driver. Holds whether
    /// the system reported that something was not found, and its words.
    RegisterIps(bool, String),
    /// The configuration could not be handed to the driver. Holds whether
    /// the system reported that something was not found, and its words.
    SetConfiguration(bool, String),
    /// Any other error.
    Other,
}

/// An error of split tunnelling.
#[derive(Debug)]
pub struct SplitTunnelError {
    pub kind: SplitTunnelErrorKind,
    /// The words that describe the error.
    pub text: String,
}

/// A value of the wire format that stands for no value of the daemon.
#[derive(Debug)]
pub enum FromProtobufTypeError {
    /// Holds what is wrong with the value.
    InvalidArgument(String),
}

/// The kinds of error of the daemon.
#[derive(Debug)]
pub enum DaemonErrorKind {
    RestError(RestError),
    /// An error of the settings, with the status that it stands for.
    SettingsError(Status),
    AlreadyLoggedIn,
    LoginError(DeviceError),
    LogoutError(DeviceError),
    KeyRotationError(DeviceError),
    ListDevicesError(DeviceError),
    RemoveDeviceError(DeviceError),
    UpdateDeviceError(DeviceError),
    VoucherSubmission(DeviceError),
    /// An error of split tunnelling, on the platform that it arose on.
    SplitTunnelError(SplitTunnelError, Platform),
    AccountHistory(AccountHistoryError),
    NoAccountNumber,
    NoAccountNumberHistory,
    VersionCheckError(VersionError),
    /// Any other error.
    Other,
}

/// An error of the daemon.
#[derive(Debug)]
pub struct DaemonError {
    pub kind: DaemonErrorKind,
    /// The words that describe the error.
    pub text: String,
}

/// The status for an error of a request to the API.
pub open spec fn rest_error_status(error: RestError) -> StatusView {
    match error {
        RestError::ApiError(status, message) => if status == UNAUTHORIZED || status == FORBIDDEN {
            StatusView::plain(Code::Unauthenticated, message@)
        } else {
            StatusView::plain(Code::Unknown, "REST error: "@ + error.description())
        },
        RestError::TimeoutError => StatusView::plain(
            Code::DeadlineExceeded,
            "API request timed out"@,
        ),
        RestError::HyperError(_) => StatusView::plain(Code::Unavailable, "Cannot reach the API"@),
        _ => StatusView::plain(Code::Unknown, "REST error: "@ + error.description()),
    }
}

/// The status for an error of the device service.
pub open spec fn device_error_status(error: DeviceError) -> StatusView {
    match error.kind {
        DeviceErrorKind::MaxDevicesReached => StatusView::plain(
            Code::ResourceExhausted,
            error.text@,
        ),
        DeviceErrorKind::InvalidAccount => StatusView::plain(Code::Unauthenticated, error.text@),
        DeviceErrorKind::InvalidDevice => StatusView::plain(Code::NotFound, error.text@),
        DeviceErrorKind::NoDevice => StatusView::plain(Code::NotFound, error.text@),
        DeviceErrorKind::InvalidVoucher => StatusView::plain(
            Code::NotFound,
            INVALID_VOUCHER_MESSAGE@,
        ),
        DeviceErrorKind::UsedVoucher => StatusView::plain(
            Code::ResourceExhausted,
            USED_VOUCHER_MESSAGE@,
        ),
        DeviceErrorKind::DeviceIoError => StatusView::plain(Code::Unavailable, error.text@),
        DeviceErrorKind::OtherRestError(rest) => rest_error_status(rest),
        DeviceErrorKind::Other => StatusView::plain(Code::Unknown, error.text@),
    }
}

/// The status for an error of the account history.
pub open spec fn account_history_error_status(error: AccountHistoryError) -> StatusView {
    match error.kind {
        AccountHistoryErrorKind::Read => StatusView::plain(Code::FailedPrecondition, error.text@),
        AccountHistoryErrorKind::Write => StatusView::plain(Code::FailedPrecondition, error.text@),
        AccountHistoryErrorKind::Serialize => StatusView::plain(Code::Internal, error.text@),
        AccountHistoryErrorKind::WriteCancelled => StatusView::plain(Code::Internal, error.text@),
    }
}

/// The status for an error of the version check.
pub open spec fn version_check_error_status(error: VersionError) -> StatusView {
    match error.kind {
        VersionErrorKind::Other => StatusView::plain(Code::Unknown, error.text@),
        _ => StatusView::plain(Code::Unavailable, error.text@),
    }
}

/// The status for an error of split tunnelling. Only on Windows, and only
/// where the system found something missing, is the status more than
/// unknown.
pub open spec fn split_tunnel_error_status(error: SplitTunnelError, platform: Platform)
    -> StatusView {
    match (platform, error.kind) {
        (Platform::Windows, SplitTunnelErrorKind::RegisterIps(true, io)) => StatusView::plain(
            Code::NotFound,
            error.text@ + ": "@ + io@,
        ),
        (Platform::Windows, SplitTunnelErrorKind::SetConfiguration(true, io)) => StatusView::plain(
            Code::NotFound,
            error.text@ + ": "@ + io@,
        ),
        _ => StatusView::plain(Code::Unknown, error.text@),
    }
}

/// The status for an error of the daemon.
pub open spec fn daemon_error_status(error: DaemonError) -> StatusView {
    match error.kind {
        DaemonErrorKind::RestError(rest) => rest_error_status(rest),
        DaemonErrorKind::SettingsError(status) => status@,
        DaemonErrorKind::AlreadyLoggedIn => StatusView::plain(Code::AlreadyExists, error.text@),
        DaemonErrorKind::LoginError(device) => device_error_status(device),
        DaemonErrorKind::LogoutError(device) => device_error_status(device),
        DaemonErrorKind::KeyRotationError(device) => device_error_status(device),
        DaemonErrorKind::ListDevicesError(device) => device_error_status(device),
        DaemonErrorKind::RemoveDeviceError(device) => device_error_status(device),
        DaemonErrorKind::UpdateDeviceError(device) => device_error_status(device),
        DaemonErrorKind::VoucherSubmission(device) => device_error_status(device),
        DaemonErrorKind::SplitTunnelError(split, platform) => split_tunnel_error_status(
            split,
            platform,
        ),
        DaemonErrorKind::AccountHistory(history) => account_history_error_status(history),
        DaemonErrorKind::NoAccountNumber => StatusView::plain(Code::Unauthenticated, error.text@),
        DaemonErrorKind::NoAccountNumberHistory => StatusView::plain(
            Code::Unauthenticated,
            error.text@,
        ),
        DaemonErrorKind::VersionCheckError(version) => version_check_error_status(version),
        DaemonErrorKind::Other => StatusView::plain(Code::Unknown, error.text@),
    }
}

/// Converts an error of the daemon into a status.
pub fn map_daemon_error(error: DaemonError) -> (r: Status)
    ensures
        r@ == daemon_error_status(error),
{
    let text = error.text;
    match error.kind {
        DaemonErrorKind::RestError(rest) => map_rest_error(&rest),
        DaemonErrorKind::SettingsError(status) => status,
        DaemonErrorKind::AlreadyLoggedIn => Status::new(Code::AlreadyExists, text.as_str()),
        DaemonErrorKind::LoginError(device) => map_device_error(&device),
        DaemonErrorKind::LogoutError(device) => map_device_error(&device),
        DaemonErrorKind::KeyRotationError(device) => map_device_error(&device),
        DaemonErrorKind::ListDevicesError(device) => map_device_error(&device),
        DaemonErrorKind::RemoveDeviceError(device) => map_device_error(&device),
        DaemonErrorKind::UpdateDeviceError(device) => map_device_error(&device),
        DaemonErrorKind::VoucherSubmission(device) => map_device_error(&device),
        DaemonErrorKind::SplitTunnelError(split, platform) => map_split_tunnel_error(
            split,
            platform,
        ),
        DaemonErrorKind::AccountHistory(history) => map_account_history_error(history),
        DaemonErrorKind::NoAccountNumber => Status::new(Code::Unauthenticated, text.as_str()),
        DaemonErrorKind::NoAccountNumberHistory => Status::new(
            Code::Unauthenticated,
            text.as_str(),
        ),
        DaemonErrorKind::VersionCheckError(version) => map_version_check_error(version),
        DaemonErrorKind::Other => Status::new(Code::Unknown, text.as_str()),
    }
}

/// Converts an error of split tunnelling into a status.
pub fn map_split_tunnel_error(error: SplitTunnelError, platform: Platform) -> (r: Status)
    ensures
        r@ == split_tunnel_error_status(error, platform),
{
    let windows = match platform {
        Platform::Windows => true,
        Platform::MacOs => false,
    };
    match &error.kind {
        SplitTunnelErrorKind::RegisterIps(not_found, io) => {
            if windows && *not_found {
                return not_found_status(&error.text, io);
            }
        },
        SplitTunnelErrorKind::SetConfiguration(not_found, io) => {
            if windows && *not_found {
                return not_found_status(&error.text, io);
            }
        },
        SplitTunnelErrorKind::Other => {},
    }
    Status::new(Code::Unknown, error.text.as_str())
}

fn not_found_status(text: &String, io: &String) -> (r: Status)
    ensures
        r@ == StatusView::plain(Code::NotFound, text@ + ": "@ + io@),
{
    let message = text.clone().concat(": ").concat(io.as_str());
    Status::new(Code::NotFound, message.as_str())
}

/// Converts an error of a request to the API into a status.
pub fn map_rest_error(error: &RestError) -> (r: Status)
    ensures
        r@ == rest_error_status(*error),
{
    match error {
        RestError::ApiError(status, message) => {
            if *status == UNAUTHORIZED || *status == FORBIDDEN {
                return Status::new(Code::Unauthenticated, message.as_str());
            }
        },
        RestError::TimeoutError => {
            return Status::new(Code::DeadlineExceeded, "API request timed out");
        },
        RestError::HyperError(_) => {
            return Status::new(Code::Unavailable, "Cannot reach the API");
        },
        _ => {},
    }
    let description = error.describe();
    let message = String::from_str("REST error: ").concat(description.as_str());
    Status::new(Code::Unknown, message.as_str())
}

/// Converts an error of the device service into a status.
pub fn map_device_error(error: &DeviceError) -> (r: Status)
    ensures
        r@ == device_error_status(*error),
{
    match &error.kind {
        DeviceErrorKind::MaxDevicesReached => Status::new(
            Code::ResourceExhausted,
            error.text.as_str(),
        ),
        DeviceErrorKind::InvalidAccount => Status::new(Code::Unauthenticated, error.text.as_str()),
        DeviceErrorKind::InvalidDevice => Status::new(Code::NotFound, error.text.as_str()),
        DeviceErrorKind::NoDevice => Status::new(Code::NotFound, error.text.as_str()),
        DeviceErrorKind::InvalidVoucher => Status::new(Code::NotFound, INVALID_VOUCHER_MESSAGE),
        DeviceErrorKind::UsedVoucher => Status::new(Code::ResourceExhausted, USED_VOUCHER_MESSAGE),
        DeviceErrorKind::DeviceIoError => Status::new(Code::Unavailable, error.text.as_str()),
        DeviceErrorKind::OtherRestError(rest) => map_rest_error(rest),
        DeviceErrorKind::Other => Status::new(Code::Unknown, error.text.as_str()),
    }
}

/// Converts an error of the account history into a status.
pub fn map_account_history_error(error: AccountHistoryError) -> (r: Status)
    ensures
        r@ == account_history_error_status(error),
{
    match error.kind {
        AccountHistoryErrorKind::Read => Status::new(Code::FailedPrecondition, error.text.as_str()),
        AccountHistoryErrorKind::Write => Status::new(
            Code::FailedPrecondition,
            error.text.as_str(),
        ),
        AccountHistoryErrorKind::Serialize => Status::new(Code::Internal, error.text.as_str()),
        AccountHistoryErrorKind::WriteCancelled => Status::new(Code::Internal, error.text.as_str()),
    }
}

/// Converts an error of the version check into a status.
pub fn map_version_check_error(error: VersionError) -> (r: Status)
    ensures
        r@ == version_check_error_status(error),
{
    match error.kind {
        VersionErrorKind::Download => Status::new(Code::Unavailable, error.text.as_str()),
        VersionErrorKind::ReadVersionCache => Status::new(Code::Unavailable, error.text.as_str()),
        VersionErrorKind::ApiCheck => Status::new(Code::Unavailable, error.text.as_str()),
        VersionErrorKind::Other => Status::new(Code::Unknown, error.text.as_str()),
    }
}

/// Converts a value of the wire format that stands for nothing into a status.
pub fn map_protobuf_type_err(err: FromProtobufTypeError) -> (r: Status)
    ensures
        r@ == match err {
            FromProtobufTypeError::InvalidArgument(what) => StatusView::plain(
                Code::InvalidArgument,
                what@,
            ),
        },
{
    match err {
        FromProtobufTypeError::InvalidArgument(what) => Status::new(
            Code::InvalidArgument,
            what.as_str(),
        ),
    }
}

/// The size that a request sets: zero stands for no size, and any other
/// number for its low 16 bits.
pub fn size_from_request(size: u32) -> (r: Option<u16>)
    ensures
        r == if size != 0 {
            Some((size % 0x10000) as u16)
        } else {
            None::<u16>
        },
{
    if size != 0 {
        Some((size % 0x10000) as u16)
    } else {
        None
    }
}

} // verus!
