//! The status that a remote call of the management interface ends with.

use vstd::prelude::*;
use vstd::string::StringExecFns;

verus! {

/// The codes of a status, as gRPC numbers them from 0 to 16.
#[derive(Clone, Copy, Debug, PartialEq, Eq, Structural)]
pub enum Code {
    Okay,
    Cancelled,
    Unknown,
    InvalidArgument,
    DeadlineExceeded,
    NotFound,
    AlreadyExists,
    PermissionDenied,
    ResourceExhausted,
    FailedPrecondition,
    Aborted,
    OutOfRange,
    Unimplemented,
    Internal,
    Unavailable,
    DataLoss,
    Unauthenticated,
}

/// How a remote call ended: a code, a message for people and details for
/// programs.
#[derive(Debug)]
pub struct Status {
    pub code: Code,
    pub message: String,
    pub details: Vec<u8>,
}

/// The abstract value of a status.
pub struct StatusView {
    pub code: Code,
    pub message: Seq<char>,
    pub details: Seq<u8>,
}

impl View for Status {
    type V = StatusView;

    open spec fn view(&self) -> StatusView {
        StatusView { code: self.code, message: self.message@, details: self.details@ }
    }
}

impl StatusView {
    /// A status without details.
    pub open spec fn plain(code: Code, message: Seq<char>) -> StatusView {
        StatusView { code, message, details: Seq::empty() }
    }
}

impl Code {
    /// The number of the code.
    pub open spec fn number(self) -> int {
        match self {
            Code::Okay => 0,
            Code::Cancelled => 1,
            Code::Unknown => 2,
            Code::InvalidArgument => 3,
            Code::DeadlineExceeded => 4,
            Code::NotFound => 5,
            Code::AlreadyExists => 6,
            Code::PermissionDenied => 7,
            Code::ResourceExhausted => 8,
            Code::FailedPrecondition => 9,
            Code::Aborted => 10,
            Code::OutOfRange => 11,
            Code::Unimplemented => 12,
            Code::Internal => 13,
            Code::Unavailable => 14,
            Code::DataLoss => 15,
            Code::Unauthenticated => 16,
        }
    }

    /// The number of the code.
    pub fn to_i32(self) -> (r: i32)
        ensures
            r == self.number(),
    {
        match self {
            Code::Okay => 0,
            Code::Cancelled => 1,
            Code::Unknown => 2,
            Code::InvalidArgument => 3,
            Code::DeadlineExceeded => 4,
            Code::NotFound => 5,
            Code::AlreadyExists => 6,
            Code::PermissionDenied => 7,
            Code::ResourceExhausted => 8,
            Code::FailedPrecondition => 9,
            Code::Aborted => 10,
            Code::OutOfRange => 11,
            Code::Unimplemented => 12,
            Code::Internal => 13,
            Code::Unavailable => 14,
            Code::DataLoss => 15,
            Code::Unauthenticated => 16,
        }
    }

    /// The code with the given number. A number that no code has stands for
    /// an unknown error.
    pub fn from_i32(number: i32) -> (r: Code)
        ensures
            0 <= number <= 16 ==> r.number() == number,
            !(0 <= number <= 16) ==> r == Code::Unknown,
    {
        match number {
            0 => Code::Okay,
            1 => Code::Cancelled,
            2 => Code::Unknown,
            3 => Code::InvalidArgument,
            4 => Code::DeadlineExceeded,
            5 => Code::NotFound,
            6 => Code::AlreadyExists,
            7 => Code::PermissionDenied,
            8 => Code::ResourceExhausted,
            9 => Code::FailedPrecondition,
            10 => Code::Aborted,
            11 => Code::OutOfRange,
            12 => Code::Unimplemented,
            13 => Code::Internal,
            14 => Code::Unavailable,
            15 => Code::DataLoss,
            16 => Code::Unauthenticated,
            _ => Code::Unknown,
        }
    }
}

impl Status {
    /// A status with a code and a message, without details.
    pub fn new(code: Code, message: &str) -> (r: Status)
        ensures
            r@ == StatusView::plain(code, message@),
    {
        Status { code, message: String::from_str(message), details: Vec::new() }
    }

    /// A status with a code, a message and details.
    pub fn with_details(code: Code, message: &str, details: Vec<u8>) -> (r: Status)
        ensures
            r@ == (StatusView { code, message: message@, details: details@ }),
    {
        Status { code, message: String::from_str(message), details }
    }

    /// The code of the status.
    pub fn code(&self) -> (r: Code)
        ensures
            r == self@.code,
    {
        self.code
    }

    /// The message of the status.
    pub fn message(&self) -> (r: &str)
        ensures
            r@ == self@.message,
    {
        self.message.as_str()
    }

    /// The details of the status.
    pub fn details(&self) -> (r: &[u8])
        ensures
            r@ == self@.details,
    {
        self.details.as_slice()
    }
}

} // verus!
