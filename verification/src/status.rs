//! RPC-level outcomes: a code plus a human-readable message, carried in the
//! reply header and distinct from any transport-level failure.

use vstd::prelude::*;

verus! {

/// The outcome codes a reply header can carry natively. A wire value outside
/// this set reads back as `Unknown`.
#[derive(Clone, Copy, Debug, PartialEq, Eq, Structural)]
pub enum Code {
    Okay,
    Cancelled,
    Unknown,
    InvalidArgument,
    DeadlineExceeded,
    NotFound,
    AlreadyExists,
    PermissionDenied,
    ResourceExhausted,
    FailedPrecondition,
    Aborted,
    OutOfRange,
    Unimplemented,
    Internal,
    Unavailable,
    DataLoss,
    Unauthenticated,
}

impl Code {
    /// The numeric value a reply header carries for this code.
    pub open spec fn spec_value(self) -> int {
        match self {
            Code::Okay => 0,
            Code::Cancelled => 1,
            Code::Unknown => 2,
            Code::InvalidArgument => 3,
            Code::DeadlineExceeded => 4,
            Code::NotFound => 5,
            Code::AlreadyExists => 6,
            Code::PermissionDenied => 7,
            Code::ResourceExhausted => 8,
            Code::FailedPrecondition => 9,
            Code::Aborted => 10,
            Code::OutOfRange => 11,
            Code::Unimplemented => 12,
            Code::Internal => 13,
            Code::Unavailable => 14,
            Code::DataLoss => 15,
            Code::Unauthenticated => 16,
        }
    }

    /// The code a numeric value means; values outside the known set mean
    /// `Unknown`.
    pub open spec fn spec_from(v: int) -> Code {
        if v == 0 {
            Code::Okay
        } else if v == 1 {
            Code::Cancelled
        } else if v == 2 {
            Code::Unknown
        } else if v == 3 {
            Code::InvalidArgument
        } else if v == 4 {
            Code::DeadlineExceeded
        } else if v == 5 {
            Code::NotFound
        } else if v == 6 {
            Code::AlreadyExists
        } else if v == 7 {
            Code::PermissionDenied
        } else if v == 8 {
            Code::ResourceExhausted
        } else if v == 9 {
            Code::FailedPrecondition
        } else if v == 10 {
            Code::Aborted
        } else if v == 11 {
            Code::OutOfRange
        } else if v == 12 {
            Code::Unimplemented
        } else if v == 13 {
            Code::Internal
        } else if v == 14 {
            Code::Unavailable
        } else if v == 15 {
            Code::DataLoss
        } else if v == 16 {
            Code::Unauthenticated
        } else {
            Code::Unknown
        }
    }

    pub fn value(&self) -> (v: i32)
        ensures
            v as int == self.spec_value(),
    {
        match self {
            Code::Okay => 0,
            Code::Cancelled => 1,
            Code::Unknown => 2,
            Code::InvalidArgument => 3,
            Code::DeadlineExceeded => 4,
            Code::NotFound => 5,
            Code::AlreadyExists => 6,
            Code::PermissionDenied => 7,
            Code::ResourceExhausted => 8,
            Code::FailedPrecondition => 9,
            Code::Aborted => 10,
            Code::OutOfRange => 11,
            Code::Unimplemented => 12,
            Code::Internal => 13,
            Code::Unavailable => 14,
            Code::DataLoss => 15,
            Code::Unauthenticated => 16,
        }
    }

    pub fn from_i32(v: i32) -> (c: Code)
        ensures
            c == Code::spec_from(v as int),
    {
        if v == 0 {
            Code::Okay
        } else if v == 1 {
            Code::Cancelled
        } else if v == 2 {
            Code::Unknown
        } else if v == 3 {
            Code::InvalidArgument
        } else if v == 4 {
            Code::DeadlineExceeded
        } else if v == 5 {
            Code::NotFound
        } else if v == 6 {
            Code::AlreadyExists
        } else if v == 7 {
            Code::PermissionDenied
        } else if v == 8 {
            Code::ResourceExhausted
        } else if v == 9 {
            Code::FailedPrecondition
        } else if v == 10 {
            Code::Aborted
        } else if v == 11 {
            Code::OutOfRange
        } else if v == 12 {
            Code::Unimplemented
        } else if v == 13 {
            Code::Internal
        } else if v == 14 {
            Code::Unavailable
        } else if v == 15 {
            Code::DataLoss
        } else if v == 16 {
            Code::Unauthenticated
        } else {
            Code::Unknown
        }
    }
}

/// Reading a code's numeric value back yields the code: the numbering is
/// lossless over the known set.
pub proof fn lemma_code_value_roundtrip(c: Code)
    ensures
        Code::spec_from(c.spec_value()) == c,
{
}

/// An RPC-level outcome: a code and a message, as the reply header carries
/// them. The message travels as bytes; text in it is a convention between
/// the two ends.
#[derive(Clone, Debug, PartialEq, Eq)]
pub struct Status {
    pub code: Code,
    pub message: Vec<u8>,
}

impl Status {
    pub fn new(code: Code, message: Vec<u8>) -> (s: Status)
        ensures
            s.code == code,
            s.message@ == message@,
    {
        Status { code, message }
    }

    pub fn invalid_argument(message: Vec<u8>) -> (s: Status)
        ensures
            s.code == Code::InvalidArgument,
            s.message@ == message@,
    {
        Status { code: Code::InvalidArgument, message }
    }

    pub fn unimplemented(message: Vec<u8>) -> (s: Status)
        ensures
            s.code == Code::Unimplemented,
            s.message@ == message@,
    {
        Status { code: Code::Unimplemented, message }
    }

    pub fn internal(message: Vec<u8>) -> (s: Status)
        ensures
            s.code == Code::Internal,
            s.message@ == message@,
    {
        Status { code: Code::Internal, message }
    }

    pub fn already_exists(message: Vec<u8>) -> (s: Status)
        ensures
            s.code == Code::AlreadyExists,
            s.message@ == message@,
    {
        Status { code: Code::AlreadyExists, message }
    }

    pub fn not_found(message: Vec<u8>) -> (s: Status)
        ensures
            s.code == Code::NotFound,
            s.message@ == message@,
    {
        Status { code: Code::NotFound, message }
    }

    pub fn code(&self) -> (c: Code)
        ensures
            c == self.code,
    {
        self.code
    }

    pub fn message(&self) -> (m: &Vec<u8>)
        ensures
            m@ == self.message@,
    {
        &self.message
    }
}

} // verus!
