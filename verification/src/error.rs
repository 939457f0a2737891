//! The failures that end a feeder, and the failures that keep a device from
//! being created.

use crate::params::ParameterError;
use vstd::prelude::*;

verus! {

/// A failure that ends a feeder. It stays with the session until the device
/// is closed, so that whoever joins the feeder can read it.
#[derive(Copy, Clone, Debug, PartialEq, Eq, Structural)]
pub enum FatalError {
    /// The producer did not return normally.
    ProducerFailed,
    /// The producer filled a buffer of another length than the session's.
    WrongBufferLength,
    /// A write failed on every attempt that the retry bound allows; `code` is
    /// what the last attempt returned.
    RetriesExhausted { code: i32 },
    /// A native call failed where no recovery exists.
    NativeCall { code: i32 },
    /// The wait for a completion signal returned neither half of the ring.
    UnknownSignal { signal: u32 },
    /// The native device was released while `count` references were left.
    StillReferenced { count: u32 },
    /// The connection to the native server failed or was lost.
    ConnectionFailed,
    /// The native library refused the sample format of the stream.
    InvalidSampleSpec,
    /// The session was told of something that it was not waiting for.
    OutOfOrder,
}

impl FatalError {
    /// What the error says, in words; a code or a count that it carries is
    /// left to the reader of the error.
    pub open spec fn message_of(self) -> Seq<char> {
        match self {
            FatalError::ProducerFailed => "The data callback did not return normally."@,
            FatalError::WrongBufferLength => "The sample buffer has a wrong length."@,
            FatalError::RetriesExhausted { .. } => "The device could not be recovered."@,
            FatalError::NativeCall { .. } => "A native call failed."@,
            FatalError::UnknownSignal { .. } => "Unknown buffer point!"@,
            FatalError::StillReferenced { .. } => "The device was released while it was referenced."@,
            FatalError::ConnectionFailed => "The connection failed or was disconnected."@,
            FatalError::InvalidSampleSpec => "The sample format is not valid."@,
            FatalError::OutOfOrder => "The session was driven out of order."@,
        }
    }

    /// Says in words what ended the feeder.
    pub fn message(&self) -> (text: &'static str)
        ensures
            text@ == self.message_of(),
    {
        match self {
            FatalError::ProducerFailed => "The data callback did not return normally.",
            FatalError::WrongBufferLength => "The sample buffer has a wrong length.",
            FatalError::RetriesExhausted { .. } => "The device could not be recovered.",
            FatalError::NativeCall { .. } => "A native call failed.",
            FatalError::UnknownSignal { .. } => "Unknown buffer point!",
            FatalError::StillReferenced { .. } => "The device was released while it was referenced.",
            FatalError::ConnectionFailed => "The connection failed or was disconnected.",
            FatalError::InvalidSampleSpec => "The sample format is not valid.",
            FatalError::OutOfOrder => "The session was driven out of order.",
        }
    }

    /// The native code or the count that the error carries, if it carries
    /// one.
    pub open spec fn detail_of(self) -> Option<i64> {
        match self {
            FatalError::RetriesExhausted { code } => Some(code as i64),
            FatalError::NativeCall { code } => Some(code as i64),
            FatalError::UnknownSignal { signal } => Some(signal as i64),
            FatalError::StillReferenced { count } => Some(count as i64),
            _ => None,
        }
    }

    /// The native code or the count that the error carries, if it carries
    /// one.
    pub fn detail(&self) -> (d: Option<i64>)
        ensures
            d == self.detail_of(),
    {
        match self {
            FatalError::RetriesExhausted { code } => Some(*code as i64),
            FatalError::NativeCall { code } => Some(*code as i64),
            FatalError::UnknownSignal { signal } => Some(*signal as i64),
            FatalError::StillReferenced { count } => Some(*count as i64),
            _ => None,
        }
    }
}

/// The first of two errors: the one that was met first stays.
pub open spec fn first_error(a: Option<FatalError>, b: Option<FatalError>) -> Option<FatalError> {
    if a is Some {
        a
    } else {
        b
    }
}

/// Why no device was created.
#[derive(Debug)]
pub enum CreateError<E> {
    /// The parameter record is refused.
    Parameters(ParameterError),
    /// No backend exists for the platform.
    UnsupportedPlatform,
    /// The native device could not be acquired.
    Acquisition(E),
}

} // verus!
