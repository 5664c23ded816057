//! The failures that the capture core reports.

use vstd::prelude::*;

verus! {

/// Which of the two buffers of a callback a failure concerns.
#[derive(Clone, Copy, Debug, PartialEq, Eq, Structural)]
pub enum BufferSide {
    /// The buffer of the input device.
    Input,
    /// The buffer of the tap.
    Output,
}

/// A failure of the capture core. Every variant but the last carries the
/// status code that the native call returned.
#[derive(Clone, Copy, Debug, PartialEq, Eq, Structural)]
pub enum CoreAudioError {
    /// The process tap could not be created.
    TapCreationFailed(i32),
    /// The aggregate device could not be created.
    AggregateCreationFailed(i32),
    /// A property of an audio object could not be read or written.
    PropertyAccessFailed(i32),
    /// An IO procedure could not be installed on a device.
    IOProcCreationFailed(i32),
    /// A device could not be started.
    DeviceStartFailed(i32),
    /// A device could not be stopped.
    DeviceStopFailed(i32),
    /// An IO procedure could not be destroyed.
    IOProcDestroyFailed(i32),
    /// The aggregate device could not be destroyed.
    AggregateDestroyFailed(i32),
    /// The process tap could not be destroyed.
    TapDestroyFailed(i32),
    /// One of the two buffers of a callback could not be processed.
    BufferProcessingFailed(BufferSide),
}

/// The status with which a native call reports success.
pub const NO_ERROR: i32 = 0;

/// The status for a stream that is not as expected.
pub const BAD_STREAM_ERROR: i32 = 0x2173_7472;

/// The status for a property whose size is not as expected.
pub const BAD_PROPERTY_SIZE_ERROR: i32 = 0x2173_697A;

impl CoreAudioError {
    /// The native status that the failure carries, if it carries one.
    pub open spec fn spec_status(self) -> Option<i32> {
        match self {
            CoreAudioError::TapCreationFailed(s) => Some(s),
            CoreAudioError::AggregateCreationFailed(s) => Some(s),
            CoreAudioError::PropertyAccessFailed(s) => Some(s),
            CoreAudioError::IOProcCreationFailed(s) => Some(s),
            CoreAudioError::DeviceStartFailed(s) => Some(s),
            CoreAudioError::DeviceStopFailed(s) => Some(s),
            CoreAudioError::IOProcDestroyFailed(s) => Some(s),
            CoreAudioError::AggregateDestroyFailed(s) => Some(s),
            CoreAudioError::TapDestroyFailed(s) => Some(s),
            CoreAudioError::BufferProcessingFailed(_) => None,
        }
    }

    /// The native status that the failure carries, if it carries one.
    pub fn status(&self) -> (s: Option<i32>)
        ensures
            s == self.spec_status(),
    {
        match self {
            CoreAudioError::TapCreationFailed(s) => Some(*s),
            CoreAudioError::AggregateCreationFailed(s) => Some(*s),
            CoreAudioError::PropertyAccessFailed(s) => Some(*s),
            CoreAudioError::IOProcCreationFailed(s) => Some(*s),
            CoreAudioError::DeviceStartFailed(s) => Some(*s),
            CoreAudioError::DeviceStopFailed(s) => Some(*s),
            CoreAudioError::IOProcDestroyFailed(s) => Some(*s),
            CoreAudioError::AggregateDestroyFailed(s) => Some(*s),
            CoreAudioError::TapDestroyFailed(s) => Some(*s),
            CoreAudioError::BufferProcessingFailed(_) => None,
        }
    }
}

} // verus!
