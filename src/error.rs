//! Failures of context bring-up and of the decoded picture buffer.
use vstd::prelude::*;

verus! {

/// A failure that stops the decode and present pipeline from standing up.
#[derive(Clone, Copy, Debug, PartialEq, Eq, Structural)]
pub enum SetupError {
    /// The instance reports no physical device at all.
    NoDevicesFound,
    /// No device has a queue family that decodes the requested codec.
    DecodeUnsupported,
    /// No device that decodes the codec also has a graphics queue family
    /// that can present to the surface.
    PresentationUnsupported,
    /// The codec-specific part of the capability query was not filled in.
    MissingProfileExtension,
    /// The capability query came back with no decode capability flag.
    EmptyCapabilities,
    /// No image format fits the negotiated decode images.
    NoCompatibleFormat,
    /// The stream is not in the one codec this pipeline decodes.
    UnsupportedCodec,
}

impl SetupError {
    /// Hardware that cannot run the pipeline, as opposed to a query that
    /// came back malformed.
    pub open spec fn is_unsupported_hardware_spec(self) -> bool {
        match self {
            SetupError::NoDevicesFound => true,
            SetupError::DecodeUnsupported => true,
            SetupError::PresentationUnsupported => true,
            SetupError::NoCompatibleFormat => true,
            SetupError::UnsupportedCodec => true,
            _ => false,
        }
    }

    /// Whether the failure reflects a platform limitation rather than a
    /// malformed query result.
    pub fn is_unsupported_hardware(&self) -> (r: bool)
        ensures
            r == self.is_unsupported_hardware_spec(),
    {
        match self {
            SetupError::MissingProfileExtension => false,
            SetupError::EmptyCapabilities => false,
            _ => true,
        }
    }
}

/// A refused operation on the decoded picture buffer.
#[derive(Clone, Copy, Debug, PartialEq, Eq, Structural)]
pub enum PoolError {
    /// Every slot is reserved or holds a reference picture.
    PoolExhausted,
    /// The slot index is outside the pool.
    InvalidSlot,
    /// The slot is not in the state that the transition starts from.
    WrongState,
}

} // verus!
