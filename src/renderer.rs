//! The renderer's vocabulary: the capabilities it can switch on and its errors.
use vstd::prelude::*;

verus! {

/// A component of the configured clear colour that could not be read.
#[derive(Clone, Copy, Debug, PartialEq, Eq, Structural)]
pub enum RendererError {
    ClearColorRedRecoveryError,
    ClearColorGreenRecoveryError,
    ClearColorBlueRecoveryError,
    ClearColorAlphaRecoveryError,
}

#[derive(Clone, Copy, Debug, PartialEq, Eq, Structural)]
pub enum RendererCapability {
    DepthTesting,
    AlphaBlending,
}

} // verus!
