//! Errors reported by the verified kiosk core.

use vstd::prelude::*;

verus! {

/// The recoverable faults the kiosk core reports to its callers.
#[derive(Clone, Copy, Debug, PartialEq, Eq, Structural)]
pub enum KioskError {
    /// A frame arrived in a pixel layout other than the fixed
    /// 3-channel 8-bit format the capture path is configured for,
    /// or its byte count does not match its stated dimensions.
    UnsupportedPixelFormat,
    /// A texture update was attempted with a frame whose dimensions
    /// differ from the texture's.
    DimensionMismatch,
}

} // verus!
