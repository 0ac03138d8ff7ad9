use vstd::prelude::*;

verus! {

/// A target picture size in pixels.
#[derive(Clone, Copy, Debug, PartialEq, Eq, Structural)]
pub struct Resolution {
    pub width: usize,
    pub height: usize,
}

/// What the caller asks of one streaming session.
#[derive(Clone, Copy, Debug, PartialEq, Eq, Structural)]
pub struct DesktopCastConfig {
    /// When set, the video is resized to this size before it is encoded.
    pub target_resolution: Option<Resolution>,
}

} // verus!
