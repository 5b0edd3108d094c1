//! Plain-value models of chiaki's small enumerations.

use vstd::prelude::*;

verus! {

/// Console model and firmware generation (`ChiakiTarget`).
#[derive(Debug, Clone, Copy, PartialEq, Eq, Structural)]
pub enum Target {
    Ps4Unknown,
    Ps4V8,
    Ps4V9,
    Ps4V10,
    Ps5Unknown,
    Ps5V1,
}

/// Video codec (`ChiakiCodec`).
#[derive(Debug, Clone, Copy, PartialEq, Eq, Structural)]
pub enum Codec {
    H264,
    H265,
    H265Hdr,
}

/// A `ChiakiQuitReason` value, carried as its raw number.
#[derive(Debug, Clone, Copy, PartialEq, Eq, Structural)]
pub struct QuitReason(pub u32);

/// A `ChiakiDualSenseEffectIntensity` value, carried as its raw number.
#[derive(Debug, Clone, Copy, PartialEq, Eq, Structural)]
pub struct DualSenseIntensity(pub u32);

} // verus!
