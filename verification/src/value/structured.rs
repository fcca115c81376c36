//! Values with a fixed shape and a meaning that tools can rely on.
//!
//! Nothing in this crate looks inside them: they are carried, stored in
//! collections and handed out again.

use super::atomic::{Float, Vec4};
use super::typed::TypedList;
use vstd::prelude::*;

verus! {

#[derive(Debug, Clone, Copy, PartialEq, Eq)]
pub enum InstantSeqEvent {
    Pulse { angle: Float, phase: Float },
    Fid { kt: Vec4 },
    Adc { phase: Float },
}

/// 3D voxel volume (with affine) of arbitrary (but singular) type.
#[derive(Debug, PartialEq, Eq)]
pub struct Volume {
    pub shape: [u64; 3],
    /// Three rows of four 64-bit floats, each held as its bit pattern.
    pub affine: [[u64; 4]; 3],
    pub data: TypedList,
}

/// A phantom for segmented simulations: one entry per tissue, plus the
/// transmit and receive sensitivity maps.
#[derive(Debug, PartialEq, Eq)]
pub struct SegmentedPhantom {
    pub tissues: Vec<PhantomTissue>,
    pub b1_tx: Vec<Volume>,
    pub b1_rx: Vec<Volume>,
}

#[derive(Debug, PartialEq, Eq)]
pub struct PhantomTissue {
    pub density: Volume,
    pub db0: Volume,
    pub t1: Float,
    pub t2: Float,
    pub t2dash: Float,
    pub adc: Float,
}

} // verus!
