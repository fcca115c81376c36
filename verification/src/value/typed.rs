//! Collections whose items all have the same type, tagged once.

use super::atomic::{Bool, Complex, Float, Int, Str, Unit, Vec3, Vec4};
use super::structured::{InstantSeqEvent, PhantomTissue, SegmentedPhantom, Volume};
use vstd::prelude::*;

verus! {

#[derive(Debug, PartialEq, Eq)]
pub enum TypedList {
    Unit(Vec<Unit>),
    Bool(Vec<Bool>),
    Int(Vec<Int>),
    Float(Vec<Float>),
    Complex(Vec<Complex>),
    Vec3(Vec<Vec3>),
    Vec4(Vec<Vec4>),
    Str(Vec<Str>),
    InstantSeqEvent(Vec<InstantSeqEvent>),
    Volume(Vec<Volume>),
    SegmentedPhantom(Vec<SegmentedPhantom>),
    PhantomTissue(Vec<PhantomTissue>),
}

/// A string-keyed mapping per item type, stored as a list of entries whose
/// order says nothing.
///
/// In a well-formed mapping ([`TypedDict::wf`]) every key occurs once;
/// [`TypedDict::is_wf`] tells. A lookup takes the first entry with the key,
/// so an entry that repeats an earlier key is never seen.
#[derive(Debug)]
pub enum TypedDict {
    Unit(Vec<(String, Unit)>),
    Bool(Vec<(String, Bool)>),
    Int(Vec<(String, Int)>),
    Float(Vec<(String, Float)>),
    Complex(Vec<(String, Complex)>),
    Vec3(Vec<(String, Vec3)>),
    Vec4(Vec<(String, Vec4)>),
    Str(Vec<(String, Str)>),
    InstantSeqEvent(Vec<(String, InstantSeqEvent)>),
    Volume(Vec<(String, Volume)>),
    SegmentedPhantom(Vec<(String, SegmentedPhantom)>),
    PhantomTissue(Vec<(String, PhantomTissue)>),
}

} // verus!
