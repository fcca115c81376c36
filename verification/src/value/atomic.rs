//! Leaf values that hold no further structure.
//!
//! Floating-point numbers are carried as their IEEE 754 binary64 bit
//! patterns. A bit pattern survives every copy exactly, so NaN payloads and
//! the sign of zero are preserved end to end.

use vstd::prelude::*;

verus! {

/// The absent value.
#[derive(Debug, Clone, Copy, PartialEq, Eq, Structural)]
pub struct Unit;

#[derive(Debug, Clone, Copy, PartialEq, Eq, Structural)]
pub struct Bool(pub bool);

#[derive(Debug, Clone, Copy, PartialEq, Eq, Structural)]
pub struct Int(pub i64);

/// A 64-bit float, held as its bit pattern.
#[derive(Debug, Clone, Copy, PartialEq, Eq, Structural)]
pub struct Float(pub u64);

/// A complex number; both parts are bit patterns of 64-bit floats.
#[derive(Debug, Clone, Copy, PartialEq, Eq, Structural)]
pub struct Complex {
    pub re: u64,
    pub im: u64,
}

/// Three 64-bit floats, each held as its bit pattern.
#[derive(Debug, Clone, Copy, PartialEq, Eq)]
pub struct Vec3(pub [u64; 3]);

/// Four 64-bit floats, each held as its bit pattern.
#[derive(Debug, Clone, Copy, PartialEq, Eq)]
pub struct Vec4(pub [u64; 4]);

#[derive(Debug, Clone, PartialEq, Eq)]
pub struct Str(pub String);

impl View for Str {
    type V = Seq<char>;

    open spec fn view(&self) -> Seq<char> {
        self.0@
    }
}

} // verus!
