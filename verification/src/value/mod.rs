//! The dynamically typed payload that crosses the connection.
//!
//! The structured types exist to give values that could be expressed with
//! [`dynamic::Dict`]s and [`dynamic::List`]s a known structure and meaning
//! that tools and scripts can rely on. Their number is kept low.

use vstd::prelude::*;

pub mod atomic;
pub mod convert;
pub mod copy;
pub mod dict;
pub mod dynamic;
pub mod extract;
pub mod pointer;
pub mod structured;
pub mod typed;
pub mod utils;
pub mod view;

verus! {

#[derive(Debug)]
pub enum Value {
    // Atomic types - newtypes for consistency
    Unit(atomic::Unit),
    Bool(atomic::Bool),
    Int(atomic::Int),
    Float(atomic::Float),
    Complex(atomic::Complex),
    Vec3(atomic::Vec3),
    Vec4(atomic::Vec4),
    Str(atomic::Str),
    // Structured types - types with semantic meaning
    InstantSeqEvent(structured::InstantSeqEvent),
    Volume(structured::Volume),
    SegmentedPhantom(structured::SegmentedPhantom),
    PhantomTissue(structured::PhantomTissue),
    // Dynamic collections - each value can have a different type
    Dict(dynamic::Dict),
    List(dynamic::List),
    // Static collections - all values have the same type
    TypedDict(typed::TypedDict),
    TypedList(typed::TypedList),
}

} // verus!
