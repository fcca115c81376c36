use super::typed::TypedList;
use vstd::prelude::*;

verus! {

impl TypedList {
    pub fn len(&self) -> (res: usize)
        ensures
            res == self@.len(),
    {
        match self {
            TypedList::Unit(items) => items.len(),
            TypedList::Bool(items) => items.len(),
            TypedList::Int(items) => items.len(),
            TypedList::Float(items) => items.len(),
            TypedList::Complex(items) => items.len(),
            TypedList::Vec3(items) => items.len(),
            TypedList::Vec4(items) => items.len(),
            TypedList::Str(items) => items.len(),
            TypedList::InstantSeqEvent(items) => items.len(),
            TypedList::Volume(items) => items.len(),
            TypedList::SegmentedPhantom(items) => items.len(),
            TypedList::PhantomTissue(items) => items.len(),
        }
    }

    pub fn is_empty(&self) -> (res: bool)
        ensures
            res == (self@.len() == 0),
    {
        match self {
            TypedList::Unit(items) => items.is_empty(),
            TypedList::Bool(items) => items.is_empty(),
            TypedList::Int(items) => items.is_empty(),
            TypedList::Float(items) => items.is_empty(),
            TypedList::Complex(items) => items.is_empty(),
            TypedList::Vec3(items) => items.is_empty(),
            TypedList::Vec4(items) => items.is_empty(),
            TypedList::Str(items) => items.is_empty(),
            TypedList::InstantSeqEvent(items) => items.is_empty(),
            TypedList::Volume(items) => items.is_empty(),
            TypedList::SegmentedPhantom(items) => items.is_empty(),
            TypedList::PhantomTissue(items) => items.is_empty(),
        }
    }
}

} // verus!
