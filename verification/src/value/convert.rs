//! Between the static types and the dynamic ones: a value of a known type
//! goes into a [`Value`] without loss, and comes out again where the
//! [`Value`] holds that type.

use super::atomic::{Bool, Complex, Float, Int, Str, Unit, Vec3, Vec4};
use super::structured::{InstantSeqEvent, PhantomTissue, SegmentedPhantom, Volume};
use super::typed::{TypedDict, TypedList};
use super::Value;
use crate::error::ExtractionError;
use vstd::prelude::*;

verus! {

impl Value {
    /// The name of the type that the value holds.
    pub open spec fn spec_kind_name(&self) -> &'static str {
        match self {
            Value::Unit(_) => "Unit",
            Value::Bool(_) => "Bool",
            Value::Int(_) => "Int",
            Value::Float(_) => "Float",
            Value::Complex(_) => "Complex",
            Value::Vec3(_) => "Vec3",
            Value::Vec4(_) => "Vec4",
            Value::Str(_) => "Str",
            Value::InstantSeqEvent(_) => "InstantSeqEvent",
            Value::Volume(_) => "Volume",
            Value::SegmentedPhantom(_) => "SegmentedPhantom",
            Value::PhantomTissue(_) => "PhantomTissue",
            Value::Dict(_) => "Dict",
            Value::List(_) => "List",
            Value::TypedDict(_) => "TypedDict",
            Value::TypedList(_) => "TypedList",
        }
    }

    #[verifier::when_used_as_spec(spec_kind_name)]
    pub fn kind_name(&self) -> (res: &'static str)
        ensures
            res == self.spec_kind_name(),
    {
        match self {
            Value::Unit(_) => "Unit",
            Value::Bool(_) => "Bool",
            Value::Int(_) => "Int",
            Value::Float(_) => "Float",
            Value::Complex(_) => "Complex",
            Value::Vec3(_) => "Vec3",
            Value::Vec4(_) => "Vec4",
            Value::Str(_) => "Str",
            Value::InstantSeqEvent(_) => "InstantSeqEvent",
            Value::Volume(_) => "Volume",
            Value::SegmentedPhantom(_) => "SegmentedPhantom",
            Value::PhantomTissue(_) => "PhantomTissue",
            Value::Dict(_) => "Dict",
            Value::List(_) => "List",
            Value::TypedDict(_) => "TypedDict",
            Value::TypedList(_) => "TypedList",
        }
    }
}

impl TypedList {
    /// The name of the type that the list holds.
    pub open spec fn spec_kind_name(&self) -> &'static str {
        match self {
            TypedList::Unit(_) => "Vec<Unit>",
            TypedList::Bool(_) => "Vec<Bool>",
            TypedList::Int(_) => "Vec<Int>",
            TypedList::Float(_) => "Vec<Float>",
            TypedList::Complex(_) => "Vec<Complex>",
            TypedList::Vec3(_) => "Vec<Vec3>",
            TypedList::Vec4(_) => "Vec<Vec4>",
            TypedList::Str(_) => "Vec<Str>",
            TypedList::InstantSeqEvent(_) => "Vec<InstantSeqEvent>",
            TypedList::Volume(_) => "Vec<Volume>",
            TypedList::SegmentedPhantom(_) => "Vec<SegmentedPhantom>",
            TypedList::PhantomTissue(_) => "Vec<PhantomTissue>",
        }
    }

    #[verifier::when_used_as_spec(spec_kind_name)]
    pub fn kind_name(&self) -> (res: &'static str)
        ensures
            res == self.spec_kind_name(),
    {
        match self {
            TypedList::Unit(_) => "Vec<Unit>",
            TypedList::Bool(_) => "Vec<Bool>",
            TypedList::Int(_) => "Vec<Int>",
            TypedList::Float(_) => "Vec<Float>",
            TypedList::Complex(_) => "Vec<Complex>",
            TypedList::Vec3(_) => "Vec<Vec3>",
            TypedList::Vec4(_) => "Vec<Vec4>",
            TypedList::Str(_) => "Vec<Str>",
            TypedList::InstantSeqEvent(_) => "Vec<InstantSeqEvent>",
            TypedList::Volume(_) => "Vec<Volume>",
            TypedList::SegmentedPhantom(_) => "Vec<SegmentedPhantom>",
            TypedList::PhantomTissue(_) => "Vec<PhantomTissue>",
        }
    }
}

impl TypedDict {
    /// The name of the type that the mapping holds.
    pub open spec fn spec_kind_name(&self) -> &'static str {
        match self {
            TypedDict::Unit(_) => "HashMap<String, Unit>",
            TypedDict::Bool(_) => "HashMap<String, Bool>",
            TypedDict::Int(_) => "HashMap<String, Int>",
            TypedDict::Float(_) => "HashMap<String, Float>",
            TypedDict::Complex(_) => "HashMap<String, Complex>",
            TypedDict::Vec3(_) => "HashMap<String, Vec3>",
            TypedDict::Vec4(_) => "HashMap<String, Vec4>",
            TypedDict::Str(_) => "HashMap<String, Str>",
            TypedDict::InstantSeqEvent(_) => "HashMap<String, InstantSeqEvent>",
            TypedDict::Volume(_) => "HashMap<String, Volume>",
            TypedDict::SegmentedPhantom(_) => "HashMap<String, SegmentedPhantom>",
            TypedDict::PhantomTissue(_) => "HashMap<String, PhantomTissue>",
        }
    }

    #[verifier::when_used_as_spec(spec_kind_name)]
    pub fn kind_name(&self) -> (res: &'static str)
        ensures
            res == self.spec_kind_name(),
    {
        match self {
            TypedDict::Unit(_) => "HashMap<String, Unit>",
            TypedDict::Bool(_) => "HashMap<String, Bool>",
            TypedDict::Int(_) => "HashMap<String, Int>",
            TypedDict::Float(_) => "HashMap<String, Float>",
            TypedDict::Complex(_) => "HashMap<String, Complex>",
            TypedDict::Vec3(_) => "HashMap<String, Vec3>",
            TypedDict::Vec4(_) => "HashMap<String, Vec4>",
            TypedDict::Str(_) => "HashMap<String, Str>",
            TypedDict::InstantSeqEvent(_) => "HashMap<String, InstantSeqEvent>",
            TypedDict::Volume(_) => "HashMap<String, Volume>",
            TypedDict::SegmentedPhantom(_) => "HashMap<String, SegmentedPhantom>",
            TypedDict::PhantomTissue(_) => "HashMap<String, PhantomTissue>",
        }
    }
}

/// A type that a [`Value`] can hold, alone, in a typed list and in a typed
/// mapping.
pub trait Variant: Sized {
    /// The name of the type, and of its list and its mapping.
    spec fn names() -> (&'static str, &'static str, &'static str);

    fn name() -> (res: &'static str)
        ensures
            res == Self::names().0,
    ;

    fn list_name() -> (res: &'static str)
        ensures
            res == Self::names().1,
    ;

    fn dict_name() -> (res: &'static str)
        ensures
            res == Self::names().2,
    ;

    /// What a value holds, where it holds this type.
    spec fn held(value: Value) -> Option<Self>;

    /// What a typed list holds, where it holds this type.
    spec fn held_list(list: TypedList) -> Option<Vec<Self>>;

    /// What a typed mapping holds, where it holds this type.
    spec fn held_dict(dict: TypedDict) -> Option<Vec<(String, Self)>>;

    fn wrap(self) -> (value: Value)
        ensures
            Self::held(value) == Some(self),
    ;

    fn wrap_list(items: Vec<Self>) -> (list: TypedList)
        ensures
            Self::held_list(list) == Some(items),
    ;

    fn wrap_dict(entries: Vec<(String, Self)>) -> (dict: TypedDict)
        ensures
            Self::held_dict(dict) == Some(entries),
    ;

    fn unwrap(value: Value) -> (res: Result<Self, ExtractionError>)
        ensures
            res == match Self::held(value) {
                Some(inner) => Ok::<Self, ExtractionError>(inner),
                None => Err(
                    ExtractionError::TypeMismatch {
                        from: value.spec_kind_name(),
                        into: Self::names().0,
                    },
                ),
            },
    ;

    fn unwrap_list(list: TypedList) -> (res: Result<Vec<Self>, ExtractionError>)
        ensures
            res == match Self::held_list(list) {
                Some(inner) => Ok::<Vec<Self>, ExtractionError>(inner),
                None => Err(
                    ExtractionError::TypeMismatch {
                        from: list.spec_kind_name(),
                        into: Self::names().1,
                    },
                ),
            },
    ;

    fn unwrap_dict(dict: TypedDict) -> (res: Result<Vec<(String, Self)>, ExtractionError>)
        ensures
            res == match Self::held_dict(dict) {
                Some(inner) => Ok::<Vec<(String, Self)>, ExtractionError>(inner),
                None => Err(
                    ExtractionError::TypeMismatch {
                        from: dict.spec_kind_name(),
                        into: Self::names().2,
                    },
                ),
            },
    ;
}

impl Variant for Unit {
    open spec fn names() -> (&'static str, &'static str, &'static str) {
        ("Unit", "Vec<Unit>", "HashMap<String, Unit>")
    }

    fn name() -> (res: &'static str) {
        "Unit"
    }

    fn list_name() -> (res: &'static str) {
        "Vec<Unit>"
    }

    fn dict_name() -> (res: &'static str) {
        "HashMap<String, Unit>"
    }

    open spec fn held(value: Value) -> Option<Self> {
        match value {
            Value::Unit(inner) => Some(inner),
            _ => None,
        }
    }

    open spec fn held_list(list: TypedList) -> Option<Vec<Self>> {
        match list {
            TypedList::Unit(inner) => Some(inner),
            _ => None,
        }
    }

    open spec fn held_dict(dict: TypedDict) -> Option<Vec<(String, Self)>> {
        match dict {
            TypedDict::Unit(inner) => Some(inner),
            _ => None,
        }
    }

    fn wrap(self) -> (value: Value) {
        Value::Unit(self)
    }

    fn wrap_list(items: Vec<Self>) -> (list: TypedList) {
        TypedList::Unit(items)
    }

    fn wrap_dict(entries: Vec<(String, Self)>) -> (dict: TypedDict) {
        TypedDict::Unit(entries)
    }

    fn unwrap(value: Value) -> (res: Result<Self, ExtractionError>) {
        match value {
            Value::Unit(inner) => Ok(inner),
            other => Err(ExtractionError::TypeMismatch { from: other.kind_name(), into: "Unit" }),
        }
    }

    fn unwrap_list(list: TypedList) -> (res: Result<Vec<Self>, ExtractionError>) {
        match list {
            TypedList::Unit(inner) => Ok(inner),
            other => Err(
                ExtractionError::TypeMismatch { from: other.kind_name(), into: "Vec<Unit>" },
            ),
        }
    }

    fn unwrap_dict(dict: TypedDict) -> (res: Result<Vec<(String, Self)>, ExtractionError>) {
        match dict {
            TypedDict::Unit(inner) => Ok(inner),
            other => Err(
                ExtractionError::TypeMismatch {
                    from: other.kind_name(),
                    into: "HashMap<String, Unit>",
                },
            ),
        }
    }
}

impl Variant for Bool {
    open spec fn names() -> (&'static str, &'static str, &'static str) {
        ("Bool", "Vec<Bool>", "HashMap<String, Bool>")
    }

    fn name() -> (res: &'static str) {
        "Bool"
    }

    fn list_name() -> (res: &'static str) {
        "Vec<Bool>"
    }

    fn dict_name() -> (res: &'static str) {
        "HashMap<String, Bool>"
    }

    open spec fn held(value: Value) -> Option<Self> {
        match value {
            Value::Bool(inner) => Some(inner),
            _ => None,
        }
    }

    open spec fn held_list(list: TypedList) -> Option<Vec<Self>> {
        match list {
            TypedList::Bool(inner) => Some(inner),
            _ => None,
        }
    }

    open spec fn held_dict(dict: TypedDict) -> Option<Vec<(String, Self)>> {
        match dict {
            TypedDict::Bool(inner) => Some(inner),
            _ => None,
        }
    }

    fn wrap(self) -> (value: Value) {
        Value::Bool(self)
    }

    fn wrap_list(items: Vec<Self>) -> (list: TypedList) {
        TypedList::Bool(items)
    }

    fn wrap_dict(entries: Vec<(String, Self)>) -> (dict: TypedDict) {
        TypedDict::Bool(entries)
    }

    fn unwrap(value: Value) -> (res: Result<Self, ExtractionError>) {
        match value {
            Value::Bool(inner) => Ok(inner),
            other => Err(ExtractionError::TypeMismatch { from: other.kind_name(), into: "Bool" }),
        }
    }

    fn unwrap_list(list: TypedList) -> (res: Result<Vec<Self>, ExtractionError>) {
        match list {
            TypedList::Bool(inner) => Ok(inner),
            other => Err(
                ExtractionError::TypeMismatch { from: other.kind_name(), into: "Vec<Bool>" },
            ),
        }
    }

    fn unwrap_dict(dict: TypedDict) -> (res: Result<Vec<(String, Self)>, ExtractionError>) {
        match dict {
            TypedDict::Bool(inner) => Ok(inner),
            other => Err(
                ExtractionError::TypeMismatch {
                    from: other.kind_name(),
                    into: "HashMap<String, Bool>",
                },
            ),
        }
    }
}

impl Variant for Int {
    open spec fn names() -> (&'static str, &'static str, &'static str) {
        ("Int", "Vec<Int>", "HashMap<String, Int>")
    }

    fn name() -> (res: &'static str) {
        "Int"
    }

    fn list_name() -> (res: &'static str) {
        "Vec<Int>"
    }

    fn dict_name() -> (res: &'static str) {
        "HashMap<String, Int>"
    }

    open spec fn held(value: Value) -> Option<Self> {
        match value {
            Value::Int(inner) => Some(inner),
            _ => None,
        }
    }

    open spec fn held_list(list: TypedList) -> Option<Vec<Self>> {
        match list {
            TypedList::Int(inner) => Some(inner),
            _ => None,
        }
    }

    open spec fn held_dict(dict: TypedDict) -> Option<Vec<(String, Self)>> {
        match dict {
            TypedDict::Int(inner) => Some(inner),
            _ => None,
        }
    }

    fn wrap(self) -> (value: Value) {
        Value::Int(self)
    }

    fn wrap_list(items: Vec<Self>) -> (list: TypedList) {
        TypedList::Int(items)
    }

    fn wrap_dict(entries: Vec<(String, Self)>) -> (dict: TypedDict) {
        TypedDict::Int(entries)
    }

    fn unwrap(value: Value) -> (res: Result<Self, ExtractionError>) {
        match value {
            Value::Int(inner) => Ok(inner),
            other => Err(ExtractionError::TypeMismatch { from: other.kind_name(), into: "Int" }),
        }
    }

    fn unwrap_list(list: TypedList) -> (res: Result<Vec<Self>, ExtractionError>) {
        match list {
            TypedList::Int(inner) => Ok(inner),
            other => Err(
                ExtractionError::TypeMismatch { from: other.kind_name(), into: "Vec<Int>" },
            ),
        }
    }

    fn unwrap_dict(dict: TypedDict) -> (res: Result<Vec<(String, Self)>, ExtractionError>) {
        match dict {
            TypedDict::Int(inner) => Ok(inner),
            other => Err(
                ExtractionError::TypeMismatch {
                    from: other.kind_name(),
                    into: "HashMap<String, Int>",
                },
            ),
        }
    }
}

impl Variant for Float {
    open spec fn names() -> (&'static str, &'static str, &'static str) {
        ("Float", "Vec<Float>", "HashMap<String, Float>")
    }

    fn name() -> (res: &'static str) {
        "Float"
    }

    fn list_name() -> (res: &'static str) {
        "Vec<Float>"
    }

    fn dict_name() -> (res: &'static str) {
        "HashMap<String, Float>"
    }

    open spec fn held(value: Value) -> Option<Self> {
        match value {
            Value::Float(inner) => Some(inner),
            _ => None,
        }
    }

    open spec fn held_list(list: TypedList) -> Option<Vec<Self>> {
        match list {
            TypedList::Float(inner) => Some(inner),
            _ => None,
        }
    }

    open spec fn held_dict(dict: TypedDict) -> Option<Vec<(String, Self)>> {
        match dict {
            TypedDict::Float(inner) => Some(inner),
            _ => None,
        }
    }

    fn wrap(self) -> (value: Value) {
        Value::Float(self)
    }

    fn wrap_list(items: Vec<Self>) -> (list: TypedList) {
        TypedList::Float(items)
    }

    fn wrap_dict(entries: Vec<(String, Self)>) -> (dict: TypedDict) {
        TypedDict::Float(entries)
    }

    fn unwrap(value: Value) -> (res: Result<Self, ExtractionError>) {
        match value {
            Value::Float(inner) => Ok(inner),
            other => Err(ExtractionError::TypeMismatch { from: other.kind_name(), into: "Float" }),
        }
    }

    fn unwrap_list(list: TypedList) -> (res: Result<Vec<Self>, ExtractionError>) {
        match list {
            TypedList::Float(inner) => Ok(inner),
            other => Err(
                ExtractionError::TypeMismatch { from: other.kind_name(), into: "Vec<Float>" },
            ),
        }
    }

    fn unwrap_dict(dict: TypedDict) -> (res: Result<Vec<(String, Self)>, ExtractionError>) {
        match dict {
            TypedDict::Float(inner) => Ok(inner),
            other => Err(
                ExtractionError::TypeMismatch {
                    from: other.kind_name(),
                    into: "HashMap<String, Float>",
                },
            ),
        }
    }
}

impl Variant for Complex {
    open spec fn names() -> (&'static str, &'static str, &'static str) {
        ("Complex", "Vec<Complex>", "HashMap<String, Complex>")
    }

    fn name() -> (res: &'static str) {
        "Complex"
    }

    fn list_name() -> (res: &'static str) {
        "Vec<Complex>"
    }

    fn dict_name() -> (res: &'static str) {
        "HashMap<String, Complex>"
    }

    open spec fn held(value: Value) -> Option<Self> {
        match value {
            Value::Complex(inner) => Some(inner),
            _ => None,
        }
    }

    open spec fn held_list(list: TypedList) -> Option<Vec<Self>> {
        match list {
            TypedList::Complex(inner) => Some(inner),
            _ => None,
        }
    }

    open spec fn held_dict(dict: TypedDict) -> Option<Vec<(String, Self)>> {
        match dict {
            TypedDict::Complex(inner) => Some(inner),
            _ => None,
        }
    }

    fn wrap(self) -> (value: Value) {
        Value::Complex(self)
    }

    fn wrap_list(items: Vec<Self>) -> (list: TypedList) {
        TypedList::Complex(items)
    }

    fn wrap_dict(entries: Vec<(String, Self)>) -> (dict: TypedDict) {
        TypedDict::Complex(entries)
    }

    fn unwrap(value: Value) -> (res: Result<Self, ExtractionError>) {
        match value {
            Value::Complex(inner) => Ok(inner),
            other => Err(ExtractionError::TypeMismatch { from: other.kind_name(), into: "Complex" }),
        }
    }

    fn unwrap_list(list: TypedList) -> (res: Result<Vec<Self>, ExtractionError>) {
        match list {
            TypedList::Complex(inner) => Ok(inner),
            other => Err(
                ExtractionError::TypeMismatch { from: other.kind_name(), into: "Vec<Complex>" },
            ),
        }
    }

    fn unwrap_dict(dict: TypedDict) -> (res: Result<Vec<(String, Self)>, ExtractionError>) {
        match dict {
            TypedDict::Complex(inner) => Ok(inner),
            other => Err(
                ExtractionError::TypeMismatch {
                    from: other.kind_name(),
                    into: "HashMap<String, Complex>",
                },
            ),
        }
    }
}

impl Variant for Vec3 {
    open spec fn names() -> (&'static str, &'static str, &'static str) {
        ("Vec3", "Vec<Vec3>", "HashMap<String, Vec3>")
    }

    fn name() -> (res: &'static str) {
        "Vec3"
    }

    fn list_name() -> (res: &'static str) {
        "Vec<Vec3>"
    }

    fn dict_name() -> (res: &'static str) {
        "HashMap<String, Vec3>"
    }

    open spec fn held(value: Value) -> Option<Self> {
        match value {
            Value::Vec3(inner) => Some(inner),
            _ => None,
        }
    }

    open spec fn held_list(list: TypedList) -> Option<Vec<Self>> {
        match list {
            TypedList::Vec3(inner) => Some(inner),
            _ => None,
        }
    }

    open spec fn held_dict(dict: TypedDict) -> Option<Vec<(String, Self)>> {
        match dict {
            TypedDict::Vec3(inner) => Some(inner),
            _ => None,
        }
    }

    fn wrap(self) -> (value: Value) {
        Value::Vec3(self)
    }

    fn wrap_list(items: Vec<Self>) -> (list: TypedList) {
        TypedList::Vec3(items)
    }

    fn wrap_dict(entries: Vec<(String, Self)>) -> (dict: TypedDict) {
        TypedDict::Vec3(entries)
    }

    fn unwrap(value: Value) -> (res: Result<Self, ExtractionError>) {
        match value {
            Value::Vec3(inner) => Ok(inner),
            other => Err(ExtractionError::TypeMismatch { from: other.kind_name(), into: "Vec3" }),
        }
    }

    fn unwrap_list(list: TypedList) -> (res: Result<Vec<Self>, ExtractionError>) {
        match list {
            TypedList::Vec3(inner) => Ok(inner),
            other => Err(
                ExtractionError::TypeMismatch { from: other.kind_name(), into: "Vec<Vec3>" },
            ),
        }
    }

    fn unwrap_dict(dict: TypedDict) -> (res: Result<Vec<(String, Self)>, ExtractionError>) {
        match dict {
            TypedDict::Vec3(inner) => Ok(inner),
            other => Err(
                ExtractionError::TypeMismatch {
                    from: other.kind_name(),
                    into: "HashMap<String, Vec3>",
                },
            ),
        }
    }
}

impl Variant for Vec4 {
    open spec fn names() -> (&'static str, &'static str, &'static str) {
        ("Vec4", "Vec<Vec4>", "HashMap<String, Vec4>")
    }

    fn name() -> (res: &'static str) {
        "Vec4"
    }

    fn list_name() -> (res: &'static str) {
        "Vec<Vec4>"
    }

    fn dict_name() -> (res: &'static str) {
        "HashMap<String, Vec4>"
    }

    open spec fn held(value: Value) -> Option<Self> {
        match value {
            Value::Vec4(inner) => Some(inner),
            _ => None,
        }
    }

    open spec fn held_list(list: TypedList) -> Option<Vec<Self>> {
        match list {
            TypedList::Vec4(inner) => Some(inner),
            _ => None,
        }
    }

    open spec fn held_dict(dict: TypedDict) -> Option<Vec<(String, Self)>> {
        match dict {
            TypedDict::Vec4(inner) => Some(inner),
            _ => None,
        }
    }

    fn wrap(self) -> (value: Value) {
        Value::Vec4(self)
    }

    fn wrap_list(items: Vec<Self>) -> (list: TypedList) {
        TypedList::Vec4(items)
    }

    fn wrap_dict(entries: Vec<(String, Self)>) -> (dict: TypedDict) {
        TypedDict::Vec4(entries)
    }

    fn unwrap(value: Value) -> (res: Result<Self, ExtractionError>) {
        match value {
            Value::Vec4(inner) => Ok(inner),
            other => Err(ExtractionError::TypeMismatch { from: other.kind_name(), into: "Vec4" }),
        }
    }

    fn unwrap_list(list: TypedList) -> (res: Result<Vec<Self>, ExtractionError>) {
        match list {
            TypedList::Vec4(inner) => Ok(inner),
            other => Err(
                ExtractionError::TypeMismatch { from: other.kind_name(), into: "Vec<Vec4>" },
            ),
        }
    }

    fn unwrap_dict(dict: TypedDict) -> (res: Result<Vec<(String, Self)>, ExtractionError>) {
        match dict {
            TypedDict::Vec4(inner) => Ok(inner),
            other => Err(
                ExtractionError::TypeMismatch {
                    from: other.kind_name(),
                    into: "HashMap<String, Vec4>",
                },
            ),
        }
    }
}

impl Variant for Str {
    open spec fn names() -> (&'static str, &'static str, &'static str) {
        ("Str", "Vec<Str>", "HashMap<String, Str>")
    }

    fn name() -> (res: &'static str) {
        "Str"
    }

    fn list_name() -> (res: &'static str) {
        "Vec<Str>"
    }

    fn dict_name() -> (res: &'static str) {
        "HashMap<String, Str>"
    }

    open spec fn held(value: Value) -> Option<Self> {
        match value {
            Value::Str(inner) => Some(inner),
            _ => None,
        }
    }

    open spec fn held_list(list: TypedList) -> Option<Vec<Self>> {
        match list {
            TypedList::Str(inner) => Some(inner),
            _ => None,
        }
    }

    open spec fn held_dict(dict: TypedDict) -> Option<Vec<(String, Self)>> {
        match dict {
            TypedDict::Str(inner) => Some(inner),
            _ => None,
        }
    }

    fn wrap(self) -> (value: Value) {
        Value::Str(self)
    }

    fn wrap_list(items: Vec<Self>) -> (list: TypedList) {
        TypedList::Str(items)
    }

    fn wrap_dict(entries: Vec<(String, Self)>) -> (dict: TypedDict) {
        TypedDict::Str(entries)
    }

    fn unwrap(value: Value) -> (res: Result<Self, ExtractionError>) {
        match value {
            Value::Str(inner) => Ok(inner),
            other => Err(ExtractionError::TypeMismatch { from: other.kind_name(), into: "Str" }),
        }
    }

    fn unwrap_list(list: TypedList) -> (res: Result<Vec<Self>, ExtractionError>) {
        match list {
            TypedList::Str(inner) => Ok(inner),
            other => Err(
                ExtractionError::TypeMismatch { from: other.kind_name(), into: "Vec<Str>" },
            ),
        }
    }

    fn unwrap_dict(dict: TypedDict) -> (res: Result<Vec<(String, Self)>, ExtractionError>) {
        match dict {
            TypedDict::Str(inner) => Ok(inner),
            other => Err(
                ExtractionError::TypeMismatch {
                    from: other.kind_name(),
                    into: "HashMap<String, Str>",
                },
            ),
        }
    }
}

impl Variant for InstantSeqEvent {
    open spec fn names() -> (&'static str, &'static str, &'static str) {
        ("InstantSeqEvent", "Vec<InstantSeqEvent>", "HashMap<String, InstantSeqEvent>")
    }

    fn name() -> (res: &'static str) {
        "InstantSeqEvent"
    }

    fn list_name() -> (res: &'static str) {
        "Vec<InstantSeqEvent>"
    }

    fn dict_name() -> (res: &'static str) {
        "HashMap<String, InstantSeqEvent>"
    }

    open spec fn held(value: Value) -> Option<Self> {
        match value {
            Value::InstantSeqEvent(inner) => Some(inner),
            _ => None,
        }
    }

    open spec fn held_list(list: TypedList) -> Option<Vec<Self>> {
        match list {
            TypedList::InstantSeqEvent(inner) => Some(inner),
            _ => None,
        }
    }

    open spec fn held_dict(dict: TypedDict) -> Option<Vec<(String, Self)>> {
        match dict {
            TypedDict::InstantSeqEvent(inner) => Some(inner),
            _ => None,
        }
    }

    fn wrap(self) -> (value: Value) {
        Value::InstantSeqEvent(self)
    }

    fn wrap_list(items: Vec<Self>) -> (list: TypedList) {
        TypedList::InstantSeqEvent(items)
    }

    fn wrap_dict(entries: Vec<(String, Self)>) -> (dict: TypedDict) {
        TypedDict::InstantSeqEvent(entries)
    }

    fn unwrap(value: Value) -> (res: Result<Self, ExtractionError>) {
        match value {
            Value::InstantSeqEvent(inner) => Ok(inner),
            other => Err(ExtractionError::TypeMismatch { from: other.kind_name(), into: "InstantSeqEvent" }),
        }
    }

    fn unwrap_list(list: TypedList) -> (res: Result<Vec<Self>, ExtractionError>) {
        match list {
            TypedList::InstantSeqEvent(inner) => Ok(inner),
            other => Err(
                ExtractionError::TypeMismatch { from: other.kind_name(), into: "Vec<InstantSeqEvent>" },
            ),
        }
    }

    fn unwrap_dict(dict: TypedDict) -> (res: Result<Vec<(String, Self)>, ExtractionError>) {
        match dict {
            TypedDict::InstantSeqEvent(inner) => Ok(inner),
            other => Err(
                ExtractionError::TypeMismatch {
                    from: other.kind_name(),
                    into: "HashMap<String, InstantSeqEvent>",
                },
            ),
        }
    }
}

impl Variant for Volume {
    open spec fn names() -> (&'static str, &'static str, &'static str) {
        ("Volume", "Vec<Volume>", "HashMap<String, Volume>")
    }

    fn name() -> (res: &'static str) {
        "Volume"
    }

    fn list_name() -> (res: &'static str) {
        "Vec<Volume>"
    }

    fn dict_name() -> (res: &'static str) {
        "HashMap<String, Volume>"
    }

    open spec fn held(value: Value) -> Option<Self> {
        match value {
            Value::Volume(inner) => Some(inner),
            _ => None,
        }
    }

    open spec fn held_list(list: TypedList) -> Option<Vec<Self>> {
        match list {
            TypedList::Volume(inner) => Some(inner),
            _ => None,
        }
    }

    open spec fn held_dict(dict: TypedDict) -> Option<Vec<(String, Self)>> {
        match dict {
            TypedDict::Volume(inner) => Some(inner),
            _ => None,
        }
    }

    fn wrap(self) -> (value: Value) {
        Value::Volume(self)
    }

    fn wrap_list(items: Vec<Self>) -> (list: TypedList) {
        TypedList::Volume(items)
    }

    fn wrap_dict(entries: Vec<(String, Self)>) -> (dict: TypedDict) {
        TypedDict::Volume(entries)
    }

    fn unwrap(value: Value) -> (res: Result<Self, ExtractionError>) {
        match value {
            Value::Volume(inner) => Ok(inner),
            other => Err(ExtractionError::TypeMismatch { from: other.kind_name(), into: "Volume" }),
        }
    }

    fn unwrap_list(list: TypedList) -> (res: Result<Vec<Self>, ExtractionError>) {
        match list {
            TypedList::Volume(inner) => Ok(inner),
            other => Err(
                ExtractionError::TypeMismatch { from: other.kind_name(), into: "Vec<Volume>" },
            ),
        }
    }

    fn unwrap_dict(dict: TypedDict) -> (res: Result<Vec<(String, Self)>, ExtractionError>) {
        match dict {
            TypedDict::Volume(inner) => Ok(inner),
            other => Err(
                ExtractionError::TypeMismatch {
                    from: other.kind_name(),
                    into: "HashMap<String, Volume>",
                },
            ),
        }
    }
}

impl Variant for SegmentedPhantom {
    open spec fn names() -> (&'static str, &'static str, &'static str) {
        ("SegmentedPhantom", "Vec<SegmentedPhantom>", "HashMap<String, SegmentedPhantom>")
    }

    fn name() -> (res: &'static str) {
        "SegmentedPhantom"
    }

    fn list_name() -> (res: &'static str) {
        "Vec<SegmentedPhantom>"
    }

    fn dict_name() -> (res: &'static str) {
        "HashMap<String, SegmentedPhantom>"
    }

    open spec fn held(value: Value) -> Option<Self> {
        match value {
            Value::SegmentedPhantom(inner) => Some(inner),
            _ => None,
        }
    }

    open spec fn held_list(list: TypedList) -> Option<Vec<Self>> {
        match list {
            TypedList::SegmentedPhantom(inner) => Some(inner),
            _ => None,
        }
    }

    open spec fn held_dict(dict: TypedDict) -> Option<Vec<(String, Self)>> {
        match dict {
            TypedDict::SegmentedPhantom(inner) => Some(inner),
            _ => None,
        }
    }

    fn wrap(self) -> (value: Value) {
        Value::SegmentedPhantom(self)
    }

    fn wrap_list(items: Vec<Self>) -> (list: TypedList) {
        TypedList::SegmentedPhantom(items)
    }

    fn wrap_dict(entries: Vec<(String, Self)>) -> (dict: TypedDict) {
        TypedDict::SegmentedPhantom(entries)
    }

    fn unwrap(value: Value) -> (res: Result<Self, ExtractionError>) {
        match value {
            Value::SegmentedPhantom(inner) => Ok(inner),
            other => Err(ExtractionError::TypeMismatch { from: other.kind_name(), into: "SegmentedPhantom" }),
        }
    }

    fn unwrap_list(list: TypedList) -> (res: Result<Vec<Self>, ExtractionError>) {
        match list {
            TypedList::SegmentedPhantom(inner) => Ok(inner),
            other => Err(
                ExtractionError::TypeMismatch { from: other.kind_name(), into: "Vec<SegmentedPhantom>" },
            ),
        }
    }

    fn unwrap_dict(dict: TypedDict) -> (res: Result<Vec<(String, Self)>, ExtractionError>) {
        match dict {
            TypedDict::SegmentedPhantom(inner) => Ok(inner),
            other => Err(
                ExtractionError::TypeMismatch {
                    from: other.kind_name(),
                    into: "HashMap<String, SegmentedPhantom>",
                },
            ),
        }
    }
}

impl Variant for PhantomTissue {
    open spec fn names() -> (&'static str, &'static str, &'static str) {
        ("PhantomTissue", "Vec<PhantomTissue>", "HashMap<String, PhantomTissue>")
    }

    fn name() -> (res: &'static str) {
        "PhantomTissue"
    }

    fn list_name() -> (res: &'static str) {
        "Vec<PhantomTissue>"
    }

    fn dict_name() -> (res: &'static str) {
        "HashMap<String, PhantomTissue>"
    }

    open spec fn held(value: Value) -> Option<Self> {
        match value {
            Value::PhantomTissue(inner) => Some(inner),
            _ => None,
        }
    }

    open spec fn held_list(list: TypedList) -> Option<Vec<Self>> {
        match list {
            TypedList::PhantomTissue(inner) => Some(inner),
            _ => None,
        }
    }

    open spec fn held_dict(dict: TypedDict) -> Option<Vec<(String, Self)>> {
        match dict {
            TypedDict::PhantomTissue(inner) => Some(inner),
            _ => None,
        }
    }

    fn wrap(self) -> (value: Value) {
        Value::PhantomTissue(self)
    }

    fn wrap_list(items: Vec<Self>) -> (list: TypedList) {
        TypedList::PhantomTissue(items)
    }

    fn wrap_dict(entries: Vec<(String, Self)>) -> (dict: TypedDict) {
        TypedDict::PhantomTissue(entries)
    }

    fn unwrap(value: Value) -> (res: Result<Self, ExtractionError>) {
        match value {
            Value::PhantomTissue(inner) => Ok(inner),
            other => Err(ExtractionError::TypeMismatch { from: other.kind_name(), into: "PhantomTissue" }),
        }
    }

    fn unwrap_list(list: TypedList) -> (res: Result<Vec<Self>, ExtractionError>) {
        match list {
            TypedList::PhantomTissue(inner) => Ok(inner),
            other => Err(
                ExtractionError::TypeMismatch { from: other.kind_name(), into: "Vec<PhantomTissue>" },
            ),
        }
    }

    fn unwrap_dict(dict: TypedDict) -> (res: Result<Vec<(String, Self)>, ExtractionError>) {
        match dict {
            TypedDict::PhantomTissue(inner) => Ok(inner),
            other => Err(
                ExtractionError::TypeMismatch {
                    from: other.kind_name(),
                    into: "HashMap<String, PhantomTissue>",
                },
            ),
        }
    }
}

impl Value {
    /// Takes out what the value holds, where it holds the type asked for.
    pub fn extract<T: Variant>(self) -> (res: Result<T, ExtractionError>)
        ensures
            res == match T::held(self) {
                Some(inner) => Ok::<T, ExtractionError>(inner),
                None => Err(
                    ExtractionError::TypeMismatch {
                        from: self.spec_kind_name(),
                        into: T::names().0,
                    },
                ),
            },
    {
        T::unwrap(self)
    }

    /// Takes out the items of a typed list of the type asked for.
    pub fn extract_list<T: Variant>(self) -> (res: Result<Vec<T>, ExtractionError>)
        ensures
            res == match self {
                Value::TypedList(list) => match T::held_list(list) {
                    Some(inner) => Ok::<Vec<T>, ExtractionError>(inner),
                    None => Err(
                        ExtractionError::TypeMismatch {
                            from: list.spec_kind_name(),
                            into: T::names().1,
                        },
                    ),
                },
                other => Err(
                    ExtractionError::TypeMismatch {
                        from: other.spec_kind_name(),
                        into: T::names().1,
                    },
                ),
            },
    {
        match self {
            Value::TypedList(list) => T::unwrap_list(list),
            other => Err(
                ExtractionError::TypeMismatch { from: other.kind_name(), into: T::list_name() },
            ),
        }
    }

    /// Takes out the entries of a typed mapping of the type asked for.
    pub fn extract_dict<T: Variant>(self) -> (res: Result<Vec<(String, T)>, ExtractionError>)
        ensures
            res == match self {
                Value::TypedDict(dict) => match T::held_dict(dict) {
                    Some(inner) => Ok::<Vec<(String, T)>, ExtractionError>(inner),
                    None => Err(
                        ExtractionError::TypeMismatch {
                            from: dict.spec_kind_name(),
                            into: T::names().2,
                        },
                    ),
                },
                other => Err(
                    ExtractionError::TypeMismatch {
                        from: other.spec_kind_name(),
                        into: T::names().2,
                    },
                ),
            },
    {
        match self {
            Value::TypedDict(dict) => T::unwrap_dict(dict),
            other => Err(
                ExtractionError::TypeMismatch { from: other.kind_name(), into: T::dict_name() },
            ),
        }
    }
}

} // verus!
