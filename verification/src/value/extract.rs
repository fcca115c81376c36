//! Extraction of a nested value by a path.

use super::atomic::Str;
use super::copy::{clone_phantom, clone_tissue, clone_value, clone_volume};
use super::dynamic::{Dict, List};
use super::pointer::{index_views, parse_path, Index, IndexView, Pointer};
use super::typed::{TypedDict, TypedList};
use super::view::{
    entry_map, entry_views, lemma_entry_map_absent, lemma_entry_map_first,
    lemma_typed_list_view, phantom_entries, plain_entries, str_entries, tissue_entries,
    volume_entries, TypedDictView, TypedListView, ValueView,
};
use super::Value;
use crate::error::ExtractionError;
use vstd::prelude::*;
use vstd::slice::slice_subrange;

verus! {

/// The item of a typed list at a position, as a value of its own.
pub open spec fn typed_list_item(list: TypedListView, idx: int) -> Option<ValueView> {
    if 0 <= idx < list.len() {
        Some(list.item(idx))
    } else {
        None
    }
}

/// The item of a typed mapping under a key, as a value of its own.
pub open spec fn typed_dict_item(dict: TypedDictView, key: Seq<char>) -> Option<ValueView> {
    if dict.contains_key(key) {
        Some(dict.item(key))
    } else {
        None
    }
}

/// What a path extracts from a value.
///
/// An empty path gives the value itself, whatever its shape. Otherwise the
/// first step must fit the value: an index into a list, a key into a mapping.
/// A list or mapping of mixed items is entered and the rest of the path is
/// followed from the item. A typed list or mapping hands out an item only
/// where the path ends with this step, since its items do not nest.
pub open spec fn extract(value: ValueView, path: Seq<IndexView>) -> Result<
    ValueView,
    ExtractionError,
>
    decreases path.len(),
{
    if path.len() == 0 {
        Ok(value)
    } else {
        let rest = path.drop_first();
        match (value, path[0]) {
            (ValueView::List(items), IndexView::Idx(idx)) => if idx < items.len() {
                extract(items[idx as int], rest)
            } else {
                Err(ExtractionError::IndexOutOfBounds)
            },
            (ValueView::Dict(entries), IndexView::Key(key)) => if entries.contains_key(key) {
                extract(entries[key], rest)
            } else {
                Err(ExtractionError::KeyNotFound)
            },
            (ValueView::TypedList(list), IndexView::Idx(idx)) => if rest.len() > 0 {
                Err(ExtractionError::TooMuchNesting)
            } else {
                match typed_list_item(list, idx as int) {
                    Some(item) => Ok(item),
                    None => Err(ExtractionError::IndexOutOfBounds),
                }
            },
            (ValueView::TypedDict(dict), IndexView::Key(key)) => if rest.len() > 0 {
                Err(ExtractionError::TooMuchNesting)
            } else {
                match typed_dict_item(dict, key) {
                    Some(item) => Ok(item),
                    None => Err(ExtractionError::KeyNotFound),
                }
            },
            (ValueView::List(_), IndexView::Key(_)) => Err(ExtractionError::KeyForList),
            (ValueView::TypedList(_), IndexView::Key(_)) => Err(ExtractionError::KeyForList),
            (ValueView::Dict(_), IndexView::Idx(_)) => Err(ExtractionError::IndexForDict),
            (ValueView::TypedDict(_), IndexView::Idx(_)) => Err(ExtractionError::IndexForDict),
            _ => Err(ExtractionError::TooMuchNesting),
        }
    }
}

/// Whether an extraction came out as [`extract`] says.
pub open spec fn extracted(
    res: Result<Value, ExtractionError>,
    expected: Result<ValueView, ExtractionError>,
) -> bool {
    match res {
        Ok(value) => expected == Ok::<ValueView, ExtractionError>(value@),
        Err(err) => expected == Err::<ValueView, ExtractionError>(err),
    }
}

/// The position of the first entry with the key.
pub fn find_key<T>(entries: &Vec<(String, T)>, key: &String) -> (res: Option<usize>)
    ensures
        match res {
            Some(at) => {
                &&& at < entries.len()
                &&& entries[at as int].0@ == key@
                &&& forall|j: int| 0 <= j < at ==> entries[j].0@ != key@
            },
            None => forall|j: int| 0 <= j < entries.len() ==> entries[j].0@ != key@,
        },
{
    let mut i: usize = 0;
    while i < entries.len()
        invariant
            i <= entries.len(),
            forall|j: int| 0 <= j < i ==> entries[j].0@ != key@,
        decreases entries.len() - i,
    {
        if entries[i].0 == *key {
            return Some(i);
        }
        i += 1;
    }
    None
}

/// The item of a typed list at a position, or `IndexOutOfBounds`.
pub fn get_typed_list(list: &TypedList, idx: &usize) -> (res: Result<Value, ExtractionError>)
    ensures
        extracted(
            res,
            match typed_list_item(list@, *idx as int) {
                Some(item) => Ok(item),
                None => Err(ExtractionError::IndexOutOfBounds),
            },
        ),
{
    let at = *idx;
    proof {
        lemma_typed_list_view(*list);
    }
    match list {
        TypedList::Unit(items) => if at < items.len() {
            Ok(Value::Unit(items[at]))
        } else {
            Err(ExtractionError::IndexOutOfBounds)
        },
        TypedList::Bool(items) => if at < items.len() {
            Ok(Value::Bool(items[at]))
        } else {
            Err(ExtractionError::IndexOutOfBounds)
        },
        TypedList::Int(items) => if at < items.len() {
            Ok(Value::Int(items[at]))
        } else {
            Err(ExtractionError::IndexOutOfBounds)
        },
        TypedList::Float(items) => if at < items.len() {
            Ok(Value::Float(items[at]))
        } else {
            Err(ExtractionError::IndexOutOfBounds)
        },
        TypedList::Str(items) => if at < items.len() {
            Ok(Value::Str(Str(items[at].0.clone())))
        } else {
            Err(ExtractionError::IndexOutOfBounds)
        },
        TypedList::Complex(items) => if at < items.len() {
            Ok(Value::Complex(items[at]))
        } else {
            Err(ExtractionError::IndexOutOfBounds)
        },
        TypedList::Vec3(items) => if at < items.len() {
            Ok(Value::Vec3(items[at]))
        } else {
            Err(ExtractionError::IndexOutOfBounds)
        },
        TypedList::Vec4(items) => if at < items.len() {
            Ok(Value::Vec4(items[at]))
        } else {
            Err(ExtractionError::IndexOutOfBounds)
        },
        TypedList::InstantSeqEvent(items) => if at < items.len() {
            Ok(Value::InstantSeqEvent(items[at]))
        } else {
            Err(ExtractionError::IndexOutOfBounds)
        },
        TypedList::Volume(items) => if at < items.len() {
            Ok(Value::Volume(clone_volume(&items[at])))
        } else {
            Err(ExtractionError::IndexOutOfBounds)
        },
        TypedList::SegmentedPhantom(items) => if at < items.len() {
            Ok(Value::SegmentedPhantom(clone_phantom(&items[at])))
        } else {
            Err(ExtractionError::IndexOutOfBounds)
        },
        TypedList::PhantomTissue(items) => if at < items.len() {
            Ok(Value::PhantomTissue(clone_tissue(&items[at])))
        } else {
            Err(ExtractionError::IndexOutOfBounds)
        },
    }
}

/// The item of a typed mapping under a key, or `KeyNotFound`.
pub fn get_typed_dict(dict: &TypedDict, key: &String) -> (res: Result<Value, ExtractionError>)
    ensures
        extracted(
            res,
            match typed_dict_item(dict@, key@) {
                Some(item) => Ok(item),
                None => Err(ExtractionError::KeyNotFound),
            },
        ),
{
    match dict {
        TypedDict::Unit(items) => match find_key(items, key) {
            Some(at) => {
                proof {
                    lemma_entry_map_first(plain_entries(items@), key@, at as int);
                }
                Ok(Value::Unit(items[at].1))
            },
            None => {
                proof {
                    lemma_entry_map_absent(plain_entries(items@), key@);
                }
                Err(ExtractionError::KeyNotFound)
            },
        },
        TypedDict::Bool(items) => match find_key(items, key) {
            Some(at) => {
                proof {
                    lemma_entry_map_first(plain_entries(items@), key@, at as int);
                }
                Ok(Value::Bool(items[at].1))
            },
            None => {
                proof {
                    lemma_entry_map_absent(plain_entries(items@), key@);
                }
                Err(ExtractionError::KeyNotFound)
            },
        },
        TypedDict::Int(items) => match find_key(items, key) {
            Some(at) => {
                proof {
                    lemma_entry_map_first(plain_entries(items@), key@, at as int);
                }
                Ok(Value::Int(items[at].1))
            },
            None => {
                proof {
                    lemma_entry_map_absent(plain_entries(items@), key@);
                }
                Err(ExtractionError::KeyNotFound)
            },
        },
        TypedDict::Float(items) => match find_key(items, key) {
            Some(at) => {
                proof {
                    lemma_entry_map_first(plain_entries(items@), key@, at as int);
                }
                Ok(Value::Float(items[at].1))
            },
            None => {
                proof {
                    lemma_entry_map_absent(plain_entries(items@), key@);
                }
                Err(ExtractionError::KeyNotFound)
            },
        },
        TypedDict::Str(items) => match find_key(items, key) {
            Some(at) => {
                proof {
                    lemma_entry_map_first(str_entries(items@), key@, at as int);
                }
                Ok(Value::Str(Str(items[at].1.0.clone())))
            },
            None => {
                proof {
                    lemma_entry_map_absent(str_entries(items@), key@);
                }
                Err(ExtractionError::KeyNotFound)
            },
        },
        TypedDict::Complex(items) => match find_key(items, key) {
            Some(at) => {
                proof {
                    lemma_entry_map_first(plain_entries(items@), key@, at as int);
                }
                Ok(Value::Complex(items[at].1))
            },
            None => {
                proof {
                    lemma_entry_map_absent(plain_entries(items@), key@);
                }
                Err(ExtractionError::KeyNotFound)
            },
        },
        TypedDict::Vec3(items) => match find_key(items, key) {
            Some(at) => {
                proof {
                    lemma_entry_map_first(plain_entries(items@), key@, at as int);
                }
                Ok(Value::Vec3(items[at].1))
            },
            None => {
                proof {
                    lemma_entry_map_absent(plain_entries(items@), key@);
                }
                Err(ExtractionError::KeyNotFound)
            },
        },
        TypedDict::Vec4(items) => match find_key(items, key) {
            Some(at) => {
                proof {
                    lemma_entry_map_first(plain_entries(items@), key@, at as int);
                }
                Ok(Value::Vec4(items[at].1))
            },
            None => {
                proof {
                    lemma_entry_map_absent(plain_entries(items@), key@);
                }
                Err(ExtractionError::KeyNotFound)
            },
        },
        TypedDict::InstantSeqEvent(items) => match find_key(items, key) {
            Some(at) => {
                proof {
                    lemma_entry_map_first(plain_entries(items@), key@, at as int);
                }
                Ok(Value::InstantSeqEvent(items[at].1))
            },
            None => {
                proof {
                    lemma_entry_map_absent(plain_entries(items@), key@);
                }
                Err(ExtractionError::KeyNotFound)
            },
        },
        TypedDict::Volume(items) => match find_key(items, key) {
            Some(at) => {
                proof {
                    lemma_entry_map_first(volume_entries(items@), key@, at as int);
                }
                Ok(Value::Volume(clone_volume(&items[at].1)))
            },
            None => {
                proof {
                    lemma_entry_map_absent(volume_entries(items@), key@);
                }
                Err(ExtractionError::KeyNotFound)
            },
        },
        TypedDict::SegmentedPhantom(items) => match find_key(items, key) {
            Some(at) => {
                proof {
                    lemma_entry_map_first(phantom_entries(items@), key@, at as int);
                }
                Ok(Value::SegmentedPhantom(clone_phantom(&items[at].1)))
            },
            None => {
                proof {
                    lemma_entry_map_absent(phantom_entries(items@), key@);
                }
                Err(ExtractionError::KeyNotFound)
            },
        },
        TypedDict::PhantomTissue(items) => match find_key(items, key) {
            Some(at) => {
                proof {
                    lemma_entry_map_first(tissue_entries(items@), key@, at as int);
                }
                Ok(Value::PhantomTissue(clone_tissue(&items[at].1)))
            },
            None => {
                proof {
                    lemma_entry_map_absent(tissue_entries(items@), key@);
                }
                Err(ExtractionError::KeyNotFound)
            },
        },
    }
}

/// Follows the rest of a path from the item of a list at a position.
pub fn get_list(list: &List, index: &usize, rest: &[Index]) -> (res: Result<
    Value,
    ExtractionError,
>)
    ensures
        extracted(
            res,
            if *index < list@.len() {
                extract(list@[*index as int], index_views(rest@))
            } else {
                Err(ExtractionError::IndexOutOfBounds)
            },
        ),
    decreases rest@.len(), 1nat,
{
    if *index < list.0.len() {
        list.0[*index]._get(rest)
    } else {
        Err(ExtractionError::IndexOutOfBounds)
    }
}

/// Follows the rest of a path from the item of a mapping under a key.
pub fn get_dict(dict: &Dict, key: &String, rest: &[Index]) -> (res: Result<Value, ExtractionError>)
    ensures
        extracted(
            res,
            if dict@.contains_key(key@) {
                extract(dict@[key@], index_views(rest@))
            } else {
                Err(ExtractionError::KeyNotFound)
            },
        ),
    decreases rest@.len(), 1nat,
{
    match find_key(&dict.0, key) {
        Some(at) => {
            proof {
                lemma_entry_map_first(entry_views(dict.0@), key@, at as int);
            }
            dict.0[at].1._get(rest)
        },
        None => {
            proof {
                lemma_entry_map_absent(entry_views(dict.0@), key@);
            }
            Err(ExtractionError::KeyNotFound)
        },
    }
}

impl Value {
    /// Extracts the value that a path leads to, as a copy.
    ///
    /// The path is whatever turns into a [`Pointer`]: a text is read by
    /// [`parse_path`], an index is a path of one step. What comes out is
    /// what [`extract`] says for that path. For a path that is a
    /// [`Pointer`] already, [`get_at`](Value::get_at) says the same without
    /// a conversion in between.
    pub fn get<P: Into<Pointer>>(&self, ptr: P) -> (res: Result<Value, ExtractionError>)
        requires
            call_requires(P::into, (ptr,)),
        ensures
            exists|path: Pointer|
                call_ensures(P::into, (ptr,), path) && extracted(res, extract(self@, path@)),
    {
        let path: Pointer = ptr.into();
        let res = self._get(path.0.as_slice());
        assert(call_ensures(P::into, (ptr,), path) && extracted(res, extract(self@, path@)));
        res
    }

    /// Extracts the value that a path leads to, as a copy.
    pub fn get_at(&self, ptr: &Pointer) -> (res: Result<Value, ExtractionError>)
        ensures
            extracted(res, extract(self@, ptr@)),
    {
        self._get(ptr.0.as_slice())
    }

    /// Extracts the value that the steps of a path lead to, as a copy.
    pub fn _get(&self, ptr: &[Index]) -> (res: Result<Value, ExtractionError>)
        ensures
            extracted(res, extract(self@, index_views(ptr@))),
        decreases ptr@.len(), 0nat,
    {
        if ptr.len() == 0 {
            return Ok(clone_value(self));
        }
        let rest = slice_subrange(ptr, 1, ptr.len());
        proof {
            assert(index_views(rest@) =~= index_views(ptr@).drop_first());
        }
        match (self, &ptr[0]) {
            // simple indexing into List / Dict - call recursively into them
            (Value::List(list), Index::Idx(idx)) => get_list(list, idx, rest),
            (Value::Dict(dict), Index::Key(key)) => get_dict(dict, key, rest),
            // typed List / Dict: contain atomic types, must be end of path
            (Value::TypedList(list), Index::Idx(idx)) => if rest.len() > 0 {
                Err(ExtractionError::TooMuchNesting)
            } else {
                get_typed_list(list, idx)
            },
            (Value::TypedDict(dict), Index::Key(key)) => if rest.len() > 0 {
                Err(ExtractionError::TooMuchNesting)
            } else {
                get_typed_dict(dict, key)
            },
            // Wrong type of index for List / Dict
            (Value::List(_), Index::Key(_)) => Err(ExtractionError::KeyForList),
            (Value::Dict(_), Index::Idx(_)) => Err(ExtractionError::IndexForDict),
            (Value::TypedList(_), Index::Key(_)) => Err(ExtractionError::KeyForList),
            (Value::TypedDict(_), Index::Idx(_)) => Err(ExtractionError::IndexForDict),
            // Trying to index into a non-list/dict value
            _ => Err(ExtractionError::TooMuchNesting),
        }
    }
}

/// The empty path, and so the empty text, leads to the value itself,
/// whatever its shape.
pub proof fn lemma_extract_empty(value: ValueView)
    ensures
        extract(value, Seq::empty()) == Ok::<ValueView, ExtractionError>(value),
        extract(value, parse_path(Seq::empty())) == Ok::<ValueView, ExtractionError>(value),
{
}

/// No path but the empty one leads into a value that is neither a list nor
/// a mapping.
pub proof fn lemma_extract_leaf(value: ValueView, path: Seq<IndexView>)
    requires
        path.len() > 0,
        !(value is List || value is Dict || value is TypedList || value is TypedDict),
    ensures
        extract(value, path) == Err::<ValueView, ExtractionError>(
            ExtractionError::TooMuchNesting,
        ),
{
}

/// An index at or past the end of a list is out of bounds, whatever follows
/// it in the path.
pub proof fn lemma_extract_out_of_bounds(items: Seq<ValueView>, path: Seq<IndexView>)
    requires
        path.len() > 0,
        path[0] matches IndexView::Idx(idx) && idx >= items.len(),
    ensures
        extract(ValueView::List(items), path) == Err::<ValueView, ExtractionError>(
            ExtractionError::IndexOutOfBounds,
        ),
{
}

/// A key that a mapping does not hold is not found, whatever follows it in
/// the path.
pub proof fn lemma_extract_missing_key(entries: Map<Seq<char>, ValueView>, path: Seq<IndexView>)
    requires
        path.len() > 0,
        path[0] matches IndexView::Key(key) && !entries.contains_key(key),
    ensures
        extract(ValueView::Dict(entries), path) == Err::<ValueView, ExtractionError>(
            ExtractionError::KeyNotFound,
        ),
{
}

/// A path of two or more steps never leads into a typed list or mapping
/// when its first step fits: their items do not nest.
pub proof fn lemma_extract_typed_nesting(value: ValueView, path: Seq<IndexView>)
    requires
        path.len() > 1,
        (value is TypedList && path[0] is Idx) || (value is TypedDict && path[0] is Key),
    ensures
        extract(value, path) == Err::<ValueView, ExtractionError>(
            ExtractionError::TooMuchNesting,
        ),
{
}

} // verus!
