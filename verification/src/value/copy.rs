//! Deep copies. Each copy has the same view as its source.

use super::atomic::Str;
use super::dynamic::{Dict, List};
use super::structured::{PhantomTissue, SegmentedPhantom, Volume};
use super::typed::{TypedDict, TypedList};
use super::view::{
    entry_views, lemma_dict_view, lemma_list_view, lemma_phantom_view, lemma_typed_list_view,
    phantom_entries, phantom_views, str_entries, str_views, tissue_entries, tissue_views,
    value_views, volume_entries, volume_views,
};
use super::Value;
use vstd::prelude::*;

verus! {

pub fn copy_items<T: Copy>(items: &Vec<T>) -> (out: Vec<T>)
    ensures
        out@ == items@,
{
    let mut out: Vec<T> = Vec::new();
    let mut i: usize = 0;
    while i < items.len()
        invariant
            i <= items.len(),
            out@ == items@.subrange(0, i as int),
        decreases items.len() - i,
    {
        out.push(items[i]);
        i += 1;
        assert(out@ =~= items@.subrange(0, i as int));
    }
    assert(out@ =~= items@);
    out
}

pub fn copy_entries<T: Copy>(entries: &Vec<(String, T)>) -> (out: Vec<(String, T)>)
    ensures
        out@ == entries@,
{
    let mut out: Vec<(String, T)> = Vec::new();
    let mut i: usize = 0;
    while i < entries.len()
        invariant
            i <= entries.len(),
            out@ == entries@.subrange(0, i as int),
        decreases entries.len() - i,
    {
        out.push((entries[i].0.clone(), entries[i].1));
        i += 1;
        assert(out@ =~= entries@.subrange(0, i as int));
    }
    assert(out@ =~= entries@);
    out
}

pub fn clone_strs(items: &Vec<Str>) -> (out: Vec<Str>)
    ensures
        str_views(out@) == str_views(items@),
{
    let mut out: Vec<Str> = Vec::new();
    let mut i: usize = 0;
    while i < items.len()
        invariant
            i <= items.len(),
            out.len() == i,
            forall|j: int| 0 <= j < i ==> out@[j]@ == items@[j]@,
        decreases items.len() - i,
    {
        out.push(Str(items[i].0.clone()));
        i += 1;
    }
    assert(str_views(out@) =~= str_views(items@));
    out
}

pub fn clone_str_entries(entries: &Vec<(String, Str)>) -> (out: Vec<(String, Str)>)
    ensures
        str_entries(out@) == str_entries(entries@),
{
    let mut out: Vec<(String, Str)> = Vec::new();
    let mut i: usize = 0;
    while i < entries.len()
        invariant
            i <= entries.len(),
            out.len() == i,
            forall|j: int|
                0 <= j < i ==> out@[j].0@ == entries@[j].0@ && out@[j].1@ == entries@[j].1@,
        decreases entries.len() - i,
    {
        out.push((entries[i].0.clone(), Str(entries[i].1.0.clone())));
        i += 1;
    }
    assert(str_entries(out@) =~= str_entries(entries@));
    out
}

pub fn clone_volume(volume: &Volume) -> (out: Volume)
    ensures
        out@ == volume@,
    decreases volume,
{
    Volume { shape: volume.shape, affine: volume.affine, data: clone_typed_list(&volume.data) }
}

pub fn clone_tissue(tissue: &PhantomTissue) -> (out: PhantomTissue)
    ensures
        out@ == tissue@,
    decreases tissue,
{
    PhantomTissue {
        density: clone_volume(&tissue.density),
        db0: clone_volume(&tissue.db0),
        t1: tissue.t1,
        t2: tissue.t2,
        t2dash: tissue.t2dash,
        adc: tissue.adc,
    }
}

pub fn clone_phantom(phantom: &SegmentedPhantom) -> (out: SegmentedPhantom)
    ensures
        out@ == phantom@,
    decreases phantom,
{
    let out = SegmentedPhantom {
        tissues: clone_tissues(&phantom.tissues),
        b1_tx: clone_volumes(&phantom.b1_tx),
        b1_rx: clone_volumes(&phantom.b1_rx),
    };
    proof {
        lemma_phantom_view(out);
        lemma_phantom_view(*phantom);
    }
    out
}

pub fn clone_volumes(items: &Vec<Volume>) -> (out: Vec<Volume>)
    ensures
        volume_views(out@) == volume_views(items@),
    decreases items,
{
    let mut out: Vec<Volume> = Vec::new();
    let mut i: usize = 0;
    while i < items.len()
        invariant
            i <= items.len(),
            out.len() == i,
            forall|j: int| 0 <= j < i ==> out@[j]@ == items@[j]@,
        decreases items.len() - i,
    {
        out.push(clone_volume(&items[i]));
        i += 1;
    }
    assert(volume_views(out@) =~= volume_views(items@));
    out
}

pub fn clone_tissues(items: &Vec<PhantomTissue>) -> (out: Vec<PhantomTissue>)
    ensures
        tissue_views(out@) == tissue_views(items@),
    decreases items,
{
    let mut out: Vec<PhantomTissue> = Vec::new();
    let mut i: usize = 0;
    while i < items.len()
        invariant
            i <= items.len(),
            out.len() == i,
            forall|j: int| 0 <= j < i ==> out@[j]@ == items@[j]@,
        decreases items.len() - i,
    {
        out.push(clone_tissue(&items[i]));
        i += 1;
    }
    assert(tissue_views(out@) =~= tissue_views(items@));
    out
}

pub fn clone_phantoms(items: &Vec<SegmentedPhantom>) -> (out: Vec<SegmentedPhantom>)
    ensures
        phantom_views(out@) == phantom_views(items@),
    decreases items,
{
    let mut out: Vec<SegmentedPhantom> = Vec::new();
    let mut i: usize = 0;
    while i < items.len()
        invariant
            i <= items.len(),
            out.len() == i,
            forall|j: int| 0 <= j < i ==> out@[j]@ == items@[j]@,
        decreases items.len() - i,
    {
        out.push(clone_phantom(&items[i]));
        i += 1;
    }
    assert(phantom_views(out@) =~= phantom_views(items@));
    out
}

pub fn clone_volume_entries(entries: &Vec<(String, Volume)>) -> (out: Vec<(String, Volume)>)
    ensures
        volume_entries(out@) == volume_entries(entries@),
    decreases entries,
{
    let mut out: Vec<(String, Volume)> = Vec::new();
    let mut i: usize = 0;
    while i < entries.len()
        invariant
            i <= entries.len(),
            out.len() == i,
            forall|j: int|
                0 <= j < i ==> out@[j].0@ == entries@[j].0@ && out@[j].1@ == entries@[j].1@,
        decreases entries.len() - i,
    {
        out.push((entries[i].0.clone(), clone_volume(&entries[i].1)));
        i += 1;
    }
    assert(volume_entries(out@) =~= volume_entries(entries@));
    out
}

pub fn clone_tissue_entries(entries: &Vec<(String, PhantomTissue)>) -> (out: Vec<
    (String, PhantomTissue),
>)
    ensures
        tissue_entries(out@) == tissue_entries(entries@),
    decreases entries,
{
    let mut out: Vec<(String, PhantomTissue)> = Vec::new();
    let mut i: usize = 0;
    while i < entries.len()
        invariant
            i <= entries.len(),
            out.len() == i,
            forall|j: int|
                0 <= j < i ==> out@[j].0@ == entries@[j].0@ && out@[j].1@ == entries@[j].1@,
        decreases entries.len() - i,
    {
        out.push((entries[i].0.clone(), clone_tissue(&entries[i].1)));
        i += 1;
    }
    assert(tissue_entries(out@) =~= tissue_entries(entries@));
    out
}

pub fn clone_phantom_entries(entries: &Vec<(String, SegmentedPhantom)>) -> (out: Vec<
    (String, SegmentedPhantom),
>)
    ensures
        phantom_entries(out@) == phantom_entries(entries@),
    decreases entries,
{
    let mut out: Vec<(String, SegmentedPhantom)> = Vec::new();
    let mut i: usize = 0;
    while i < entries.len()
        invariant
            i <= entries.len(),
            out.len() == i,
            forall|j: int|
                0 <= j < i ==> out@[j].0@ == entries@[j].0@ && out@[j].1@ == entries@[j].1@,
        decreases entries.len() - i,
    {
        out.push((entries[i].0.clone(), clone_phantom(&entries[i].1)));
        i += 1;
    }
    assert(phantom_entries(out@) =~= phantom_entries(entries@));
    out
}

pub fn clone_typed_list(list: &TypedList) -> (out: TypedList)
    ensures
        out@ == list@,
    decreases list,
{
    let out = match list {
        TypedList::Unit(items) => TypedList::Unit(copy_items(items)),
        TypedList::Bool(items) => TypedList::Bool(copy_items(items)),
        TypedList::Int(items) => TypedList::Int(copy_items(items)),
        TypedList::Float(items) => TypedList::Float(copy_items(items)),
        TypedList::Complex(items) => TypedList::Complex(copy_items(items)),
        TypedList::Vec3(items) => TypedList::Vec3(copy_items(items)),
        TypedList::Vec4(items) => TypedList::Vec4(copy_items(items)),
        TypedList::Str(items) => TypedList::Str(clone_strs(items)),
        TypedList::InstantSeqEvent(items) => TypedList::InstantSeqEvent(copy_items(items)),
        TypedList::Volume(items) => TypedList::Volume(clone_volumes(items)),
        TypedList::SegmentedPhantom(items) => TypedList::SegmentedPhantom(clone_phantoms(items)),
        TypedList::PhantomTissue(items) => TypedList::PhantomTissue(clone_tissues(items)),
    };
    proof {
        lemma_typed_list_view(out);
        lemma_typed_list_view(*list);
    }
    out
}

pub fn clone_typed_dict(dict: &TypedDict) -> (out: TypedDict)
    ensures
        out@ == dict@,
    decreases dict,
{
    match dict {
        TypedDict::Unit(entries) => TypedDict::Unit(copy_entries(entries)),
        TypedDict::Bool(entries) => TypedDict::Bool(copy_entries(entries)),
        TypedDict::Int(entries) => TypedDict::Int(copy_entries(entries)),
        TypedDict::Float(entries) => TypedDict::Float(copy_entries(entries)),
        TypedDict::Complex(entries) => TypedDict::Complex(copy_entries(entries)),
        TypedDict::Vec3(entries) => TypedDict::Vec3(copy_entries(entries)),
        TypedDict::Vec4(entries) => TypedDict::Vec4(copy_entries(entries)),
        TypedDict::Str(entries) => TypedDict::Str(clone_str_entries(entries)),
        TypedDict::InstantSeqEvent(entries) => TypedDict::InstantSeqEvent(copy_entries(entries)),
        TypedDict::Volume(entries) => TypedDict::Volume(clone_volume_entries(entries)),
        TypedDict::SegmentedPhantom(entries) => TypedDict::SegmentedPhantom(
            clone_phantom_entries(entries),
        ),
        TypedDict::PhantomTissue(entries) => TypedDict::PhantomTissue(
            clone_tissue_entries(entries),
        ),
    }
}

pub fn clone_values(items: &Vec<Value>) -> (out: Vec<Value>)
    ensures
        value_views(out@) == value_views(items@),
    decreases items,
{
    let mut out: Vec<Value> = Vec::new();
    let mut i: usize = 0;
    while i < items.len()
        invariant
            i <= items.len(),
            out.len() == i,
            forall|j: int| 0 <= j < i ==> out@[j]@ == items@[j]@,
        decreases items.len() - i,
    {
        out.push(clone_value(&items[i]));
        i += 1;
    }
    assert(value_views(out@) =~= value_views(items@));
    out
}

pub fn clone_value_entries(entries: &Vec<(String, Value)>) -> (out: Vec<(String, Value)>)
    ensures
        entry_views(out@) == entry_views(entries@),
    decreases entries,
{
    let mut out: Vec<(String, Value)> = Vec::new();
    let mut i: usize = 0;
    while i < entries.len()
        invariant
            i <= entries.len(),
            out.len() == i,
            forall|j: int|
                0 <= j < i ==> out@[j].0@ == entries@[j].0@ && out@[j].1@ == entries@[j].1@,
        decreases entries.len() - i,
    {
        out.push((entries[i].0.clone(), clone_value(&entries[i].1)));
        i += 1;
    }
    assert(entry_views(out@) =~= entry_views(entries@));
    out
}

pub fn clone_value(value: &Value) -> (out: Value)
    ensures
        out@ == value@,
    decreases value,
{
    match value {
        Value::Unit(x) => Value::Unit(*x),
        Value::Bool(x) => Value::Bool(*x),
        Value::Int(x) => Value::Int(*x),
        Value::Float(x) => Value::Float(*x),
        Value::Complex(x) => Value::Complex(*x),
        Value::Vec3(x) => Value::Vec3(*x),
        Value::Vec4(x) => Value::Vec4(*x),
        Value::Str(x) => Value::Str(Str(x.0.clone())),
        Value::InstantSeqEvent(x) => Value::InstantSeqEvent(*x),
        Value::Volume(x) => Value::Volume(clone_volume(x)),
        Value::SegmentedPhantom(x) => Value::SegmentedPhantom(clone_phantom(x)),
        Value::PhantomTissue(x) => Value::PhantomTissue(clone_tissue(x)),
        Value::Dict(x) => {
            let out = Dict(clone_value_entries(&x.0));
            proof {
                lemma_dict_view(out);
                lemma_dict_view(*x);
            }
            Value::Dict(out)
        },
        Value::List(x) => {
            let out = List(clone_values(&x.0));
            proof {
                lemma_list_view(out);
                lemma_list_view(*x);
            }
            Value::List(out)
        },
        Value::TypedDict(x) => Value::TypedDict(clone_typed_dict(x)),
        Value::TypedList(x) => Value::TypedList(clone_typed_list(x)),
    }
}

impl Clone for Volume {
    fn clone(&self) -> (out: Self)
        ensures
            out@ == self@,
    {
        clone_volume(self)
    }
}

impl Clone for PhantomTissue {
    fn clone(&self) -> (out: Self)
        ensures
            out@ == self@,
    {
        clone_tissue(self)
    }
}

impl Clone for SegmentedPhantom {
    fn clone(&self) -> (out: Self)
        ensures
            out@ == self@,
    {
        clone_phantom(self)
    }
}

impl Clone for TypedList {
    fn clone(&self) -> (out: Self)
        ensures
            out@ == self@,
    {
        clone_typed_list(self)
    }
}

impl Clone for TypedDict {
    fn clone(&self) -> (out: Self)
        ensures
            out@ == self@,
    {
        clone_typed_dict(self)
    }
}

impl Clone for List {
    fn clone(&self) -> (out: Self)
        ensures
            out@ == self@,
    {
        List(clone_values(&self.0))
    }
}

impl Clone for Dict {
    fn clone(&self) -> (out: Self)
        ensures
            out@ == self@,
    {
        Dict(clone_value_entries(&self.0))
    }
}

impl Clone for Value {
    fn clone(&self) -> (out: Self)
        ensures
            out@ == self@,
    {
        clone_value(self)
    }
}

} // verus!
