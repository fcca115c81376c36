//! What a value is, mathematically: sequences in place of vectors, maps in
//! place of entry lists. Contracts speak of these.

use super::atomic::{Bool, Complex, Float, Int, Str, Unit, Vec3, Vec4};
use super::dynamic::{Dict, List};
use super::structured::{InstantSeqEvent, PhantomTissue, SegmentedPhantom, Volume};
use super::typed::{TypedDict, TypedList};
use super::Value;
use vstd::prelude::*;

verus! {

pub struct VolumeView {
    pub shape: [u64; 3],
    pub affine: [[u64; 4]; 3],
    pub data: TypedListView,
}

pub struct PhantomTissueView {
    pub density: VolumeView,
    pub db0: VolumeView,
    pub t1: Float,
    pub t2: Float,
    pub t2dash: Float,
    pub adc: Float,
}

pub struct SegmentedPhantomView {
    pub tissues: Seq<PhantomTissueView>,
    pub b1_tx: Seq<VolumeView>,
    pub b1_rx: Seq<VolumeView>,
}

pub enum TypedListView {
    Unit(Seq<Unit>),
    Bool(Seq<Bool>),
    Int(Seq<Int>),
    Float(Seq<Float>),
    Complex(Seq<Complex>),
    Vec3(Seq<Vec3>),
    Vec4(Seq<Vec4>),
    Str(Seq<Seq<char>>),
    InstantSeqEvent(Seq<InstantSeqEvent>),
    Volume(Seq<VolumeView>),
    SegmentedPhantom(Seq<SegmentedPhantomView>),
    PhantomTissue(Seq<PhantomTissueView>),
}

pub enum TypedDictView {
    Unit(Map<Seq<char>, Unit>),
    Bool(Map<Seq<char>, Bool>),
    Int(Map<Seq<char>, Int>),
    Float(Map<Seq<char>, Float>),
    Complex(Map<Seq<char>, Complex>),
    Vec3(Map<Seq<char>, Vec3>),
    Vec4(Map<Seq<char>, Vec4>),
    Str(Map<Seq<char>, Seq<char>>),
    InstantSeqEvent(Map<Seq<char>, InstantSeqEvent>),
    Volume(Map<Seq<char>, VolumeView>),
    SegmentedPhantom(Map<Seq<char>, SegmentedPhantomView>),
    PhantomTissue(Map<Seq<char>, PhantomTissueView>),
}

pub enum ValueView {
    Unit(Unit),
    Bool(Bool),
    Int(Int),
    Float(Float),
    Complex(Complex),
    Vec3(Vec3),
    Vec4(Vec4),
    Str(Seq<char>),
    InstantSeqEvent(InstantSeqEvent),
    Volume(VolumeView),
    SegmentedPhantom(SegmentedPhantomView),
    PhantomTissue(PhantomTissueView),
    Dict(Map<Seq<char>, ValueView>),
    List(Seq<ValueView>),
    TypedDict(TypedDictView),
    TypedList(TypedListView),
}

impl TypedListView {
    /// The number of items.
    pub open spec fn len(self) -> nat {
        match self {
            TypedListView::Unit(items) => items.len(),
            TypedListView::Bool(items) => items.len(),
            TypedListView::Int(items) => items.len(),
            TypedListView::Float(items) => items.len(),
            TypedListView::Complex(items) => items.len(),
            TypedListView::Vec3(items) => items.len(),
            TypedListView::Vec4(items) => items.len(),
            TypedListView::Str(items) => items.len(),
            TypedListView::InstantSeqEvent(items) => items.len(),
            TypedListView::Volume(items) => items.len(),
            TypedListView::SegmentedPhantom(items) => items.len(),
            TypedListView::PhantomTissue(items) => items.len(),
        }
    }

    /// The item at a position, as a value of its own.
    pub open spec fn item(self, idx: int) -> ValueView {
        match self {
            TypedListView::Unit(items) => ValueView::Unit(items[idx]),
            TypedListView::Bool(items) => ValueView::Bool(items[idx]),
            TypedListView::Int(items) => ValueView::Int(items[idx]),
            TypedListView::Float(items) => ValueView::Float(items[idx]),
            TypedListView::Complex(items) => ValueView::Complex(items[idx]),
            TypedListView::Vec3(items) => ValueView::Vec3(items[idx]),
            TypedListView::Vec4(items) => ValueView::Vec4(items[idx]),
            TypedListView::Str(items) => ValueView::Str(items[idx]),
            TypedListView::InstantSeqEvent(items) => ValueView::InstantSeqEvent(items[idx]),
            TypedListView::Volume(items) => ValueView::Volume(items[idx]),
            TypedListView::SegmentedPhantom(items) => ValueView::SegmentedPhantom(items[idx]),
            TypedListView::PhantomTissue(items) => ValueView::PhantomTissue(items[idx]),
        }
    }
}

impl TypedDictView {
    pub open spec fn contains_key(self, key: Seq<char>) -> bool {
        match self {
            TypedDictView::Unit(items) => items.contains_key(key),
            TypedDictView::Bool(items) => items.contains_key(key),
            TypedDictView::Int(items) => items.contains_key(key),
            TypedDictView::Float(items) => items.contains_key(key),
            TypedDictView::Complex(items) => items.contains_key(key),
            TypedDictView::Vec3(items) => items.contains_key(key),
            TypedDictView::Vec4(items) => items.contains_key(key),
            TypedDictView::Str(items) => items.contains_key(key),
            TypedDictView::InstantSeqEvent(items) => items.contains_key(key),
            TypedDictView::Volume(items) => items.contains_key(key),
            TypedDictView::SegmentedPhantom(items) => items.contains_key(key),
            TypedDictView::PhantomTissue(items) => items.contains_key(key),
        }
    }

    /// The item under a key, as a value of its own.
    pub open spec fn item(self, key: Seq<char>) -> ValueView {
        match self {
            TypedDictView::Unit(items) => ValueView::Unit(items[key]),
            TypedDictView::Bool(items) => ValueView::Bool(items[key]),
            TypedDictView::Int(items) => ValueView::Int(items[key]),
            TypedDictView::Float(items) => ValueView::Float(items[key]),
            TypedDictView::Complex(items) => ValueView::Complex(items[key]),
            TypedDictView::Vec3(items) => ValueView::Vec3(items[key]),
            TypedDictView::Vec4(items) => ValueView::Vec4(items[key]),
            TypedDictView::Str(items) => ValueView::Str(items[key]),
            TypedDictView::InstantSeqEvent(items) => ValueView::InstantSeqEvent(items[key]),
            TypedDictView::Volume(items) => ValueView::Volume(items[key]),
            TypedDictView::SegmentedPhantom(items) => ValueView::SegmentedPhantom(items[key]),
            TypedDictView::PhantomTissue(items) => ValueView::PhantomTissue(items[key]),
        }
    }
}

/// The mapping that a list of entries stands for: each key maps to the value
/// of the first entry that has it.
pub open spec fn entry_map<V>(entries: Seq<(Seq<char>, V)>) -> Map<Seq<char>, V>
    decreases entries.len(),
{
    if entries.len() == 0 {
        Map::empty()
    } else {
        entry_map(entries.drop_first()).insert(entries[0].0, entries[0].1)
    }
}

/// A key maps to the value of the first entry that has it.
pub proof fn lemma_entry_map_first<V>(entries: Seq<(Seq<char>, V)>, key: Seq<char>, at: int)
    requires
        0 <= at < entries.len(),
        entries[at].0 == key,
        forall|j: int| 0 <= j < at ==> entries[j].0 != key,
    ensures
        entry_map(entries).contains_key(key),
        entry_map(entries)[key] == entries[at].1,
    decreases entries.len(),
{
    if at > 0 {
        let tail = entries.drop_first();
        assert forall|j: int| 0 <= j < at - 1 implies tail[j].0 != key by {
            assert(tail[j] == entries[j + 1]);
        }
        lemma_entry_map_first(tail, key, at - 1);
    }
}

/// A key that no entry has is not in the mapping.
pub proof fn lemma_entry_map_absent<V>(entries: Seq<(Seq<char>, V)>, key: Seq<char>)
    requires
        forall|j: int| 0 <= j < entries.len() ==> entries[j].0 != key,
    ensures
        !entry_map(entries).contains_key(key),
    decreases entries.len(),
{
    if entries.len() > 0 {
        let tail = entries.drop_first();
        assert forall|j: int| 0 <= j < tail.len() implies tail[j].0 != key by {
            assert(tail[j] == entries[j + 1]);
        }
        lemma_entry_map_absent(tail, key);
    }
}

/// A key of the mapping is the key of some entry.
pub proof fn lemma_entry_map_key(entries: Seq<(Seq<char>, ValueView)>, key: Seq<char>) -> (at:
    int)
    requires
        entry_map(entries).contains_key(key),
    ensures
        0 <= at < entries.len(),
        entries[at].0 == key,
    decreases entries.len(),
{
    if entries.len() == 0 {
        0
    } else if entries[0].0 == key {
        0
    } else {
        lemma_entry_map_key(entries.drop_first(), key) + 1
    }
}

/// Putting a value in the place of the first entry that has a key puts it
/// under the key and changes nothing else.
pub proof fn lemma_entry_map_update<V>(entries: Seq<(Seq<char>, V)>, at: int, value: V)
    requires
        0 <= at < entries.len(),
        forall|j: int| 0 <= j < at ==> (#[trigger] entries[j]).0 != entries[at].0,
    ensures
        entry_map(entries.update(at, (entries[at].0, value))) == entry_map(entries).insert(
            entries[at].0,
            value,
        ),
    decreases entries.len(),
{
    let key = entries[at].0;
    let changed = entries.update(at, (key, value));
    if at == 0 {
        assert(changed.drop_first() =~= entries.drop_first());
        assert(entry_map(changed) =~= entry_map(entries).insert(key, value));
    } else {
        let tail = entries.drop_first();
        assert(tail[at - 1] == entries[at]);
        assert forall|j: int| 0 <= j < at - 1 implies (#[trigger] tail[j]).0 != key by {
            assert(tail[j] == entries[j + 1]);
        }
        lemma_entry_map_update(tail, at - 1, value);
        assert(changed.drop_first() =~= tail.update(at - 1, (key, value)));
        assert(entries[0].0 != key);
        assert(entry_map(changed) =~= entry_map(entries).insert(key, value));
    }
}

/// Putting an entry with a key that no entry has at the end puts its value
/// under the key and changes nothing else.
pub proof fn lemma_entry_map_push<V>(entries: Seq<(Seq<char>, V)>, key: Seq<char>, value: V)
    requires
        forall|j: int| 0 <= j < entries.len() ==> entries[j].0 != key,
    ensures
        entry_map(entries.push((key, value))) == entry_map(entries).insert(key, value),
    decreases entries.len(),
{
    let longer = entries.push((key, value));
    if entries.len() == 0 {
        assert(longer.drop_first() =~= entries);
        assert(entry_map(longer) =~= entry_map(entries).insert(key, value));
    } else {
        let tail = entries.drop_first();
        assert forall|j: int| 0 <= j < tail.len() implies tail[j].0 != key by {
            assert(tail[j] == entries[j + 1]);
        }
        lemma_entry_map_push(tail, key, value);
        assert(longer.drop_first() =~= tail.push((key, value)));
        assert(entries[0].0 != key);
        assert(entry_map(longer) =~= entry_map(entries).insert(key, value));
    }
}

/// The entries of a list whose values are their own view.
pub open spec fn plain_entries<T>(entries: Seq<(String, T)>) -> Seq<(Seq<char>, T)> {
    Seq::new(entries.len(), |i: int| (entries[i].0@, entries[i].1))
}

pub open spec fn str_entries(entries: Seq<(String, Str)>) -> Seq<(Seq<char>, Seq<char>)> {
    Seq::new(entries.len(), |i: int| (entries[i].0@, entries[i].1@))
}

pub open spec fn str_views(items: Seq<Str>) -> Seq<Seq<char>> {
    Seq::new(items.len(), |i: int| items[i]@)
}

pub open spec fn volume_views(items: Seq<Volume>) -> Seq<VolumeView> {
    Seq::new(items.len(), |i: int| items[i]@)
}

pub open spec fn tissue_views(items: Seq<PhantomTissue>) -> Seq<PhantomTissueView> {
    Seq::new(items.len(), |i: int| items[i]@)
}

pub open spec fn phantom_views(items: Seq<SegmentedPhantom>) -> Seq<SegmentedPhantomView> {
    Seq::new(items.len(), |i: int| items[i]@)
}

pub open spec fn value_views(items: Seq<Value>) -> Seq<ValueView> {
    Seq::new(items.len(), |i: int| items[i]@)
}

pub open spec fn volume_entries(entries: Seq<(String, Volume)>) -> Seq<(Seq<char>, VolumeView)> {
    Seq::new(entries.len(), |i: int| (entries[i].0@, entries[i].1@))
}

pub open spec fn tissue_entries(entries: Seq<(String, PhantomTissue)>) -> Seq<
    (Seq<char>, PhantomTissueView),
> {
    Seq::new(entries.len(), |i: int| (entries[i].0@, entries[i].1@))
}

pub open spec fn phantom_entries(entries: Seq<(String, SegmentedPhantom)>) -> Seq<
    (Seq<char>, SegmentedPhantomView),
> {
    Seq::new(entries.len(), |i: int| (entries[i].0@, entries[i].1@))
}

pub open spec fn volume_view(volume: Volume) -> VolumeView
    decreases volume,
{
    VolumeView {
        shape: volume.shape,
        affine: volume.affine,
        data: typed_list_view(volume.data),
    }
}

pub open spec fn tissue_view(tissue: PhantomTissue) -> PhantomTissueView
    decreases tissue,
{
    PhantomTissueView {
        density: volume_view(tissue.density),
        db0: volume_view(tissue.db0),
        t1: tissue.t1,
        t2: tissue.t2,
        t2dash: tissue.t2dash,
        adc: tissue.adc,
    }
}

pub open spec fn phantom_view(phantom: SegmentedPhantom) -> SegmentedPhantomView
    decreases phantom,
{
    SegmentedPhantomView {
        tissues: Seq::new(
                phantom.tissues@.len(),
                |i: int|
                    if 0 <= i < phantom.tissues@.len() {
                        tissue_view(phantom.tissues@[i])
                    } else {
                        arbitrary()
                    },
            ),
        b1_tx: Seq::new(
                phantom.b1_tx@.len(),
                |i: int|
                    if 0 <= i < phantom.b1_tx@.len() {
                        volume_view(phantom.b1_tx@[i])
                    } else {
                        arbitrary()
                    },
            ),
        b1_rx: Seq::new(
                phantom.b1_rx@.len(),
                |i: int|
                    if 0 <= i < phantom.b1_rx@.len() {
                        volume_view(phantom.b1_rx@[i])
                    } else {
                        arbitrary()
                    },
            ),
    }
}

pub open spec fn typed_list_view(list: TypedList) -> TypedListView
    decreases list,
{
    match list {
        TypedList::Unit(items) => TypedListView::Unit(items@),
        TypedList::Bool(items) => TypedListView::Bool(items@),
        TypedList::Int(items) => TypedListView::Int(items@),
        TypedList::Float(items) => TypedListView::Float(items@),
        TypedList::Complex(items) => TypedListView::Complex(items@),
        TypedList::Vec3(items) => TypedListView::Vec3(items@),
        TypedList::Vec4(items) => TypedListView::Vec4(items@),
        TypedList::Str(items) => TypedListView::Str(str_views(items@)),
        TypedList::InstantSeqEvent(items) => TypedListView::InstantSeqEvent(items@),
        TypedList::Volume(items) => TypedListView::Volume(Seq::new(
                items@.len(),
                |i: int|
                    if 0 <= i < items@.len() {
                        volume_view(items@[i])
                    } else {
                        arbitrary()
                    },
            )),
        TypedList::SegmentedPhantom(items) => TypedListView::SegmentedPhantom(Seq::new(
                items@.len(),
                |i: int|
                    if 0 <= i < items@.len() {
                        phantom_view(items@[i])
                    } else {
                        arbitrary()
                    },
            )),
        TypedList::PhantomTissue(items) => TypedListView::PhantomTissue(Seq::new(
                items@.len(),
                |i: int|
                    if 0 <= i < items@.len() {
                        tissue_view(items@[i])
                    } else {
                        arbitrary()
                    },
            )),
    }
}

pub open spec fn entry_views(entries: Seq<(String, Value)>) -> Seq<(Seq<char>, ValueView)>
    decreases entries,
{
    Seq::new(
        entries.len(),
        |i: int|
            if 0 <= i < entries.len() {
                (entries[i].0@, value_view(entries[i].1))
            } else {
                arbitrary()
            },
    )
}

pub open spec fn value_view(value: Value) -> ValueView
    decreases value,
{
    match value {
        Value::Unit(x) => ValueView::Unit(x),
        Value::Bool(x) => ValueView::Bool(x),
        Value::Int(x) => ValueView::Int(x),
        Value::Float(x) => ValueView::Float(x),
        Value::Complex(x) => ValueView::Complex(x),
        Value::Vec3(x) => ValueView::Vec3(x),
        Value::Vec4(x) => ValueView::Vec4(x),
        Value::Str(x) => ValueView::Str(x@),
        Value::InstantSeqEvent(x) => ValueView::InstantSeqEvent(x),
        Value::Volume(x) => ValueView::Volume(x@),
        Value::SegmentedPhantom(x) => ValueView::SegmentedPhantom(x@),
        Value::PhantomTissue(x) => ValueView::PhantomTissue(x@),
        Value::Dict(x) => ValueView::Dict(entry_map(entry_views(x.0@))),
        Value::List(x) => ValueView::List(Seq::new(
                x.0@.len(),
                |i: int|
                    if 0 <= i < x.0@.len() {
                        value_view(x.0@[i])
                    } else {
                        arbitrary()
                    },
            )),
        Value::TypedDict(x) => ValueView::TypedDict(x@),
        Value::TypedList(x) => ValueView::TypedList(x@),
    }
}

impl View for Volume {
    type V = VolumeView;

    open spec fn view(&self) -> VolumeView {
        volume_view(*self)
    }
}

impl View for PhantomTissue {
    type V = PhantomTissueView;

    open spec fn view(&self) -> PhantomTissueView {
        tissue_view(*self)
    }
}

impl View for SegmentedPhantom {
    type V = SegmentedPhantomView;

    open spec fn view(&self) -> SegmentedPhantomView {
        phantom_view(*self)
    }
}

impl View for TypedList {
    type V = TypedListView;

    open spec fn view(&self) -> TypedListView {
        typed_list_view(*self)
    }
}

impl View for TypedDict {
    type V = TypedDictView;

    open spec fn view(&self) -> TypedDictView {
        match self {
            TypedDict::Unit(entries) => TypedDictView::Unit(entry_map(plain_entries(entries@))),
            TypedDict::Bool(entries) => TypedDictView::Bool(entry_map(plain_entries(entries@))),
            TypedDict::Int(entries) => TypedDictView::Int(entry_map(plain_entries(entries@))),
            TypedDict::Float(entries) => TypedDictView::Float(entry_map(plain_entries(entries@))),
            TypedDict::Complex(entries) => TypedDictView::Complex(
                entry_map(plain_entries(entries@)),
            ),
            TypedDict::Vec3(entries) => TypedDictView::Vec3(entry_map(plain_entries(entries@))),
            TypedDict::Vec4(entries) => TypedDictView::Vec4(entry_map(plain_entries(entries@))),
            TypedDict::Str(entries) => TypedDictView::Str(entry_map(str_entries(entries@))),
            TypedDict::InstantSeqEvent(entries) => TypedDictView::InstantSeqEvent(
                entry_map(plain_entries(entries@)),
            ),
            TypedDict::Volume(entries) => TypedDictView::Volume(
                entry_map(volume_entries(entries@)),
            ),
            TypedDict::SegmentedPhantom(entries) => TypedDictView::SegmentedPhantom(
                entry_map(phantom_entries(entries@)),
            ),
            TypedDict::PhantomTissue(entries) => TypedDictView::PhantomTissue(
                entry_map(tissue_entries(entries@)),
            ),
        }
    }
}

impl View for List {
    type V = Seq<ValueView>;

    open spec fn view(&self) -> Seq<ValueView> {
        value_views(self.0@)
    }
}

impl View for Dict {
    type V = Map<Seq<char>, ValueView>;

    open spec fn view(&self) -> Map<Seq<char>, ValueView> {
        entry_map(entry_views(self.0@))
    }
}

impl View for Value {
    type V = ValueView;

    open spec fn view(&self) -> ValueView {
        value_view(*self)
    }
}

/// The view of a list value holds the view of the list.
pub proof fn lemma_list_view(list: List)
    ensures
        Value::List(list)@ == ValueView::List(list@),
{
    assert(Value::List(list)@->List_0 =~= list@);
}

/// The view of a mapping value holds the view of the mapping.
pub proof fn lemma_dict_view(dict: Dict)
    ensures
        Value::Dict(dict)@ == ValueView::Dict(dict@),
{
    assert(entry_views(dict.0@) =~= entry_views(dict.0@));
}

/// The view of a typed list of structured items holds the views of the
/// items.
pub proof fn lemma_typed_list_view(list: TypedList)
    ensures
        list matches TypedList::Volume(items) ==> list@ == TypedListView::Volume(
            volume_views(items@),
        ),
        list matches TypedList::SegmentedPhantom(items) ==> list@
            == TypedListView::SegmentedPhantom(phantom_views(items@)),
        list matches TypedList::PhantomTissue(items) ==> list@ == TypedListView::PhantomTissue(
            tissue_views(items@),
        ),
{
    match list {
        TypedList::Volume(items) => {
            assert(list@->Volume_0 =~= volume_views(items@));
        },
        TypedList::SegmentedPhantom(items) => {
            assert(list@->SegmentedPhantom_0 =~= phantom_views(items@));
        },
        TypedList::PhantomTissue(items) => {
            assert(list@->PhantomTissue_0 =~= tissue_views(items@));
        },
        _ => {},
    }
}

/// The view of a phantom holds the views of its tissues and maps.
pub proof fn lemma_phantom_view(phantom: SegmentedPhantom)
    ensures
        phantom@ == (SegmentedPhantomView {
            tissues: tissue_views(phantom.tissues@),
            b1_tx: volume_views(phantom.b1_tx@),
            b1_rx: volume_views(phantom.b1_rx@),
        }),
{
    assert(phantom@.tissues =~= tissue_views(phantom.tissues@));
    assert(phantom@.b1_tx =~= volume_views(phantom.b1_tx@));
    assert(phantom@.b1_rx =~= volume_views(phantom.b1_rx@));
}

} // verus!
