//! The bag of named values that a tool takes as input and gives as output.

use super::convert::Variant;
use super::copy::{clone_value, clone_value_entries};
use super::dynamic::Dict;
use super::typed::TypedDict;
use super::extract::find_key;
use super::view::{
    entry_map, entry_views, lemma_entry_map_absent, lemma_entry_map_first, lemma_entry_map_key,
    lemma_entry_map_push, lemma_entry_map_update, ValueView,
};
use super::Value;
use crate::error::{ExtractionError, LookupError};
use vstd::pervasive::VecAdditionalExecFns;
use vstd::prelude::*;

verus! {

/// No two entries have the same key.
pub open spec fn distinct_keys<T>(entries: Seq<(String, T)>) -> bool {
    forall|i: int, j: int|
        0 <= i < entries.len() && 0 <= j < entries.len() && i != j ==> entries[i].0@
            != entries[j].0@
}

/// Where every key occurs once, an entry is what the mapping holds under
/// its key.
pub proof fn lemma_entry_map_holds(entries: Seq<(String, Value)>, at: int)
    requires
        distinct_keys(entries),
        0 <= at < entries.len(),
    ensures
        entry_map(entry_views(entries)).contains_key(entries[at].0@),
        entry_map(entry_views(entries))[entries[at].0@] == entries[at].1@,
{
    lemma_entry_map_first(entry_views(entries), entries[at].0@, at);
}

/// Whether no two entries have the same key.
pub fn has_distinct_keys<T>(entries: &Vec<(String, T)>) -> (res: bool)
    ensures
        res == distinct_keys(entries@),
{
    let mut i: usize = 0;
    while i < entries.len()
        invariant
            i <= entries.len(),
            forall|a: int, b: int|
                0 <= a < i && 0 <= b < entries.len() && a != b ==> entries[a].0@ != entries[b].0@,
        decreases entries.len() - i,
    {
        let mut j: usize = i + 1;
        while j < entries.len()
            invariant
                i < j <= entries.len(),
                forall|b: int| i < b < j ==> entries[i as int].0@ != entries[b].0@,
            decreases entries.len() - j,
        {
            if entries[i].0 == entries[j].0 {
                return false;
            }
            j += 1;
        }
        i += 1;
    }
    true
}

/// Puts a value under a key in a list of entries: in the place of the first
/// entry that has the key, or at the end where none has. Gives back whether
/// an entry had the key.
pub fn put_entry(entries: &mut Vec<(String, Value)>, key: String, value: Value) -> (replaced: bool)
    ensures
        entry_map(entry_views(final(entries)@)) == entry_map(entry_views(old(entries)@)).insert(
            key@,
            value@,
        ),
        replaced == entry_map(entry_views(old(entries)@)).contains_key(key@),
        final(entries)@.len() == old(entries)@.len() + if replaced {
            0nat
        } else {
            1nat
        },
        distinct_keys(old(entries)@) ==> distinct_keys(final(entries)@),
{
    let ghost before = entries@;
    match find_key(entries, &key) {
        Some(at) => {
            proof {
                lemma_entry_map_first(entry_views(before), key@, at as int);
                lemma_entry_map_update(entry_views(before), at as int, value@);
            }
            entries.set(at, (key, value));
            proof {
                assert(entry_views(entries@) =~= entry_views(before).update(
                    at as int,
                    (key@, value@),
                ));
                assert forall|i: int| 0 <= i < entries@.len() implies entries@[i].0@
                    == before[i].0@ by {}
            }
            true
        },
        None => {
            proof {
                lemma_entry_map_absent(entry_views(before), key@);
                lemma_entry_map_push(entry_views(before), key@, value@);
            }
            entries.push((key, value));
            proof {
                assert(entry_views(entries@) =~= entry_views(before).push((key@, value@)));
                assert forall|i: int| 0 <= i < before.len() implies entries@[i].0@
                    == before[i].0@ by {}
            }
            false
        },
    }
}

/// The value of the first entry that has a key.
pub open spec fn entry_value(entries: Seq<(String, Value)>, key: Seq<char>) -> Option<Value>
    decreases entries.len(),
{
    if entries.len() == 0 {
        None
    } else if entries[0].0@ == key {
        Some(entries[0].1)
    } else {
        entry_value(entries.drop_first(), key)
    }
}

/// The mapping holds a key where an entry has it, and under it the view of
/// the value of the first such entry.
pub proof fn lemma_entry_value(entries: Seq<(String, Value)>, key: Seq<char>)
    ensures
        entry_value(entries, key) is Some <==> entry_map(entry_views(entries)).contains_key(key),
        entry_value(entries, key) matches Some(value) ==> value@ == entry_map(
            entry_views(entries),
        )[key],
    decreases entries.len(),
{
    if entries.len() > 0 {
        assert(entry_views(entries).drop_first() =~= entry_views(entries.drop_first()));
        lemma_entry_value(entries.drop_first(), key);
    }
}

/// The first entry that has a key is the one whose value is kept under it.
pub proof fn lemma_entry_value_at(entries: Seq<(String, Value)>, key: Seq<char>, at: int)
    requires
        0 <= at < entries.len(),
        entries[at].0@ == key,
        forall|j: int| 0 <= j < at ==> entries[j].0@ != key,
    ensures
        entry_value(entries, key) == Some(entries[at].1),
    decreases entries.len(),
{
    if at > 0 {
        let tail = entries.drop_first();
        assert forall|j: int| 0 <= j < at - 1 implies tail[j].0@ != key by {
            assert(tail[j] == entries[j + 1]);
        }
        lemma_entry_value_at(tail, key, at - 1);
    }
}

impl Dict {
    /// Every key occurs once. A mapping that is built with
    /// [`insert`](Dict::insert) alone has this, and then each of its entries
    /// is seen by a lookup.
    pub open spec fn wf(&self) -> bool {
        distinct_keys(self.0@)
    }

    pub fn new() -> (res: Self)
        ensures
            res.wf(),
            res@ == Map::<Seq<char>, ValueView>::empty(),
    {
        let res = Dict(Vec::new());
        assert(entry_views(res.0@) =~= Seq::empty());
        res
    }

    /// Whether every key occurs once.
    pub fn is_wf(&self) -> (res: bool)
        ensures
            res == self.wf(),
    {
        has_distinct_keys(&self.0)
    }

    /// The mapping that a list of entries stands for, with every key once:
    /// of the entries that share a key, only the first is kept.
    pub fn from_entries(entries: Vec<(String, Value)>) -> (res: Self)
        ensures
            res.wf(),
            res@ == entry_map(entry_views(entries@)),
    {
        let ghost all = entries@;
        let mut rest = entries;
        let mut res = Dict::new();
        assert(all.subrange(all.len() as int, all.len() as int) =~= Seq::empty());
        assert(entry_views(Seq::<(String, Value)>::empty()) =~= Seq::empty());
        while rest.len() > 0
            invariant
                rest@ == all.subrange(0, rest@.len() as int),
                rest@.len() <= all.len(),
                res.wf(),
                res@ == entry_map(entry_views(all.subrange(rest@.len() as int, all.len() as int))),
            decreases rest.len(),
        {
            let ghost at = rest@.len() - 1;
            let entry = rest.pop().unwrap();
            proof {
                let tail = all.subrange(at, all.len() as int);
                assert(entry == all[at]);
                assert(entry_views(tail).drop_first() =~= entry_views(
                    all.subrange(at + 1, all.len() as int),
                ));
                assert(entry_views(tail)[0] == (entry.0@, entry.1@));
                assert(rest@ =~= all.subrange(0, at));
            }
            res.insert(entry.0, entry.1);
        }
        assert(all.subrange(0, all.len() as int) =~= all);
        res
    }

    /// Puts a value under a key, in place of the one that a lookup of the
    /// key found before, and gives back whether there was one.
    pub fn insert(&mut self, key: String, value: Value) -> (replaced: bool)
        ensures
            final(self)@ == old(self)@.insert(key@, value@),
            replaced == old(self)@.contains_key(key@),
            old(self).wf() ==> final(self).wf(),
    {
        put_entry(&mut self.0, key, value)
    }

    /// A copy of the value under a key.
    pub fn get(&self, key: &str) -> (res: Option<Value>)
        ensures
            match res {
                Some(value) => self@.contains_key(key@) && self@[key@] == value@,
                None => !self@.contains_key(key@),
            },
    {
        let key = key.to_owned();
        match find_key(&self.0, &key) {
            Some(at) => {
                proof {
                    lemma_entry_map_first(entry_views(self.0@), key@, at as int);
                }
                Some(clone_value(&self.0[at].1))
            },
            None => {
                proof {
                    lemma_entry_map_absent(entry_views(self.0@), key@);
                }
                None
            },
        }
    }
}

/// What taking a value out of its dynamic type gives: what it holds, where
/// it holds the type asked for.
pub open spec fn converted<T: Variant>(value: Value) -> Result<T, LookupError> {
    match T::held(value) {
        Some(inner) => Ok(inner),
        None => Err(
            LookupError::ConversionError(
                ExtractionError::TypeMismatch {
                    from: value.spec_kind_name(),
                    into: T::names().0,
                },
            ),
        ),
    }
}

/// A string-keyed mapping of values; the order of its entries says nothing.
///
/// A tool takes its input as one and gives its output as one. It is filled
/// with [`insert`](ValueDict::insert) and emptied with
/// [`take`](ValueDict::take).
#[derive(Debug)]
pub struct ValueDict {
    entries: Vec<(String, Value)>,
}

impl View for ValueDict {
    type V = Map<Seq<char>, ValueView>;

    closed spec fn view(&self) -> Map<Seq<char>, ValueView> {
        entry_map(entry_views(self.entries@))
    }
}

impl ValueDict {
    #[verifier::type_invariant]
    spec fn unique(&self) -> bool {
        distinct_keys(self.entries@)
    }

    /// The value that is kept under a key, if one is.
    pub closed spec fn stored(&self, key: Seq<char>) -> Option<Value> {
        entry_value(self.entries@, key)
    }

    /// The view holds the views of the values that are kept.
    pub proof fn lemma_stored(&self, key: Seq<char>)
        ensures
            self.stored(key) is Some <==> self@.contains_key(key),
            self.stored(key) matches Some(value) ==> value@ == self@[key],
    {
        lemma_entry_value(self.entries@, key);
    }

    /// The number of distinct keys, which is the number of entries.
    pub closed spec fn spec_len(&self) -> nat {
        self.entries@.len()
    }

    pub fn new() -> (res: Self)
        ensures
            res@ == Map::<Seq<char>, ValueView>::empty(),
            res.spec_len() == 0,
    {
        let res = ValueDict { entries: Vec::new() };
        assert(entry_views(res.entries@) =~= Seq::empty());
        res
    }

    pub fn len(&self) -> (res: usize)
        ensures
            res == self.spec_len(),
    {
        self.entries.len()
    }

    pub fn is_empty(&self) -> (res: bool)
        ensures
            res == (self.spec_len() == 0),
            res == (self@ == Map::<Seq<char>, ValueView>::empty()),
    {
        proof {
            use_type_invariant(self);
            if self.entries@.len() > 0 {
                lemma_entry_map_holds(self.entries@, 0);
            } else {
                assert(entry_views(self.entries@) =~= Seq::empty());
            }
        }
        self.entries.len() == 0
    }

    pub fn contains_key(&self, key: &str) -> (res: bool)
        ensures
            res == self@.contains_key(key@),
    {
        let key = key.to_owned();
        match find_key(&self.entries, &key) {
            Some(at) => {
                proof {
                    lemma_entry_map_first(entry_views(self.entries@), key@, at as int);
                }
                true
            },
            None => {
                proof {
                    lemma_entry_map_absent(entry_views(self.entries@), key@);
                }
                false
            },
        }
    }

    /// A copy of the value under a key.
    pub fn get(&self, key: &str) -> (res: Option<Value>)
        ensures
            match res {
                Some(value) => self@.contains_key(key@) && self@[key@] == value@,
                None => !self@.contains_key(key@),
            },
    {
        let key = key.to_owned();
        match find_key(&self.entries, &key) {
            Some(at) => {
                proof {
                    lemma_entry_map_first(entry_views(self.entries@), key@, at as int);
                }
                Some(clone_value(&self.entries[at].1))
            },
            None => {
                proof {
                    lemma_entry_map_absent(entry_views(self.entries@), key@);
                }
                None
            },
        }
    }

    /// Puts a value under a key, in place of the one that was there, and
    /// gives back whether there was one.
    pub fn insert(&mut self, key: String, value: Value) -> (replaced: bool)
        ensures
            final(self)@ == old(self)@.insert(key@, value@),
            replaced == old(self)@.contains_key(key@),
            final(self).spec_len() == old(self).spec_len() + if replaced {
                0nat
            } else {
                1nat
            },
    {
        let mut entries = self.take_entries();
        let replaced = put_entry(&mut entries, key, value);
        *self = ValueDict { entries };
        replaced
    }

    /// Takes the value under a key out of the mapping.
    pub fn take(&mut self, key: &str) -> (res: Result<Value, LookupError>)
        ensures
            match res {
                Ok(value) => {
                    &&& old(self).stored(key@) == Some(value)
                    &&& old(self)@.contains_key(key@)
                    &&& value@ == old(self)@[key@]
                    &&& final(self)@ == old(self)@.remove(key@)
                    &&& final(self).spec_len() == old(self).spec_len() - 1
                },
                Err(LookupError::KeyError(missing)) => {
                    &&& old(self).stored(key@) is None
                    &&& !old(self)@.contains_key(key@)
                    &&& missing@ == key@
                    &&& final(self)@ == old(self)@
                    &&& final(self).spec_len() == old(self).spec_len()
                },
                Err(_) => false,
            },
    {
        proof {
            self.lemma_stored(key@);
        }
        let mut entries = self.take_entries();
        let ghost before = entries@;
        let key = key.to_owned();
        match find_key(&entries, &key) {
            Some(at) => {
                proof {
                    lemma_entry_map_first(entry_views(before), key@, at as int);
                    lemma_entry_value_at(before, key@, at as int);
                }
                let entry = entries.remove(at);
                proof {
                    let after = entries@;
                    assert(distinct_keys(after)) by {
                        assert forall|i: int, j: int|
                            0 <= i < after.len() && 0 <= j < after.len() && i != j implies after[i].0@
                            != after[j].0@ by {
                            let oi = if i < at {
                                i
                            } else {
                                i + 1
                            };
                            let oj = if j < at {
                                j
                            } else {
                                j + 1
                            };
                            assert(after[i] == before[oi]);
                            assert(after[j] == before[oj]);
                        }
                    }
                    lemma_entries_removed(before, after, at as int);
                }
                *self = ValueDict { entries };
                Ok(entry.1)
            },
            None => {
                proof {
                    lemma_entry_map_absent(entry_views(before), key@);
                }
                *self = ValueDict { entries };
                Err(LookupError::KeyError(key))
            },
        }
    }

    /// Takes the value under a key out of the mapping and out of its
    /// dynamic type. The value is gone from the mapping also where it holds
    /// another type than the one asked for.
    pub fn take_as<T: Variant>(&mut self, key: &str) -> (res: Result<T, LookupError>)
        ensures
            final(self)@ == old(self)@.remove(key@),
            match old(self).stored(key@) {
                Some(value) => res == converted::<T>(value),
                None => res matches Err(LookupError::KeyError(missing)) && missing@ == key@,
            },
    {
        match self.take(key) {
            Ok(value) => match T::unwrap(value) {
                Ok(inner) => Ok(inner),
                Err(err) => Err(LookupError::ConversionError(err)),
            },
            Err(err) => {
                assert(final(self)@ =~= old(self)@.remove(key@));
                Err(err)
            },
        }
    }

    /// Moves the entries out and leaves the mapping empty.
    fn take_entries(&mut self) -> (res: Vec<(String, Value)>)
        ensures
            res == old(self).entries,
            distinct_keys(res@),
            final(self).entries@.len() == 0,
    {
        proof {
            use_type_invariant(&*self);
        }
        let mut taken = ValueDict { entries: Vec::new() };
        core::mem::swap(self, &mut taken);
        taken.entries
    }

    /// The entries, each key once, in no order that means anything.
    pub fn into_entries(self) -> (res: Vec<(String, Value)>)
        ensures
            distinct_keys(res@),
            entry_map(entry_views(res@)) == self@,
            res@.len() == self.spec_len(),
    {
        proof {
            use_type_invariant(&self);
        }
        self.entries
    }
}

/// Taking an entry out takes its key out of the mapping and changes nothing
/// else.
proof fn lemma_entries_removed(before: Seq<(String, Value)>, after: Seq<(String, Value)>, at: int)
    requires
        distinct_keys(before),
        distinct_keys(after),
        0 <= at < before.len(),
        after == before.remove(at),
    ensures
        entry_map(entry_views(after)) == entry_map(entry_views(before)).remove(before[at].0@),
{
    let key = before[at].0@;
    let old_map = entry_map(entry_views(before));
    let new_map = entry_map(entry_views(after));
    assert forall|k: Seq<char>| new_map.contains_key(k) <==> old_map.remove(key).contains_key(k) by {
        if new_map.contains_key(k) {
            let i = lemma_entry_map_key(entry_views(after), k);
            let j = if i < at {
                i
            } else {
                i + 1
            };
            assert(after[i] == before[j]);
            lemma_entry_map_holds(before, j);
        }
        if old_map.remove(key).contains_key(k) {
            let j = lemma_entry_map_key(entry_views(before), k);
            let i = if j < at {
                j
            } else {
                j - 1
            };
            assert(after[i] == before[j]);
            lemma_entry_map_holds(after, i);
        }
    }
    assert forall|k: Seq<char>| new_map.contains_key(k) implies new_map[k] == old_map.remove(key)[k] by {
        let i = lemma_entry_map_key(entry_views(after), k);
        let j = if i < at {
            i
        } else {
            i + 1
        };
        assert(after[i] == before[j]);
        lemma_entry_map_holds(after, i);
        lemma_entry_map_holds(before, j);
    }
    assert(new_map =~= old_map.remove(key));
}

impl Clone for ValueDict {
    fn clone(&self) -> (out: Self)
        ensures
            out@ == self@,
    {
        proof {
            use_type_invariant(self);
        }
        let entries = clone_value_entries(&self.entries);
        proof {
            assert forall|i: int, j: int|
                0 <= i < entries@.len() && 0 <= j < entries@.len() && i != j implies entries@[i].0@
                != entries@[j].0@ by {
                assert(entry_views(entries@).len() == entries@.len());
                assert(entry_views(self.entries@).len() == self.entries@.len());
                assert(entry_views(entries@)[i].0 == entries@[i].0@);
                assert(entry_views(entries@)[j].0 == entries@[j].0@);
                assert(entry_views(self.entries@)[i].0 == self.entries@[i].0@);
                assert(entry_views(self.entries@)[j].0 == self.entries@[j].0@);
            }
        }
        ValueDict { entries }
    }
}

impl TypedDict {
    /// Every key occurs once, so that each entry is seen by a lookup.
    pub open spec fn wf(&self) -> bool {
        match self {
            TypedDict::Unit(entries) => distinct_keys(entries@),
            TypedDict::Bool(entries) => distinct_keys(entries@),
            TypedDict::Int(entries) => distinct_keys(entries@),
            TypedDict::Float(entries) => distinct_keys(entries@),
            TypedDict::Complex(entries) => distinct_keys(entries@),
            TypedDict::Vec3(entries) => distinct_keys(entries@),
            TypedDict::Vec4(entries) => distinct_keys(entries@),
            TypedDict::Str(entries) => distinct_keys(entries@),
            TypedDict::InstantSeqEvent(entries) => distinct_keys(entries@),
            TypedDict::Volume(entries) => distinct_keys(entries@),
            TypedDict::SegmentedPhantom(entries) => distinct_keys(entries@),
            TypedDict::PhantomTissue(entries) => distinct_keys(entries@),
        }
    }

    /// Whether every key occurs once.
    pub fn is_wf(&self) -> (res: bool)
        ensures
            res == self.wf(),
    {
        match self {
            TypedDict::Unit(entries) => has_distinct_keys(entries),
            TypedDict::Bool(entries) => has_distinct_keys(entries),
            TypedDict::Int(entries) => has_distinct_keys(entries),
            TypedDict::Float(entries) => has_distinct_keys(entries),
            TypedDict::Complex(entries) => has_distinct_keys(entries),
            TypedDict::Vec3(entries) => has_distinct_keys(entries),
            TypedDict::Vec4(entries) => has_distinct_keys(entries),
            TypedDict::Str(entries) => has_distinct_keys(entries),
            TypedDict::InstantSeqEvent(entries) => has_distinct_keys(entries),
            TypedDict::Volume(entries) => has_distinct_keys(entries),
            TypedDict::SegmentedPhantom(entries) => has_distinct_keys(entries),
            TypedDict::PhantomTissue(entries) => has_distinct_keys(entries),
        }
    }
}

} // verus!
