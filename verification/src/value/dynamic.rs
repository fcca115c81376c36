//! Collections whose items may each have a different type.

use super::Value;
use vstd::prelude::*;

verus! {

/// A string-keyed mapping, stored as a list of entries whose order says
/// nothing.
///
/// In a well-formed mapping ([`Dict::wf`]) every key occurs once.
/// [`Dict::new`], [`Dict::insert`] and [`Dict::from_entries`] make and keep
/// it so, and [`Dict::is_wf`] tells of any other. A lookup takes the first
/// entry with the key, so an entry that repeats an earlier key is never
/// seen.
#[derive(Debug)]
pub struct Dict(pub Vec<(String, Value)>);

#[derive(Debug)]
pub struct List(pub Vec<Value>);

} // verus!
