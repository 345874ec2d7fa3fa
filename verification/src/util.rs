//! Capture groups addressed through an index map.
use vstd::prelude::*;
use std::collections::HashMap;
use crate::pattern::groups_view;

verus! {

broadcast use vstd::std_specs::hash::group_hash_axioms;

/// The capture group at index `idx` after remapping: `idx` is replaced by
/// its entry in `map` where it has one.
pub open spec fn remapped_group(
    groups: Seq<Option<Seq<char>>>,
    map: Map<usize, usize>,
    idx: usize,
) -> Option<Seq<char>> {
    let k: int = if map.contains_key(idx) {
        map[idx] as int
    } else {
        idx as int
    };
    if 0 <= k < groups.len() {
        groups[k]
    } else {
        None
    }
}

/// The capture groups of a match, with reassigned group indices.
#[derive(Debug)]
pub(crate) struct CapturesMap<'b> {
    pub(crate) inner: Vec<Option<String>>,
    pub(crate) map: &'b HashMap<usize, usize>,
}

impl<'b> CapturesMap<'b> {
    /// The text of each capture group.
    pub(crate) open spec fn groups(&self) -> Seq<Option<Seq<char>>> {
        groups_view(self.inner@)
    }

    /// Wraps the given capture groups with the provided index map.
    pub(crate) fn new(inner: Vec<Option<String>>, map: &'b HashMap<usize, usize>) -> (r: Self)
        ensures
            r.groups() == groups_view(inner@),
            r.map@ == map@,
    {
        CapturesMap { inner, map }
    }

    /// Returns the capture group at the given re-mapped index.
    pub(crate) fn get(&self, idx: usize) -> (r: Option<&str>)
        ensures
            match r {
                Some(s) => remapped_group(self.groups(), self.map@, idx) == Some(s@),
                None => remapped_group(self.groups(), self.map@, idx) is None,
            },
    {
        let k = match self.map.get(&idx) {
            Some(k) => *k,
            None => idx,
        };
        if k < self.inner.len() {
            match &self.inner[k] {
                Some(s) => Some(s.as_str()),
                None => None,
            }
        } else {
            None
        }
    }
}

} // verus!
