//! The in-memory metadata cache, keyed by `publisher.name`.

use vstd::prelude::*;
use crate::metadata::{ExtensionMetadata, ExtensionMetadataView};
use crate::text::str_equal;

verus! {

/// The map that a list of entries stands for: a later entry for a key
/// overrides an earlier one.
pub open spec fn entries_map(es: Seq<(String, ExtensionMetadata)>) -> Map<
    Seq<char>,
    ExtensionMetadataView,
>
    decreases es.len(),
{
    if es.len() == 0 {
        Map::empty()
    } else {
        entries_map(es.drop_last()).insert(es.last().0@, es.last().1@)
    }
}

/// A map from keys to extension metadata.
#[derive(Debug)]
pub struct MetadataCache {
    entries: Vec<(String, ExtensionMetadata)>,
}

impl View for MetadataCache {
    type V = Map<Seq<char>, ExtensionMetadataView>;

    closed spec fn view(&self) -> Map<Seq<char>, ExtensionMetadataView> {
        entries_map(self.entries@)
    }
}

impl MetadataCache {
    /// An empty cache.
    pub fn new() -> (r: Self)
        ensures
            r@ == Map::<Seq<char>, ExtensionMetadataView>::empty(),
    {
        MetadataCache { entries: Vec::new() }
    }

    /// The metadata stored under `key`, if any.
    pub fn get(&self, key: &str) -> (r: Option<&ExtensionMetadata>)
        ensures
            r is Some <==> self@.contains_key(key@),
            r matches Some(m) ==> m@ == self@[key@],
    {
        let ghost es = self.entries@;
        let mut j: usize = self.entries.len();
        assert(es.take(j as int) =~= es);
        loop
            invariant
                es == self.entries@,
                j <= es.len(),
                entries_map(es).contains_key(key@) == entries_map(es.take(j as int)).contains_key(key@),
                entries_map(es).contains_key(key@) ==> entries_map(es)[key@] == entries_map(
                    es.take(j as int),
                )[key@],
            decreases j,
        {
            if j == 0 {
                assert(es.take(0) =~= Seq::<(String, ExtensionMetadata)>::empty());
                return None;
            }
            let e = &self.entries[j - 1];
            assert(es.take(j as int).drop_last() =~= es.take(j - 1));
            assert(es.take(j as int).last() == es[j - 1]);
            if str_equal(e.0.as_str(), key) {
                return Some(&e.1);
            }
            j = j - 1;
        }
    }
    /// Removes what is stored under `key`.
    pub fn remove(&mut self, key: &str)
        ensures
            final(self)@ == old(self)@.remove(key@),
    {
        let ghost es = self.entries@;
        let mut kept: Vec<(String, ExtensionMetadata)> = Vec::new();
        let mut j: usize = 0;
        assert(es.take(0) =~= Seq::<(String, ExtensionMetadata)>::empty());
        assert(entries_map(kept@) =~= entries_map(es.take(0)).remove(key@));
        while j < self.entries.len()
            invariant
                es == self.entries@,
                j <= es.len(),
                entries_map(kept@) == entries_map(es.take(j as int)).remove(key@),
            decreases es.len() - j,
        {
            let e = &self.entries[j];
            assert(es.take(j + 1).drop_last() =~= es.take(j as int));
            assert(es.take(j + 1).last() == es[j as int]);
            if !str_equal(e.0.as_str(), key) {
                let ghost before = kept@;
                kept.push((e.0.clone(), e.1.duplicate()));
                assert(kept@.drop_last() =~= before);
                assert(entries_map(kept@) =~= entries_map(es.take(j + 1)).remove(key@));
            } else {
                assert(entries_map(kept@) =~= entries_map(es.take(j + 1)).remove(key@));
            }
            j = j + 1;
        }
        assert(es.take(es.len() as int) =~= es);
        self.entries = kept;
    }

    /// Stores `value` under `key`, in place of what was stored there.
    pub fn insert(&mut self, key: String, value: ExtensionMetadata)
        ensures
            final(self)@ == old(self)@.insert(key@, value@),
    {
        self.remove(key.as_str());
        let ghost before = self.entries@;
        self.entries.push((key, value));
        assert(self.entries@.drop_last() =~= before);
        assert(self@ =~= old(self)@.insert(key@, value@));
    }

    /// Removes every entry.
    pub fn clear(&mut self)
        ensures
            final(self)@ == Map::<Seq<char>, ExtensionMetadataView>::empty(),
    {
        self.entries = Vec::new();
        assert(self@ =~= Map::<Seq<char>, ExtensionMetadataView>::empty());
    }
}

} // verus!
