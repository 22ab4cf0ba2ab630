//! A two-generation tile cache: inserts go to the primary generation; when
//! the primary overflows, it becomes the secondary and the old secondary is
//! dropped. An inserted tile therefore stays retrievable until two overflow
//! sweeps pass.

use vstd::prelude::*;

use std::collections::HashMap;

use crate::tile::TileId;

verus! {

broadcast use vstd::std_specs::hash::group_hash_axioms;

/// How many entries the primary generation holds before a sweep.
pub const CACHE_SWEEP: usize = 1000;

/// The cache; entries are keyed by the packed tile coordinate
/// ([`TileId::spec_key`]), which is injective over valid coordinates.
pub struct GpuTileCache<T> {
    pub entries: HashMap<u64, T>,
    pub generation_two: HashMap<u64, T>,
}

/// A tile id small enough to pack into a cache key.
pub open spec fn cacheable(id: TileId) -> bool {
    id.zoom < 256 && id.column < 0x1000_0000 && id.row < 0x1000_0000
}

impl<T> GpuTileCache<T> {
    /// The primary generation, as a map from packed keys.
    pub open spec fn spec_primary(self) -> Map<u64, T> {
        self.entries@
    }

    /// The secondary generation.
    pub open spec fn spec_secondary(self) -> Map<u64, T> {
        self.generation_two@
    }

    /// Whether a tile is present in either generation.
    pub open spec fn spec_contains(self, id: TileId) -> bool {
        self.spec_primary().contains_key(id.spec_key() as u64) || self.spec_secondary().contains_key(
            id.spec_key() as u64,
        )
    }

    /// An empty cache.
    pub fn new() -> (r: GpuTileCache<T>)
        ensures
            r.spec_primary() == Map::<u64, T>::empty(),
            r.spec_secondary() == Map::<u64, T>::empty(),
    {
        GpuTileCache { entries: HashMap::new(), generation_two: HashMap::new() }
    }

    /// The generational sweep: once the primary generation overflows, it
    /// becomes the secondary and the previous secondary is dropped.
    pub fn clean(&mut self)
        ensures
            old(self).spec_primary().dom().len() > CACHE_SWEEP ==> final(self).spec_primary()
                == Map::<u64, T>::empty() && final(self).spec_secondary() == old(
                self,
            ).spec_primary(),
            old(self).spec_primary().dom().len() <= CACHE_SWEEP ==> *final(self) == *old(self),
    {
        if self.entries.len() > CACHE_SWEEP {
            core::mem::swap(&mut self.entries, &mut self.generation_two);
            self.entries.clear();
        }
    }

    /// Stores a tile's entry, sweeping first when the primary generation is
    /// over capacity.
    pub fn insert(&mut self, tile_id: TileId, entry: T)
        requires
            cacheable(tile_id),
        ensures
            ({
                let swept = old(self).spec_primary().dom().len() > CACHE_SWEEP;
                let primary = if swept {
                    Map::<u64, T>::empty()
                } else {
                    old(self).spec_primary()
                };
                let secondary = if swept {
                    old(self).spec_primary()
                } else {
                    old(self).spec_secondary()
                };
                &&& final(self).spec_primary() == primary.insert(
                    tile_id.spec_key() as u64,
                    entry,
                )
                &&& final(self).spec_secondary() == secondary
            }),
            final(self).spec_contains(tile_id),
    {
        self.clean();
        let key = tile_id.key();
        self.entries.insert(key, entry);
        assert(final(self).spec_primary().contains_key(tile_id.spec_key() as u64));
    }

    /// Looks a tile up, in the primary generation first.
    pub fn get(&self, tile_id: TileId) -> (r: Option<&T>)
        requires
            cacheable(tile_id),
        ensures
            match r {
                Some(v) => {
                    let k = tile_id.spec_key() as u64;
                    &&& self.spec_contains(tile_id)
                    &&& if self.spec_primary().contains_key(k) {
                        *v == self.spec_primary()[k]
                    } else {
                        *v == self.spec_secondary()[k]
                    }
                },
                None => !self.spec_contains(tile_id),
            },
    {
        let key = tile_id.key();
        match self.entries.get(&key) {
            Some(v) => Some(v),
            None => self.generation_two.get(&key),
        }
    }

    /// Whether a tile is present in either generation.
    pub fn contains(&self, tile_id: TileId) -> (r: bool)
        requires
            cacheable(tile_id),
        ensures
            r == self.spec_contains(tile_id),
    {
        let key = tile_id.key();
        self.entries.contains_key(&key) || self.generation_two.contains_key(&key)
    }
}

} // verus!
