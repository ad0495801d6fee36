//! The chunk map.
//!
//! Maps a chunk-grid coordinate to the identifier of the entity that owns
//! the chunk there. Keys are unique. The meshing core itself does not need
//! it, but it is maintained alongside the chunks for neighbor lookup.

use vstd::prelude::*;

use crate::voxel::ChunkPos;

verus! {

/// An association from chunk-grid coordinates to entity identifiers, with
/// unique keys.
pub struct ChunkMap {
    chunks: Vec<(ChunkPos, u64)>,
}

impl ChunkMap {
    /// Whether the map sends `p` to `entity`.
    pub closed spec fn maps_to(self, p: ChunkPos, entity: u64) -> bool {
        exists|i: int| 0 <= i < self.chunks@.len() && self.chunks@[i] == (p, entity)
    }

    /// Whether `p` has an entry at all.
    pub open spec fn has_key(self, p: ChunkPos) -> bool {
        exists|e: u64| self.maps_to(p, e)
    }

    /// Number of entries.
    pub closed spec fn spec_len(self) -> nat {
        self.chunks@.len()
    }

    /// Each coordinate appears at most once.
    pub closed spec fn wf(self) -> bool {
        forall|i: int, j: int|
            0 <= i < j < self.chunks@.len() ==> (#[trigger] self.chunks@[i]).0 != (
            #[trigger] self.chunks@[j]).0
    }

    /// With unique keys, a coordinate maps to at most one entity.
    pub proof fn lemma_maps_to_unique(self, p: ChunkPos, e1: u64, e2: u64)
        requires
            self.wf(),
            self.maps_to(p, e1),
            self.maps_to(p, e2),
        ensures
            e1 == e2,
    {
        let i = choose|i: int| 0 <= i < self.chunks@.len() && self.chunks@[i] == (p, e1);
        let j = choose|j: int| 0 <= j < self.chunks@.len() && self.chunks@[j] == (p, e2);
        if i != j {
            assert(self.chunks@[i].0 != self.chunks@[j].0 || self.chunks@[j].0
                != self.chunks@[i].0);
        }
    }

    /// An empty map.
    pub fn new() -> (m: ChunkMap)
        ensures
            m.wf(),
            m.spec_len() == 0,
            forall|p: ChunkPos, e: u64| !m.maps_to(p, e),
    {
        ChunkMap { chunks: Vec::new() }
    }

    /// Number of chunks tracked.
    pub fn len(&self) -> (n: usize)
        ensures
            n == self.spec_len(),
    {
        self.chunks.len()
    }

    /// Associates `p` with `entity`, replacing any previous entry for `p`;
    /// every other coordinate keeps its association.
    pub fn insert(&mut self, p: ChunkPos, entity: u64)
        requires
            old(self).wf(),
        ensures
            final(self).wf(),
            final(self).maps_to(p, entity),
            forall|q: ChunkPos, e: u64|
                q != p ==> final(self).maps_to(q, e) == old(self).maps_to(q, e),
    {
        let n = self.chunks.len();
        let mut i: usize = 0;
        while i < n
            invariant
                n == self.chunks@.len(),
                i <= n,
                self.wf(),
                *self == *old(self),
                forall|k: int| 0 <= k < i ==> (#[trigger] self.chunks@[k]).0 != p,
            decreases n - i,
        {
            if self.chunks[i].0 == p {
                self.chunks[i] = (p, entity);
                proof {
                    assert(self.chunks@[i as int] == (p, entity));
                    assert forall|q: ChunkPos, e: u64| q != p implies #[trigger] self.maps_to(q, e)
                        == old(self).maps_to(q, e) by {
                        if old(self).maps_to(q, e) {
                            let k = choose|k: int|
                                0 <= k < old(self).chunks@.len() && old(self).chunks@[k] == (q, e);
                            assert(self.chunks@[k] == (q, e));
                        }
                        if self.maps_to(q, e) {
                            let k = choose|k: int|
                                0 <= k < self.chunks@.len() && self.chunks@[k] == (q, e);
                            assert(old(self).chunks@[k] == (q, e));
                        }
                    }
                }
                return ;
            }
            i = i + 1;
        }
        self.chunks.push((p, entity));
        proof {
            assert(self.chunks@[self.chunks@.len() - 1] == (p, entity));
            assert forall|q: ChunkPos, e: u64| q != p implies #[trigger] self.maps_to(q, e) == old(
                self,
            ).maps_to(q, e) by {
                if old(self).maps_to(q, e) {
                    let k = choose|k: int|
                        0 <= k < old(self).chunks@.len() && old(self).chunks@[k] == (q, e);
                    assert(self.chunks@[k] == (q, e));
                }
                if self.maps_to(q, e) {
                    let k = choose|k: int|
                        0 <= k < self.chunks@.len() && self.chunks@[k] == (q, e);
                    assert(k < self.chunks@.len() - 1);
                    assert(old(self).chunks@[k] == (q, e));
                }
            }
        }
    }

    /// Looks up the entity owning the chunk at `p`: the associated
    /// identifier if one exists, nothing otherwise.
    pub fn get(&self, p: ChunkPos) -> (r: Option<u64>)
        requires
            self.wf(),
        ensures
            match r {
                Some(e) => self.maps_to(p, e),
                None => !self.has_key(p),
            },
    {
        let n = self.chunks.len();
        let mut i: usize = 0;
        while i < n
            invariant
                n == self.chunks@.len(),
                i <= n,
                forall|k: int| 0 <= k < i ==> (#[trigger] self.chunks@[k]).0 != p,
            decreases n - i,
        {
            if self.chunks[i].0 == p {
                return Some(self.chunks[i].1);
            }
            i = i + 1;
        }
        proof {
            assert forall|e: u64| !self.maps_to(p, e) by {
                if self.maps_to(p, e) {
                    let k = choose|k: int|
                        0 <= k < self.chunks@.len() && self.chunks@[k] == (p, e);
                }
            }
        }
        None
    }
}

impl Default for ChunkMap {
    /// The empty map.
    fn default() -> (m: ChunkMap)
        ensures
            m.wf(),
            m.spec_len() == 0,
            forall|p: ChunkPos, e: u64| !m.maps_to(p, e),
    {
        ChunkMap::new()
    }
}

} // verus!
