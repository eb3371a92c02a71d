//! The geometry cache: lookup, incremental re-upload, and TTL eviction.
//!
//! Each frame the renderer asks the cache, for every distinct geometry source
//! to be drawn, for a GPU-resident buffer.  [`GeometryCache::get`] either
//! returns the cached buffer (fast path), re-uploads the changed payloads into
//! it (dirty path), or compiles a brand-new buffer (miss path).  After the
//! frame, [`GeometryCache::update`] decays every entry's remaining lifetime by
//! the elapsed tick count and evicts the entries that expired.
//!
//! The eviction policy is pure TTL, not LRU: an entry decays at a fixed rate
//! regardless of how often it was hit, and the only thing that delays eviction
//! is that every access resets the entry's remaining lifetime to the lifetime
//! requested by that access.

use crate::framework::{GeometryBuffer, GeometryBufferKind, PipelineState};
use crate::sparse::SparseBuffer;
use crate::surface::SurfaceData;
use vstd::prelude::*;

verus! {

/// The lifetime given to an entry when the caller does not choose one.
pub const DEFAULT_RESOURCE_LIFETIME: u64 = 60;

/// A remaining lifetime, counted in whole ticks.
#[derive(Clone, Copy, Debug, PartialEq, Eq, Structural)]
pub struct TimeToLive(pub u64);

impl Default for TimeToLive {
    /// The process-wide default lifetime.
    fn default() -> (ttl: Self)
        ensures
            ttl.0 == DEFAULT_RESOURCE_LIFETIME,
    {
        TimeToLive(DEFAULT_RESOURCE_LIFETIME)
    }
}

/// One cached compilation of a geometry source: the GPU buffer plus the
/// watermarks recorded at the last sync and the remaining lifetime.
pub struct CacheEntry {
    /// The GPU-resident buffer object.
    pub buffer: GeometryBuffer,
    /// Vertex modification counter observed at the last sync.
    pub vertex_modifications_count: u64,
    /// Triangle modification counter observed at the last sync.
    pub triangles_modifications_count: u64,
    /// Layout hash observed when the buffer was compiled.  A source whose
    /// layout no longer matches is rebuilt, never patched.
    pub layout_hash: u64,
    /// Remaining lifetime; reset on every access, decayed by `update`.
    pub time_to_live: TimeToLive,
}

/// Whether a source's recorded slot key resolves to a live entry whose layout
/// matches the source's current layout: the cache's hit condition.
pub open spec fn is_hit(slots: Seq<Option<CacheEntry>>, data: SurfaceData) -> bool {
    match data.cache_entry {
        Some(index) => 0 <= index < slots.len() && slots[index as int] is Some
            && slots[index as int].unwrap().layout_hash == data.vertex_buffer.layout_hash,
        None => false,
    }
}

/// The bookkeeping a cache entry carries after a sync against `data` with the
/// requested lifetime `ttl`: watermarks equal to the source's current
/// counters, the source's layout hash, and the lifetime of this access.
pub open spec fn entry_matches(entry: CacheEntry, data: SurfaceData, ttl: TimeToLive) -> bool {
    &&& entry.vertex_modifications_count == data.vertex_buffer.modifications_count
    &&& entry.triangles_modifications_count == data.geometry_buffer.modifications_count
    &&& entry.layout_hash == data.vertex_buffer.layout_hash
    &&& entry.time_to_live == ttl
}

/// One slot after `dt` ticks of decay: an entry whose remaining lifetime
/// exceeds `dt` survives with the difference, every other entry is evicted,
/// and a gap stays a gap.
pub open spec fn decayed_slot(slot: Option<CacheEntry>, dt: u64) -> Option<CacheEntry> {
    match slot {
        Some(entry) => if entry.time_to_live.0 > dt {
            Some(
                CacheEntry {
                    buffer: entry.buffer,
                    vertex_modifications_count: entry.vertex_modifications_count,
                    triangles_modifications_count: entry.triangles_modifications_count,
                    layout_hash: entry.layout_hash,
                    time_to_live: TimeToLive((entry.time_to_live.0 - dt) as u64),
                },
            )
        } else {
            None
        },
        None => None,
    }
}

/// The whole store after `dt` ticks of decay.
pub open spec fn decayed(slots: Seq<Option<CacheEntry>>, dt: u64) -> Seq<Option<CacheEntry>> {
    Seq::new(slots.len(), |i: int| decayed_slot(slots[i], dt))
}

/// One slot after its lifetime was decremented by `dt`, saturating at zero,
/// with eviction still to come: the state between the two passes of `update`.
spec fn ticked_slot(slot: Option<CacheEntry>, dt: u64) -> Option<CacheEntry> {
    match slot {
        Some(entry) => Some(
            CacheEntry {
                buffer: entry.buffer,
                vertex_modifications_count: entry.vertex_modifications_count,
                triangles_modifications_count: entry.triangles_modifications_count,
                layout_hash: entry.layout_hash,
                time_to_live: TimeToLive(
                    if entry.time_to_live.0 > dt {
                        (entry.time_to_live.0 - dt) as u64
                    } else {
                        0
                    },
                ),
            },
        ),
        None => None,
    }
}

/// TTL decay composes: decaying by `first` ticks and then by `second` more is
/// exactly decaying once by their sum.  Repeated `update` calls therefore
/// evict an entry precisely when the cumulative elapsed ticks since its last
/// touch reach its lifetime at that touch.
pub proof fn lemma_decay_accumulates(slots: Seq<Option<CacheEntry>>, first: u64, second: u64)
    requires
        first + second <= u64::MAX,
    ensures
        decayed(decayed(slots, first), second) == decayed(slots, (first + second) as u64),
{
    let total = (first + second) as u64;
    assert forall|i: int| 0 <= i < slots.len() implies decayed(decayed(slots, first), second)[i]
        == decayed(slots, total)[i] by {
        assert(decayed(slots, first)[i] == decayed_slot(slots[i], first));
    }
    assert(decayed(decayed(slots, first), second) =~= decayed(slots, total));
}

/// Decay evicts exactly the entries whose remaining lifetime, as of their
/// last touch, does not exceed the elapsed ticks: a slot is dead after decay
/// precisely when it was already dead or its entry's lifetime ran out.
pub proof fn lemma_decay_evicts(slots: Seq<Option<CacheEntry>>, dt: u64, index: int)
    requires
        0 <= index < slots.len(),
    ensures
        decayed(slots, dt)[index] is None <==> (slots[index] is None
            || slots[index].unwrap().time_to_live.0 <= dt),
{
}

/// Against an empty store every lookup misses, whatever slot key a source
/// still carries: after `clear`, every source takes the miss path.
pub proof fn lemma_cleared_store_misses(data: SurfaceData)
    ensures
        !is_hit(Seq::<Option<CacheEntry>>::empty(), data),
{
}

/// Compiles a fresh GPU buffer from the full current payloads of `data`,
/// inserts a fresh entry for it, and records the new slot on the source.
fn create_geometry_buffer(
    data: &mut SurfaceData,
    state: &mut PipelineState,
    buffer: &mut SparseBuffer<CacheEntry>,
    time_to_live: TimeToLive,
) -> (index: usize)
    requires
        old(buffer).wf(),
        old(state).next_buffer_id < u64::MAX,
    ensures
        final(buffer).wf(),
        final(buffer).is_live(index as int),
        index == old(buffer).slots().len() || old(buffer).slots()[index as int] is None,
        final(buffer).slots().len() == (if index == old(buffer).slots().len() {
            old(buffer).slots().len() + 1
        } else {
            old(buffer).slots().len()
        }),
        forall|j: int|
            0 <= j < old(buffer).slots().len() && j != index ==> final(buffer).slots()[j]
                == old(buffer).slots()[j],
        entry_matches(final(buffer).slots()[index as int].unwrap(), *old(data), time_to_live),
        final(buffer).slots()[index as int].unwrap().buffer.id == old(state).next_buffer_id,
        final(buffer).slots()[index as int].unwrap().buffer.kind == GeometryBufferKind::StaticDraw,
        final(buffer).slots()[index as int].unwrap().buffer.vertices@ == old(
            data,
        ).vertex_buffer.data@,
        final(buffer).slots()[index as int].unwrap().buffer.triangles@ == old(
            data,
        ).geometry_buffer.triangles@,
        final(state).next_buffer_id == old(state).next_buffer_id + 1,
        final(data).cache_entry == Some(index),
        final(data).vertex_buffer == old(data).vertex_buffer,
        final(data).geometry_buffer == old(data).geometry_buffer,
{
    let geometry_buffer = GeometryBuffer::from_surface_data(
        data,
        GeometryBufferKind::StaticDraw,
        state,
    );

    let index = buffer.spawn(
        CacheEntry {
            buffer: geometry_buffer,
            time_to_live,
            vertex_modifications_count: data.vertex_buffer.modifications_count,
            triangles_modifications_count: data.geometry_buffer.modifications_count,
            layout_hash: data.vertex_buffer.layout_hash,
        },
    );

    data.cache_entry = Some(index);

    index
}

/// The geometry cache: a sparse slot store of [`CacheEntry`] values, keyed by
/// source identity through the slot key each source carries.
pub struct GeometryCache {
    buffer: SparseBuffer<CacheEntry>,
}

impl Default for GeometryCache {
    /// An empty cache.
    fn default() -> (cache: Self)
        ensures
            cache.wf(),
            cache.slots() == Seq::<Option<CacheEntry>>::empty(),
    {
        GeometryCache { buffer: SparseBuffer::new() }
    }
}

impl GeometryCache {
    /// The slots of the underlying store: live entries as `Some`, tombstoned
    /// gaps as `None`.
    pub closed spec fn slots(&self) -> Seq<Option<CacheEntry>> {
        self.buffer.slots()
    }

    /// The store's internal free-list invariant.
    pub closed spec fn wf(&self) -> bool {
        self.buffer.wf()
    }

    /// Whether `index` names a live entry.
    pub open spec fn is_live(&self, index: int) -> bool {
        0 <= index < self.slots().len() && self.slots()[index] is Some
    }

    /// Returns the slot of a GPU buffer that holds the source's current
    /// geometry, compiling one if no live entry with a matching layout exists.
    ///
    /// On a hit, changed payloads are re-uploaded into the existing buffer
    /// object (whole payloads; sub-ranges are not tracked), the watermarks
    /// advance to the source's current counters, and the entry's remaining
    /// lifetime is reset to `ttl` — the sole mechanism that delays eviction.
    /// On a miss — an unset or stale slot key, or a layout-hash mismatch — a
    /// brand-new buffer is compiled into a fresh slot and the source's slot
    /// key is overwritten; an entry the source previously pointed at is left
    /// to decay on its own.
    ///
    /// Exclusive access to the source for the duration of the call is what the
    /// `&mut SurfaceData` borrow grants: the cache can never observe a torn
    /// counter/layout pair.
    pub fn get(
        &mut self,
        state: &mut PipelineState,
        data: &mut SurfaceData,
        ttl: TimeToLive,
    ) -> (index: usize)
        requires
            old(self).wf(),
            old(state).next_buffer_id < u64::MAX,
        ensures
            final(self).wf(),
            final(self).is_live(index as int),
            final(data).cache_entry == Some(index),
            final(data).vertex_buffer == old(data).vertex_buffer,
            final(data).geometry_buffer == old(data).geometry_buffer,
            entry_matches(final(self).slots()[index as int].unwrap(), *old(data), ttl),
            is_hit(old(self).slots(), *old(data)) ==> ({
                let previous = old(self).slots()[index as int].unwrap();
                let synced = final(self).slots()[index as int].unwrap();
                &&& Some(index) == old(data).cache_entry
                &&& final(self).slots().len() == old(self).slots().len()
                &&& forall|j: int|
                    0 <= j < old(self).slots().len() && j != index ==> final(self).slots()[j]
                        == old(self).slots()[j]
                &&& synced.buffer.id == previous.buffer.id
                &&& synced.buffer.kind == previous.buffer.kind
                &&& previous.vertex_modifications_count == old(
                    data,
                ).vertex_buffer.modifications_count ==> synced.buffer.vertices
                    == previous.buffer.vertices
                &&& previous.vertex_modifications_count != old(
                    data,
                ).vertex_buffer.modifications_count ==> synced.buffer.vertices@ == old(
                    data,
                ).vertex_buffer.data@
                &&& previous.triangles_modifications_count == old(
                    data,
                ).geometry_buffer.modifications_count ==> synced.buffer.triangles
                    == previous.buffer.triangles
                &&& previous.triangles_modifications_count != old(
                    data,
                ).geometry_buffer.modifications_count ==> synced.buffer.triangles@ == old(
                    data,
                ).geometry_buffer.triangles@
                &&& (previous.vertex_modifications_count == old(
                    data,
                ).vertex_buffer.modifications_count
                    && previous.triangles_modifications_count == old(
                    data,
                ).geometry_buffer.modifications_count) ==> synced == (CacheEntry {
                    time_to_live: ttl,
                    ..previous
                })
                &&& *final(state) == *old(state)
            }),
            !is_hit(old(self).slots(), *old(data)) ==> ({
                let fresh = final(self).slots()[index as int].unwrap();
                &&& index == old(self).slots().len() || old(self).slots()[index as int] is None
                &&& final(self).slots().len() == (if index == old(self).slots().len() {
                    old(self).slots().len() + 1
                } else {
                    old(self).slots().len()
                })
                &&& forall|j: int|
                    0 <= j < old(self).slots().len() && j != index ==> final(self).slots()[j]
                        == old(self).slots()[j]
                &&& fresh.buffer.id == old(state).next_buffer_id
                &&& fresh.buffer.kind == GeometryBufferKind::StaticDraw
                &&& fresh.buffer.vertices@ == old(data).vertex_buffer.data@
                &&& fresh.buffer.triangles@ == old(data).geometry_buffer.triangles@
                &&& final(state).next_buffer_id == old(state).next_buffer_id + 1
            }),
    {
        let cached: Option<usize> = data.cache_entry;
        if let Some(index) = cached {
            let mut layout_matches = false;
            match self.buffer.get(index) {
                Some(entry) => {
                    // A structural format change is never patched incrementally:
                    // a stale layout makes this lookup a miss.
                    layout_matches = entry.layout_hash == data.vertex_buffer.layout_hash;
                },
                None => {},
            }
            if layout_matches {
                let vertex_count = data.vertex_buffer.modifications_count;
                let triangle_count = data.geometry_buffer.modifications_count;
                let entry = self.buffer.at_mut(index);
                if vertex_count != entry.vertex_modifications_count {
                    // Vertices changed: push the whole current vertex payload.
                    entry.buffer.set_buffer_data(&data.vertex_buffer.data);
                    entry.vertex_modifications_count = vertex_count;
                }
                if triangle_count != entry.triangles_modifications_count {
                    // Topology changed: rebuild the index list.
                    entry.buffer.set_triangles(&data.geometry_buffer.triangles);
                    entry.triangles_modifications_count = triangle_count;
                }
                entry.time_to_live = ttl;
                return index;
            }
        }
        create_geometry_buffer(data, state, &mut self.buffer, ttl)
    }

    /// Decays every live entry's remaining lifetime by `dt` ticks, then evicts
    /// every entry whose lifetime ran out.  Eviction does not notify the
    /// source object: an evicted source simply takes the miss path on its next
    /// `get`.
    pub fn update(&mut self, dt: u64)
        requires
            old(self).wf(),
        ensures
            final(self).wf(),
            final(self).slots() == decayed(old(self).slots(), dt),
    {
        let ghost initial = self.buffer.slots();

        let length = self.buffer.len();
        let mut i: usize = 0;
        while i < length
            invariant
                self.buffer.wf(),
                length == self.buffer.slots().len(),
                i <= length,
                forall|j: int|
                    0 <= j < i ==> self.buffer.slots()[j] == ticked_slot(initial[j], dt),
                forall|j: int| i <= j < length ==> self.buffer.slots()[j] == initial[j],
            decreases length - i,
        {
            if self.buffer.is_index_valid(i) {
                let entry = self.buffer.at_mut(i);
                if entry.time_to_live.0 > dt {
                    entry.time_to_live.0 = entry.time_to_live.0 - dt;
                } else {
                    entry.time_to_live.0 = 0;
                }
            }
            i = i + 1;
        }

        let mut i: usize = 0;
        while i < length
            invariant
                self.buffer.wf(),
                length == self.buffer.slots().len(),
                i <= length,
                forall|j: int| 0 <= j < i ==> self.buffer.slots()[j] == decayed_slot(initial[j], dt),
                forall|j: int|
                    i <= j < length ==> self.buffer.slots()[j] == ticked_slot(initial[j], dt),
            decreases length - i,
        {
            let mut expired = false;
            match self.buffer.get(i) {
                Some(entry) => {
                    expired = entry.time_to_live.0 == 0;
                },
                None => {},
            }
            if expired {
                self.buffer.free(i);
            }
            i = i + 1;
        }

        assert(self.buffer.slots() =~= decayed(initial, dt));
    }

    /// Drops every entry and resets the store.  Source objects keep their
    /// stale slot keys; a stale key is treated as a miss on next access.
    pub fn clear(&mut self)
        ensures
            final(self).wf(),
            final(self).slots() == Seq::<Option<CacheEntry>>::empty(),
    {
        self.buffer.clear();
    }

    /// The high-water mark of the store, tombstoned gaps included; zero only
    /// when no live entry exists.
    pub fn len(&self) -> (length: usize)
        ensures
            length == self.slots().len(),
    {
        self.buffer.len()
    }

    /// Bounds- and tombstone-checked lookup of a cache entry.
    pub fn entry(&self, index: usize) -> (entry: Option<&CacheEntry>)
        ensures
            match entry {
                Some(value) => self.is_live(index as int) && *value == self.slots()[index as int].unwrap(),
                None => !self.is_live(index as int),
            },
    {
        self.buffer.get(index)
    }
}

} // verus!
