//! CPU-side geometry source data and its change-detection protocol.
//!
//! A [`SurfaceData`] owns a vertex payload and a triangle/index payload.  Each
//! payload carries a monotonically increasing modification counter, and the
//! vertex payload additionally carries a structural layout hash (a fingerprint
//! of the vertex attribute format).  A cache compares counters and layout hash
//! against the watermarks it recorded at its last sync to decide what, if
//! anything, must be re-uploaded.
//!
//! The source also owns one optional slot key, the cache's private
//! bookkeeping: a raw index into the cache's slot store, with no ownership
//! semantics.  Its validity is always reconfirmed by the store's bounds and
//! tombstone check plus a layout-hash check, never trusted blindly.

use vstd::prelude::*;

verus! {

/// A CPU-side vertex payload with change-detection bookkeeping.
pub struct VertexBuffer {
    /// The raw vertex payload.
    pub data: Vec<u8>,
    /// Bumped by one on every tracked modification of the payload.
    pub modifications_count: u64,
    /// Structural fingerprint of the vertex attribute format.  A change here
    /// means the payload cannot be patched incrementally.
    pub layout_hash: u64,
}

impl VertexBuffer {
    /// A fresh payload with its counter at zero.
    pub fn new(layout_hash: u64, data: Vec<u8>) -> (buffer: Self)
        ensures
            buffer.layout_hash == layout_hash,
            buffer.data == data,
            buffer.modifications_count == 0,
    {
        VertexBuffer { data, modifications_count: 0, layout_hash }
    }

    /// Replaces the payload, keeping the layout, and records the modification.
    pub fn modify(&mut self, data: Vec<u8>)
        requires
            old(self).modifications_count < u64::MAX,
        ensures
            final(self).data == data,
            final(self).modifications_count == old(self).modifications_count + 1,
            final(self).layout_hash == old(self).layout_hash,
    {
        self.data = data;
        self.modifications_count = self.modifications_count + 1;
    }

    /// Replaces the payload together with its attribute layout and records the
    /// modification.
    pub fn set_layout(&mut self, layout_hash: u64, data: Vec<u8>)
        requires
            old(self).modifications_count < u64::MAX,
        ensures
            final(self).data == data,
            final(self).modifications_count == old(self).modifications_count + 1,
            final(self).layout_hash == layout_hash,
    {
        self.data = data;
        self.layout_hash = layout_hash;
        self.modifications_count = self.modifications_count + 1;
    }
}

/// A CPU-side triangle/index payload with change-detection bookkeeping.
pub struct TriangleBuffer {
    /// The index list, flattened.
    pub triangles: Vec<u32>,
    /// Bumped by one on every tracked modification of the index list.
    pub modifications_count: u64,
}

impl TriangleBuffer {
    /// A fresh payload with its counter at zero.
    pub fn new(triangles: Vec<u32>) -> (buffer: Self)
        ensures
            buffer.triangles == triangles,
            buffer.modifications_count == 0,
    {
        TriangleBuffer { triangles, modifications_count: 0 }
    }

    /// Replaces the index list and records the modification.
    pub fn modify(&mut self, triangles: Vec<u32>)
        requires
            old(self).modifications_count < u64::MAX,
        ensures
            final(self).triangles == triangles,
            final(self).modifications_count == old(self).modifications_count + 1,
    {
        self.triangles = triangles;
        self.modifications_count = self.modifications_count + 1;
    }
}

/// A geometry source object: vertices, topology, and the cache's reciprocal
/// slot key.
///
/// The lifetime of a source is owned entirely by the scene structures around
/// the cache; the cache holds no reference to it, only the index recorded in
/// `cache_entry`.
pub struct SurfaceData {
    /// The vertex payload.
    pub vertex_buffer: VertexBuffer,
    /// The triangle/index payload.
    pub geometry_buffer: TriangleBuffer,
    /// The cache's private bookkeeping: the slot that currently holds the
    /// compiled buffer of this source, if any was ever recorded.  Eviction
    /// does not clear it; a stale index is treated as a miss on next access.
    pub cache_entry: Option<usize>,
}

impl SurfaceData {
    /// A source that has never been cached.
    pub fn new(vertex_buffer: VertexBuffer, geometry_buffer: TriangleBuffer) -> (data: Self)
        ensures
            data.vertex_buffer == vertex_buffer,
            data.geometry_buffer == geometry_buffer,
            data.cache_entry is None,
    {
        SurfaceData { vertex_buffer, geometry_buffer, cache_entry: None }
    }
}

} // verus!
