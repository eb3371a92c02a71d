//! A model of the GPU resource layer that the cache drives.
//!
//! The real graphics binding allocates device buffer objects and uploads
//! payloads into them.  Here a buffer object is a record of the device-side
//! state the cache is responsible for: the buffer's name (a device-unique id
//! drawn from the pipeline state), its usage kind, and the payloads last
//! uploaded into it.  Allocation failure is outside the cache's contract and
//! is not modelled.

use crate::surface::SurfaceData;
use vstd::prelude::*;

verus! {

/// Declared usage of a device buffer.
#[derive(Clone, Copy, Debug, PartialEq, Eq, Structural)]
pub enum GeometryBufferKind {
    /// Written once, drawn many times.
    StaticDraw,
    /// Rewritten frequently.
    DynamicDraw,
}

/// The device-side allocation state: a counter of buffer names.
///
/// Every allocation draws a fresh, never-reused id, so two buffers with the
/// same id are the same device object.
pub struct PipelineState {
    /// The id the next allocation will receive.
    pub next_buffer_id: u64,
}

impl PipelineState {
    /// A fresh device with no buffers allocated.  Ids start at one, leaving
    /// zero free as a conventional null name.
    pub fn new() -> (state: Self)
        ensures
            state.next_buffer_id == 1,
    {
        PipelineState { next_buffer_id: 1 }
    }
}

/// A GPU-resident buffer object: the compiled form of a geometry source.
pub struct GeometryBuffer {
    /// The device-unique name of this buffer object.
    pub id: u64,
    /// Declared usage kind, fixed at allocation.
    pub kind: GeometryBufferKind,
    /// The vertex payload last uploaded.
    pub vertices: Vec<u8>,
    /// The index list last uploaded.
    pub triangles: Vec<u32>,
}

impl GeometryBuffer {
    /// Allocates a new device buffer holding the full current vertex and
    /// triangle payloads of `data`.
    pub fn from_surface_data(
        data: &SurfaceData,
        kind: GeometryBufferKind,
        state: &mut PipelineState,
    ) -> (buffer: Self)
        requires
            old(state).next_buffer_id < u64::MAX,
        ensures
            buffer.id == old(state).next_buffer_id,
            final(state).next_buffer_id == old(state).next_buffer_id + 1,
            buffer.kind == kind,
            buffer.vertices@ == data.vertex_buffer.data@,
            buffer.triangles@ == data.geometry_buffer.triangles@,
    {
        let id = state.next_buffer_id;
        state.next_buffer_id = state.next_buffer_id + 1;
        let vertices = clone_bytes(&data.vertex_buffer.data);
        let triangles = clone_indices(&data.geometry_buffer.triangles);
        GeometryBuffer { id, kind, vertices, triangles }
    }

    /// Overwrites the buffer's vertex payload with the whole of `data`;
    /// sub-ranges are not tracked.
    pub fn set_buffer_data(&mut self, data: &Vec<u8>)
        ensures
            final(self).vertices@ == data@,
            final(self).id == old(self).id,
            final(self).kind == old(self).kind,
            final(self).triangles == old(self).triangles,
    {
        self.vertices = clone_bytes(data);
    }

    /// Replaces the buffer's index/topology list.
    pub fn set_triangles(&mut self, triangles: &Vec<u32>)
        ensures
            final(self).triangles@ == triangles@,
            final(self).id == old(self).id,
            final(self).kind == old(self).kind,
            final(self).vertices == old(self).vertices,
    {
        self.triangles = clone_indices(triangles);
    }
}

/// An element-for-element copy of a byte payload.
fn clone_bytes(data: &Vec<u8>) -> (copy: Vec<u8>)
    ensures
        copy@ == data@,
{
    let copy = data.clone();
    proof {
        assert forall|i: int| 0 <= i < data@.len() implies copy@[i] == data@[i] by {
            assert(cloned::<u8>(data@[i], copy@[i]));
        }
        assert(copy@ =~= data@);
    }
    copy
}

/// An element-for-element copy of an index list.
fn clone_indices(data: &Vec<u32>) -> (copy: Vec<u32>)
    ensures
        copy@ == data@,
{
    let copy = data.clone();
    proof {
        assert forall|i: int| 0 <= i < data@.len() implies copy@[i] == data@[i] by {
            assert(cloned::<u32>(data@[i], copy@[i]));
        }
        assert(copy@ =~= data@);
    }
    copy
}

} // verus!
