use geometry_cache::framework::{GeometryBufferKind, PipelineState};
use geometry_cache::geometry::{GeometryCache, TimeToLive, DEFAULT_RESOURCE_LIFETIME};
use geometry_cache::surface::{SurfaceData, TriangleBuffer, VertexBuffer};

fn source(layout_hash: u64, vertices: Vec<u8>, triangles: Vec<u32>) -> SurfaceData {
    SurfaceData::new(VertexBuffer::new(layout_hash, vertices), TriangleBuffer::new(triangles))
}

#[test]
fn default_lifetime_is_the_process_wide_constant() {
    assert_eq!(TimeToLive::default().0, DEFAULT_RESOURCE_LIFETIME);
    assert_eq!(DEFAULT_RESOURCE_LIFETIME, 60);
}

#[test]
fn first_get_compiles_a_static_buffer() {
    let mut cache = GeometryCache::default();
    let mut state = PipelineState::new();
    let mut data = source(7, vec![1, 2, 3], vec![0, 1, 2]);

    let index = cache.get(&mut state, &mut data, TimeToLive(5));

    assert_eq!(data.cache_entry, Some(index));
    let entry = cache.entry(index).unwrap();
    assert_eq!(entry.buffer.kind, GeometryBufferKind::StaticDraw);
    assert_eq!(entry.buffer.vertices, vec![1, 2, 3]);
    assert_eq!(entry.buffer.triangles, vec![0, 1, 2]);
    assert_eq!(entry.vertex_modifications_count, 0);
    assert_eq!(entry.triangles_modifications_count, 0);
    assert_eq!(entry.layout_hash, 7);
    assert_eq!(entry.time_to_live, TimeToLive(5));
}

#[test]
fn repeated_get_returns_the_same_buffer_object() {
    let mut cache = GeometryCache::default();
    let mut state = PipelineState::new();
    let mut data = source(7, vec![1, 2, 3], vec![0, 1, 2]);

    let first = cache.get(&mut state, &mut data, TimeToLive(5));
    let id = cache.entry(first).unwrap().buffer.id;

    let second = cache.get(&mut state, &mut data, TimeToLive(5));
    let third = cache.get(&mut state, &mut data, TimeToLive(5));

    assert_eq!(second, first);
    assert_eq!(third, first);
    assert_eq!(cache.entry(first).unwrap().buffer.id, id);
    assert_eq!(cache.len(), 1);
}

#[test]
fn vertex_change_advances_only_the_vertex_watermark() {
    let mut cache = GeometryCache::default();
    let mut state = PipelineState::new();
    let mut data = source(7, vec![1, 2, 3], vec![0, 1, 2]);

    let first = cache.get(&mut state, &mut data, TimeToLive(5));
    let id = cache.entry(first).unwrap().buffer.id;

    data.vertex_buffer.modify(vec![9, 9]);
    let second = cache.get(&mut state, &mut data, TimeToLive(5));

    assert_eq!(second, first);
    let entry = cache.entry(second).unwrap();
    assert_eq!(entry.buffer.id, id, "the buffer object is patched, not rebuilt");
    assert_eq!(entry.vertex_modifications_count, 1);
    assert_eq!(entry.triangles_modifications_count, 0);
    assert_eq!(entry.buffer.vertices, vec![9, 9]);
    assert_eq!(entry.buffer.triangles, vec![0, 1, 2]);
}

#[test]
fn triangle_change_advances_only_the_triangle_watermark() {
    let mut cache = GeometryCache::default();
    let mut state = PipelineState::new();
    let mut data = source(7, vec![1, 2, 3], vec![0, 1, 2]);

    let first = cache.get(&mut state, &mut data, TimeToLive(5));
    let id = cache.entry(first).unwrap().buffer.id;

    data.geometry_buffer.modify(vec![2, 1, 0]);
    let second = cache.get(&mut state, &mut data, TimeToLive(5));

    assert_eq!(second, first);
    let entry = cache.entry(second).unwrap();
    assert_eq!(entry.buffer.id, id);
    assert_eq!(entry.vertex_modifications_count, 0);
    assert_eq!(entry.triangles_modifications_count, 1);
    assert_eq!(entry.buffer.vertices, vec![1, 2, 3]);
    assert_eq!(entry.buffer.triangles, vec![2, 1, 0]);
}

#[test]
fn layout_change_forces_a_new_entry() {
    let mut cache = GeometryCache::default();
    let mut state = PipelineState::new();
    let mut data = source(7, vec![1, 2, 3], vec![0, 1, 2]);

    let first = cache.get(&mut state, &mut data, TimeToLive(5));
    let old_id = cache.entry(first).unwrap().buffer.id;

    data.vertex_buffer.set_layout(8, vec![4, 4, 4, 4]);
    let second = cache.get(&mut state, &mut data, TimeToLive(5));

    assert_ne!(second, first, "a layout mismatch is never patched in place");
    assert_eq!(data.cache_entry, Some(second));
    let entry = cache.entry(second).unwrap();
    assert_ne!(entry.buffer.id, old_id);
    assert_eq!(entry.layout_hash, 8);
    assert_eq!(entry.vertex_modifications_count, 1);
    assert_eq!(entry.buffer.vertices, vec![4, 4, 4, 4]);
    // The superseded entry is not evicted eagerly; it decays on its own.
    assert!(cache.entry(first).is_some());
}

#[test]
fn expired_entries_are_evicted_and_rebuilt_from_scratch() {
    let mut cache = GeometryCache::default();
    let mut state = PipelineState::new();
    let mut data = source(7, vec![1, 2, 3], vec![0, 1, 2]);

    let index = cache.get(&mut state, &mut data, TimeToLive(5));
    let old_id = cache.entry(index).unwrap().buffer.id;

    cache.update(3);
    assert_eq!(cache.entry(index).unwrap().time_to_live, TimeToLive(2));
    cache.update(3);
    assert!(cache.entry(index).is_none(), "cumulative elapsed time reached the lifetime");

    let again = cache.get(&mut state, &mut data, TimeToLive(5));
    let entry = cache.entry(again).unwrap();
    assert_ne!(entry.buffer.id, old_id, "a rebuild compiles a fresh buffer object");
    assert_eq!(entry.time_to_live, TimeToLive(5));
}

#[test]
fn a_touch_resets_the_remaining_lifetime() {
    let mut cache = GeometryCache::default();
    let mut state = PipelineState::new();
    let mut data = source(7, vec![1, 2, 3], vec![0, 1, 2]);

    let index = cache.get(&mut state, &mut data, TimeToLive(5));
    cache.update(4);
    assert_eq!(cache.entry(index).unwrap().time_to_live, TimeToLive(1));

    let touched = cache.get(&mut state, &mut data, TimeToLive(5));
    assert_eq!(touched, index);
    assert_eq!(cache.entry(index).unwrap().time_to_live, TimeToLive(5));

    cache.update(3);
    assert_eq!(cache.entry(index).unwrap().time_to_live, TimeToLive(2));
}

#[test]
fn the_latest_requested_lifetime_wins() {
    let mut cache = GeometryCache::default();
    let mut state = PipelineState::new();
    let mut data = source(7, vec![1, 2, 3], vec![0, 1, 2]);

    let index = cache.get(&mut state, &mut data, TimeToLive(50));
    cache.get(&mut state, &mut data, TimeToLive(2));
    assert_eq!(cache.entry(index).unwrap().time_to_live, TimeToLive(2));

    cache.update(2);
    assert!(cache.entry(index).is_none());
}

#[test]
fn an_entry_with_lifetime_zero_survives_only_until_the_next_tick() {
    let mut cache = GeometryCache::default();
    let mut state = PipelineState::new();
    let mut data = source(7, vec![1, 2, 3], vec![0, 1, 2]);

    let index = cache.get(&mut state, &mut data, TimeToLive(0));
    assert!(cache.entry(index).is_some());
    cache.update(0);
    assert!(cache.entry(index).is_none());
}

#[test]
fn clear_empties_the_store_and_subsequent_get_misses() {
    let mut cache = GeometryCache::default();
    let mut state = PipelineState::new();
    let mut data = source(7, vec![1, 2, 3], vec![0, 1, 2]);

    let first = cache.get(&mut state, &mut data, TimeToLive(5));
    let old_id = cache.entry(first).unwrap().buffer.id;
    cache.clear();

    assert_eq!(cache.len(), 0);
    assert_eq!(data.cache_entry, Some(first), "clear does not reset the source's slot key");

    let second = cache.get(&mut state, &mut data, TimeToLive(5));
    let entry = cache.entry(second).unwrap();
    assert_ne!(entry.buffer.id, old_id, "a stale slot key is a plain miss");
}

#[test]
fn identical_contents_under_distinct_identities_get_independent_entries() {
    let mut cache = GeometryCache::default();
    let mut state = PipelineState::new();
    let mut a = source(7, vec![1, 2, 3], vec![0, 1, 2]);
    let mut b = source(7, vec![1, 2, 3], vec![0, 1, 2]);

    let ia = cache.get(&mut state, &mut a, TimeToLive(5));
    let ib = cache.get(&mut state, &mut b, TimeToLive(5));

    assert_ne!(ia, ib);
    assert_ne!(cache.entry(ia).unwrap().buffer.id, cache.entry(ib).unwrap().buffer.id);
    assert_eq!(cache.len(), 2);

    // Touching one source leaves the other's entry alone.
    cache.get(&mut state, &mut a, TimeToLive(9));
    assert_eq!(cache.entry(ia).unwrap().time_to_live, TimeToLive(9));
    assert_eq!(cache.entry(ib).unwrap().time_to_live, TimeToLive(5));
}

#[test]
fn an_evicted_slot_is_reused_by_a_later_insertion() {
    let mut cache = GeometryCache::default();
    let mut state = PipelineState::new();
    let mut a = source(7, vec![1], vec![0]);
    let mut b = source(7, vec![2], vec![0]);

    let ia = cache.get(&mut state, &mut a, TimeToLive(1));
    let ib = cache.get(&mut state, &mut b, TimeToLive(10));
    cache.update(1);
    assert!(cache.entry(ia).is_none());
    assert!(cache.entry(ib).is_some());

    let mut c = source(9, vec![3], vec![0]);
    let ic = cache.get(&mut state, &mut c, TimeToLive(10));
    assert_eq!(ic, ia, "the tombstoned slot is reclaimed");
    assert_eq!(cache.len(), 2, "the high-water mark did not grow");
}
