//! A verified geometry cache for a retained-mode renderer.
//!
//! The core of the crate is a time-to-live based eviction cache that maps
//! mutable CPU-side geometry data to GPU-side buffer objects:
//! [`geometry::GeometryCache`].  It is built on a sparse,
//! free-list slot store with stable indices ([`sparse::SparseBuffer`]), a
//! change-detection protocol on the CPU-side source data
//! ([`surface::SurfaceData`]), and a model of the GPU resource layer
//! ([`framework::GeometryBuffer`]).
//!
//! Around the cache stand the small widget builders that produce the surface
//! data consumers of the renderer: [`border::BorderBuilder`] and
//! [`stack_panel::StackPanelBuilder`].  Widget layout and drawing are the
//! business of the UI toolkit, not of this crate; only the builder contracts
//! are stated here.
//!
//! Time is measured in whole ticks throughout: a lifetime is a `u64` count of
//! ticks, and `update` decays every live entry by the elapsed tick count.

pub mod border;
pub mod framework;
pub mod geometry;
pub mod sparse;
pub mod stack_panel;
pub mod surface;
pub mod widget;
