//! Frame compositing core: viewport geometry, draw-node ordering, depth
//! hints, buffer streaming policy and memoised resource stores.

pub mod compositor;
pub mod context;
pub mod depth;
pub mod pipeline;
pub mod queue;
pub mod screen;
pub mod store;
pub mod stream;
