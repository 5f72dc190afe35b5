//! What a drawable is handed while a frame is prepared, and what a render
//! node is handed while the frame is drawn.

use crate::queue::RenderNodeQueue;
use crate::screen::ScreenRect;
use crate::store::RenderFnStore;
use crate::stream::{BufferStream, StreamBuffer};
use vstd::prelude::*;

verus! {

/// The stores, the queue and the streams that drawables fill during the
/// prepare phase, with the viewport they prepare for.
pub struct DrawContext<'a> {
    pub store: RenderFnStore<'a>,
    pub queue: &'a mut RenderNodeQueue,
    pub screen: ScreenRect,
    pub vertex_stream: &'a mut BufferStream,
    pub index_stream: &'a mut BufferStream,
}

/// The stores and the uploaded streams that render nodes read during the
/// draw phase.
pub struct RenderContext<'a> {
    pub store: RenderFnStore<'a>,
    pub vertex_stream: StreamBuffer,
    pub index_stream: StreamBuffer,
}

} // verus!
