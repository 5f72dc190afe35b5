//! The two phases of a frame: `prepare` lets drawables stage data and queue
//! render work, `draw` turns what was staged into one depth-tested render
//! pass.
//!
//! The compositor decides and records; the embedding layer owns the GPU
//! objects and carries the decisions out.

pub mod surface;

use crate::context::{DrawContext, RenderContext};
use crate::depth::{depth_hint_seq, depth_hints, DepthHint};
use crate::pipeline::{
    CompareFunction, DepthBiasState, DepthFormat, DepthStencilState, RenderPipelineData,
    StencilFaceState, StencilState,
};
use crate::queue::{QueueView, RenderCall, RenderNodeQueue};
use crate::screen::ScreenRect;
use crate::store::{BackendFnStore, RenderData};
use crate::stream::{is_upload_of, BufferStream, StreamUpload, StreamUsage, StreamView};
use vstd::prelude::*;
use wgpu::{MultisampleState, TextureFormat};

verus! {

/// Number of dimensions of a texture.
#[derive(Debug, Clone, Copy, PartialEq, Eq, Structural)]
pub enum TextureDimension {
    D1,
    D2,
    D3,
}

/// What a texture is used for.
#[derive(Debug, Clone, Copy, PartialEq, Eq, Structural)]
pub enum TextureUsage {
    CopySrc,
    CopyDst,
    TextureBinding,
    StorageBinding,
    RenderAttachment,
}

/// Description of the texture behind the depth target.
#[derive(Debug, Clone, Copy, PartialEq, Eq)]
pub struct DepthTargetDescriptor {
    pub label: &'static str,
    pub width: u32,
    pub height: u32,
    pub depth_or_array_layers: u32,
    pub mip_level_count: u32,
    pub sample_count: u32,
    pub dimension: TextureDimension,
    pub format: DepthFormat,
    pub usage: TextureUsage,
}

/// What happens to an attachment when a pass starts: it is cleared to a
/// value or loaded. A depth value is given as an IEEE-754 single precision
/// bit pattern, a stencil value as it is.
#[derive(Debug, Clone, Copy, PartialEq, Eq, Structural)]
pub enum LoadOp {
    Clear(u32),
    Load,
}

/// How a pass treats one aspect of an attachment.
#[derive(Debug, Clone, Copy, PartialEq, Eq, Structural)]
pub struct Operations {
    pub load: LoadOp,
    pub store: bool,
}

/// The depth target of a pass and how the pass treats it.
#[derive(Debug, Clone, Copy, PartialEq, Eq)]
pub struct DepthStencilAttachment {
    /// The depth target, or nothing where none was ever created.
    pub target: Option<DepthTargetDescriptor>,
    pub depth_ops: Option<Operations>,
    pub stencil_ops: Option<Operations>,
}

/// Label of the depth target's texture.
pub const DEPTH_TEXTURE_LABEL: &'static str = "Compositor depth texture";

/// Label of the render pass of a frame.
pub const RENDER_PASS_LABEL: &'static str = "Compositor render pass";

/// Label of the GPU-side buffer of the vertex stream.
pub const VERTEX_STREAM_LABEL: &'static str = "Compositor vertex stream buffer";

/// Label of the GPU-side buffer of the index stream.
pub const INDEX_STREAM_LABEL: &'static str = "Compositor index stream buffer";

/// Bit pattern of the depth that the depth target is cleared to: one, the
/// far plane.
pub const DEPTH_CLEAR_BITS: u32 = 0x3f80_0000;

/// The depth target for a viewport of the given physical size: one layer of
/// 32-bit float depth, without mip levels or multisampling, usable as a
/// render attachment.
pub open spec fn depth_target(width: u32, height: u32) -> DepthTargetDescriptor {
    DepthTargetDescriptor {
        label: DEPTH_TEXTURE_LABEL,
        width,
        height,
        depth_or_array_layers: 1,
        mip_level_count: 1,
        sample_count: 1,
        dimension: TextureDimension::D2,
        format: DepthFormat::Depth32Float,
        usage: TextureUsage::RenderAttachment,
    }
}

/// How every frame treats its depth target: depth is cleared to one and
/// written back, and there is no stencil test.
pub open spec fn depth_attachment(target: Option<DepthTargetDescriptor>) -> DepthStencilAttachment {
    DepthStencilAttachment {
        target,
        depth_ops: Some(Operations { load: LoadOp::Clear(DEPTH_CLEAR_BITS), store: true }),
        stencil_ops: None,
    }
}

/// The render target description of a compositor: the given colour format
/// and multisampling, with a depth test that lets the nearer fragment win
/// and writes it, and no stencil test or depth bias.
pub open spec fn pipeline_data_for(
    texture_format: TextureFormat,
    multi_sample: Option<MultisampleState>,
) -> RenderPipelineData {
    RenderPipelineData {
        texture_format,
        depth_stencil: Some(
            DepthStencilState {
                format: DepthFormat::Depth32Float,
                depth_write_enabled: true,
                depth_compare: CompareFunction::Less,
                stencil: StencilState {
                    front: StencilFaceState::ignore(),
                    back: StencilFaceState::ignore(),
                    read_mask: 0,
                    write_mask: 0,
                },
                bias: DepthBiasState { constant: 0, slope_scale_bits: 0, clamp_bits: 0 },
            },
        ),
        multi_sample,
    }
}

/// What a compositor holds.
pub struct CompositorView {
    pub queue: QueueView,
    pub pipeline_data: RenderPipelineData,
    /// Physical size that the depth target was last created for.
    pub depth_texture_size: (u32, u32),
    /// The depth target, or nothing before the first frame was prepared.
    pub depth_texture: Option<DepthTargetDescriptor>,
    pub vertex_stream: StreamView,
    pub index_stream: StreamView,
}

impl CompositorView {
    /// The compositor before any frame.
    pub open spec fn fresh(
        texture_format: TextureFormat,
        multi_sample: Option<MultisampleState>,
    ) -> CompositorView {
        CompositorView {
            queue: QueueView::empty(),
            pipeline_data: pipeline_data_for(texture_format, multi_sample),
            depth_texture_size: (0, 0),
            depth_texture: None,
            vertex_stream: StreamView::fresh(Some(VERTEX_STREAM_LABEL), StreamUsage::Vertex),
            index_stream: StreamView::fresh(Some(INDEX_STREAM_LABEL), StreamUsage::Index),
        }
    }

    /// The depth target matches the recorded size, and render work is only
    /// queued once a depth target exists.
    pub open spec fn wf(self) -> bool {
        match self.depth_texture {
            Some(target) => target == depth_target(
                self.depth_texture_size.0,
                self.depth_texture_size.1,
            ),
            None => self.queue.is_empty() && self.depth_texture_size == (0u32, 0u32),
        }
    }

    /// Whether `prepare` does nothing for this viewport and number of
    /// drawables.
    pub open spec fn skips(screen: ScreenRect, node_count: usize) -> bool {
        node_count == 0 || screen.degenerate()
    }

    /// Whether preparing a frame for `screen` has to create a depth target.
    pub open spec fn needs_depth_target(self, screen: ScreenRect) -> bool {
        self.depth_texture_size != (screen.width, screen.height) || self.depth_texture is None
    }

    /// The compositor once a frame for `screen` is being prepared, before
    /// any drawable ran.
    pub open spec fn preparing(self, screen: ScreenRect) -> CompositorView {
        if self.needs_depth_target(screen) {
            CompositorView {
                depth_texture_size: (screen.width, screen.height),
                depth_texture: Some(depth_target(screen.width, screen.height)),
                ..self
            }
        } else {
            self
        }
    }

    /// The compositor after its frame was drawn.
    pub open spec fn drawn(self) -> CompositorView {
        CompositorView {
            queue: QueueView::empty(),
            vertex_stream: self.vertex_stream.finished(),
            index_stream: self.index_stream.finished(),
            ..self
        }
    }
}

/// Once a frame was prepared for a viewport, the depth target has exactly the
/// viewport's physical size, and that size is the recorded one.
pub proof fn lemma_prepared_depth_target_fits(compositor: CompositorView, screen: ScreenRect)
    requires
        compositor.wf(),
    ensures
        compositor.preparing(screen).depth_texture == Some(
            depth_target(screen.width, screen.height),
        ),
        compositor.preparing(screen).depth_texture_size == (screen.width, screen.height),
        compositor.preparing(screen).wf(),
{
}

/// The depth target is replaced only where the viewport's physical size
/// differs from the recorded one: a frame of the same size leaves the
/// compositor as it is.
pub proof fn lemma_depth_target_kept_for_same_size(compositor: CompositorView, screen: ScreenRect)
    requires
        compositor.wf(),
        compositor.depth_texture is Some,
        compositor.depth_texture_size == (screen.width, screen.height),
    ensures
        !compositor.needs_depth_target(screen),
        compositor.preparing(screen) == compositor,
{
}

/// Render work is never queued without a depth target: a render pass always
/// finds one.
pub proof fn lemma_queued_work_has_depth_target(compositor: CompositorView)
    requires
        compositor.wf(),
        !compositor.queue.is_empty(),
    ensures
        compositor.depth_texture is Some,
        depth_attachment(compositor.depth_texture).target is Some,
{
}

/// Drawing leaves nothing queued and nothing staged, keeps the depth target,
/// and a second draw right after it finds nothing to do.
pub proof fn lemma_drawn_is_idle(compositor: CompositorView)
    requires
        compositor.wf(),
    ensures
        compositor.drawn().queue.is_empty(),
        compositor.drawn().queue.len() == 0,
        compositor.drawn().vertex_stream.data.len() == 0,
        compositor.drawn().index_stream.data.len() == 0,
        compositor.drawn().depth_texture == compositor.depth_texture,
        compositor.drawn().depth_texture_size == compositor.depth_texture_size,
        compositor.drawn().wf(),
{
}

/// A frame in preparation: what the embedding layer has to do before the
/// drawables run, and what the drawables are handed.
pub struct PreparedFrame<'a> {
    /// The depth target to create, where the one at hand does not fit.
    pub depth_target: Option<DepthTargetDescriptor>,
    /// The depth hint of each drawable, in submission order.
    pub hints: Vec<DepthHint>,
    pub context: DrawContext<'a>,
}

/// One render pass: the uploads that precede it, its depth attachment and
/// the steps it runs.
pub struct RenderFrame<'a> {
    pub label: &'static str,
    pub vertex_upload: StreamUpload,
    pub index_upload: StreamUpload,
    pub depth_stencil_attachment: DepthStencilAttachment,
    pub context: RenderContext<'a>,
    /// The steps of the pass, in the order in which they run.
    pub calls: Vec<RenderCall>,
}

/// Frame compositor for one render target.
pub struct Compositor {
    queue: RenderNodeQueue,
    data: RenderData,
    pipeline_data: RenderPipelineData,
    depth_texture_size: (u32, u32),
    depth_texture: Option<DepthTargetDescriptor>,
    vertex_stream: BufferStream,
    index_stream: BufferStream,
}

impl View for Compositor {
    type V = CompositorView;

    closed spec fn view(&self) -> CompositorView {
        CompositorView {
            queue: self.queue@,
            pipeline_data: self.pipeline_data,
            depth_texture_size: self.depth_texture_size,
            depth_texture: self.depth_texture,
            vertex_stream: self.vertex_stream@,
            index_stream: self.index_stream@,
        }
    }
}

impl Compositor {
    /// Format of the depth target.
    pub const DEPTH_TEXTURE_FORMAT: DepthFormat = DepthFormat::Depth32Float;

    /// The values memoised for this compositor.
    pub closed spec fn data(&self) -> &RenderData {
        &self.data
    }

    pub fn new(texture_format: TextureFormat, multi_sample: Option<MultisampleState>) -> (compositor:
        Self)
        ensures
            compositor@ == CompositorView::fresh(texture_format, multi_sample),
            compositor@.wf(),
    {
        let vertex_stream = BufferStream::new(Some(VERTEX_STREAM_LABEL), StreamUsage::Vertex);
        let index_stream = BufferStream::new(Some(INDEX_STREAM_LABEL), StreamUsage::Index);
        Self {
            queue: RenderNodeQueue::new(),
            data: RenderData::new(),
            pipeline_data: Self::create_pipeline_data(texture_format, multi_sample),
            depth_texture_size: (0, 0),
            depth_texture: None,
            vertex_stream,
            index_stream,
        }
    }

    fn create_pipeline_data(
        texture_format: TextureFormat,
        multi_sample: Option<MultisampleState>,
    ) -> (pipeline_data: RenderPipelineData)
        ensures
            pipeline_data == pipeline_data_for(texture_format, multi_sample),
    {
        RenderPipelineData {
            texture_format,
            depth_stencil: Some(
                DepthStencilState {
                    format: DepthFormat::Depth32Float,
                    depth_write_enabled: true,
                    depth_compare: CompareFunction::Less,
                    stencil: StencilState {
                        front: StencilFaceState::ignored(),
                        back: StencilFaceState::ignored(),
                        read_mask: 0,
                        write_mask: 0,
                    },
                    bias: DepthBiasState { constant: 0, slope_scale_bits: 0, clamp_bits: 0 },
                },
            ),
            multi_sample,
        }
    }

    pub fn pipeline_data(&self) -> (pipeline_data: &RenderPipelineData)
        ensures
            *pipeline_data == self@.pipeline_data,
    {
        &self.pipeline_data
    }

    /// The render work that is pending.
    pub fn queue(&self) -> (queue: &RenderNodeQueue)
        ensures
            queue@ == self@.queue,
    {
        &self.queue
    }

    /// Physical size that the depth target was last created for.
    pub fn depth_texture_size(&self) -> (size: (u32, u32))
        ensures
            size == self@.depth_texture_size,
    {
        self.depth_texture_size
    }

    /// The depth target, or nothing before the first frame was prepared.
    pub fn depth_texture(&self) -> (target: Option<DepthTargetDescriptor>)
        ensures
            target == self@.depth_texture,
    {
        self.depth_texture
    }

    pub fn vertex_stream(&self) -> (stream: &BufferStream)
        ensures
            stream@ == self@.vertex_stream,
    {
        &self.vertex_stream
    }

    pub fn index_stream(&self) -> (stream: &BufferStream)
        ensures
            stream@ == self@.index_stream,
    {
        &self.index_stream
    }

    /// Replaces the depth target by one of the given size and returns its
    /// description.
    fn update_depth_stencil(&mut self, width: u32, height: u32) -> (target: DepthTargetDescriptor)
        ensures
            target == depth_target(width, height),
            final(self)@ == (CompositorView { depth_texture: Some(target), ..old(self)@ }),
            final(self).data() == old(self).data(),
    {
        let target = DepthTargetDescriptor {
            label: DEPTH_TEXTURE_LABEL,
            width,
            height,
            depth_or_array_layers: 1,
            mip_level_count: 1,
            sample_count: 1,
            dimension: TextureDimension::D2,
            format: Self::DEPTH_TEXTURE_FORMAT,
            usage: TextureUsage::RenderAttachment,
        };
        self.depth_texture = Some(target);
        target
    }

    /// Starts the prepare phase of a frame with `node_count` drawables.
    ///
    /// Nothing happens without drawables or with a degenerate viewport.
    /// Otherwise the depth target is replaced where its size differs from
    /// the viewport's, and the result carries the depth hint of every
    /// drawable and the context that the drawables fill. What they queue and
    /// write ends up in the compositor.
    pub fn prepare<'a>(
        &'a mut self,
        backend_store: BackendFnStore<'a>,
        screen: ScreenRect,
        node_count: usize,
    ) -> (frame: Option<PreparedFrame<'a>>)
        ensures
            CompositorView::skips(screen, node_count) ==> frame is None && *final(self) == *old(
                self,
            ),
            !CompositorView::skips(screen, node_count) ==> {
                &&& frame matches Some(frame)
                &&& frame.depth_target == if old(self)@.needs_depth_target(screen) {
                    Some(depth_target(screen.width, screen.height))
                } else {
                    None
                }
                &&& frame.hints@ == depth_hint_seq(node_count as int)
                &&& frame.context.screen == screen
                &&& frame.context.store.backend_spec() == backend_store
                &&& *frame.context.store.pipeline_spec() == old(self)@.pipeline_data
                &&& frame.context.store.data() == old(self).data()
                &&& frame.context.queue@ == old(self)@.queue
                &&& frame.context.vertex_stream@ == old(self)@.vertex_stream
                &&& frame.context.index_stream@ == old(self)@.index_stream
                &&& final(self)@ == (CompositorView {
                    queue: final(frame.context.queue)@,
                    vertex_stream: final(frame.context.vertex_stream)@,
                    index_stream: final(frame.context.index_stream)@,
                    ..old(self)@.preparing(screen)
                })
                &&& final(self).data() == old(self).data()
                &&& final(self)@.depth_texture is Some
            },
            old(self)@.wf() ==> final(self)@.wf(),
    {
        if node_count == 0 || screen.is_none() {
            return None;
        }
        let recreate: bool = self.depth_texture_size.0 != screen.width || self.depth_texture_size.1
            != screen.height || self.depth_texture.is_none();
        let depth_target: Option<DepthTargetDescriptor> = if recreate {
            let target = self.update_depth_stencil(screen.width, screen.height);
            self.depth_texture_size = (screen.width, screen.height);
            Some(target)
        } else {
            None
        };
        let hints = depth_hints(node_count);
        Some(
            PreparedFrame {
                depth_target,
                hints,
                context: DrawContext {
                    store: self.data.as_ref(backend_store, &self.pipeline_data),
                    queue: &mut self.queue,
                    screen,
                    vertex_stream: &mut self.vertex_stream,
                    index_stream: &mut self.index_stream,
                },
            },
        )
    }

    /// Starts the draw phase of a frame.
    ///
    /// Nothing happens while no render work is queued. Otherwise both
    /// streams hand their bytes over, the queue is read in render order and
    /// emptied, and the result describes the one render pass of the frame.
    pub fn draw<'a>(&'a mut self, backend_store: BackendFnStore<'a>) -> (frame: Option<
        RenderFrame<'a>,
    >)
        ensures
            old(self)@.queue.is_empty() ==> frame is None && *final(self) == *old(self),
            !old(self)@.queue.is_empty() ==> {
                &&& frame matches Some(frame)
                &&& frame.label == RENDER_PASS_LABEL
                &&& is_upload_of(frame.vertex_upload, old(self)@.vertex_stream)
                &&& is_upload_of(frame.index_upload, old(self)@.index_stream)
                &&& frame.depth_stencil_attachment == depth_attachment(old(self)@.depth_texture)
                &&& frame.context.store.backend_spec() == backend_store
                &&& *frame.context.store.pipeline_spec() == old(self)@.pipeline_data
                &&& frame.context.store.data() == old(self).data()
                &&& frame.context.vertex_stream == old(self)@.vertex_stream.buffer()
                &&& frame.context.index_stream == old(self)@.index_stream.buffer()
                &&& frame.calls@ == old(self)@.queue.render_order()
                &&& final(self)@ == old(self)@.drawn()
                &&& final(self).data() == old(self).data()
            },
            old(self)@.wf() ==> final(self)@.wf(),
            old(self)@.wf() && frame is Some ==> frame->0.depth_stencil_attachment.target is Some,
    {
        if self.queue.is_empty() {
            return None;
        }
        let depth_stencil_attachment = DepthStencilAttachment {
            target: self.depth_texture,
            depth_ops: Some(Operations { load: LoadOp::Clear(DEPTH_CLEAR_BITS), store: true }),
            stencil_ops: None,
        };
        let vertex_upload = self.vertex_stream.finish();
        let index_upload = self.index_stream.finish();
        let calls = self.queue.render();
        self.queue.clear();
        let context = RenderContext {
            store: self.data.as_ref(backend_store, &self.pipeline_data),
            vertex_stream: vertex_upload.buffer,
            index_stream: index_upload.buffer,
        };
        Some(
            RenderFrame {
                label: RENDER_PASS_LABEL,
                vertex_upload,
                index_upload,
                depth_stencil_attachment,
                context,
                calls,
            },
        )
    }
}

} // verus!
