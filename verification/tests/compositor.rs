use frame_compositor::compositor::{
    Compositor, DepthStencilAttachment, DepthTargetDescriptor, LoadOp, Operations,
    TextureDimension, TextureUsage, DEPTH_CLEAR_BITS, DEPTH_TEXTURE_LABEL, RENDER_PASS_LABEL,
};
use frame_compositor::depth::DepthHint;
use frame_compositor::pipeline::{
    CompareFunction, DepthBiasState, DepthFormat, DepthStencilState, StencilFaceState,
    StencilState,
};
use frame_compositor::queue::{RenderCall, RenderOperation};
use frame_compositor::screen::ScreenRect;
use frame_compositor::store::BackendData;
use frame_compositor::stream::{BufferAllocation, StreamBuffer, StreamUsage};

const ONE: u32 = ScreenRect::UNIT_SCALE_BITS;

fn compositor() -> Compositor {
    Compositor::new(wgpu::TextureFormat::Bgra8UnormSrgb, None)
}

fn screen(width: u32, height: u32) -> ScreenRect {
    ScreenRect::new(0, 0, width, height, ONE)
}

fn target(width: u32, height: u32) -> DepthTargetDescriptor {
    DepthTargetDescriptor {
        label: DEPTH_TEXTURE_LABEL,
        width,
        height,
        depth_or_array_layers: 1,
        mip_level_count: 1,
        sample_count: 1,
        dimension: TextureDimension::D2,
        format: DepthFormat::Depth32Float,
        usage: TextureUsage::RenderAttachment,
    }
}

fn call(node: u64) -> RenderCall {
    RenderCall { node, operation: RenderOperation::Transparent }
}

#[test]
fn depth_is_cleared_to_one() {
    assert_eq!(f32::from_bits(DEPTH_CLEAR_BITS), 1.0);
}

#[test]
fn depth_texture_format_is_32_bit_float() {
    assert_eq!(Compositor::DEPTH_TEXTURE_FORMAT, DepthFormat::Depth32Float);
}

#[test]
fn new_compositor_has_nothing_queued_and_no_depth_target() {
    let compositor = compositor();
    assert!(compositor.queue().is_empty());
    assert_eq!(compositor.depth_texture_size(), (0, 0));
    assert_eq!(compositor.depth_texture(), None);
    assert!(compositor.vertex_stream().is_empty());
    assert!(compositor.index_stream().is_empty());
    assert_eq!(compositor.vertex_stream().allocated_size(), None);
    assert_eq!(compositor.index_stream().allocated_size(), None);
}

#[test]
fn new_compositor_describes_its_render_target() {
    let multi_sample =
        wgpu::MultisampleState { count: 4, mask: !0, alpha_to_coverage_enabled: false };
    let compositor = Compositor::new(wgpu::TextureFormat::Rgba16Float, Some(multi_sample));
    let data = compositor.pipeline_data();
    assert_eq!(data.texture_format, wgpu::TextureFormat::Rgba16Float);
    assert_eq!(data.multi_sample, Some(multi_sample));
    assert_eq!(
        data.depth_stencil,
        Some(DepthStencilState {
            format: DepthFormat::Depth32Float,
            depth_write_enabled: true,
            depth_compare: CompareFunction::Less,
            stencil: StencilState {
                front: StencilFaceState::ignored(),
                back: StencilFaceState::ignored(),
                read_mask: 0,
                write_mask: 0,
            },
            bias: DepthBiasState { constant: 0, slope_scale_bits: 0, clamp_bits: 0 },
        })
    );
    assert_eq!(
        data.depth_stencil_read_only().map(|state| state.depth_write_enabled),
        Some(false)
    );
}

#[test]
fn prepare_without_drawables_does_nothing() {
    let backend = BackendData::new();
    let mut compositor = compositor();
    assert!(compositor.prepare(backend.as_ref(), screen(100, 100), 0).is_none());
    assert_eq!(compositor.depth_texture_size(), (0, 0));
    assert_eq!(compositor.depth_texture(), None);
    assert!(compositor.queue().is_empty());
}

#[test]
fn prepare_with_degenerate_viewport_does_nothing() {
    let backend = BackendData::new();
    let mut compositor = compositor();
    assert!(compositor.prepare(backend.as_ref(), screen(0, 0), 3).is_none());
    assert_eq!(compositor.depth_texture_size(), (0, 0));
    assert_eq!(compositor.depth_texture(), None);
    assert!(compositor.queue().is_empty());
}

#[test]
fn skipped_prepare_keeps_an_existing_depth_target() {
    let backend = BackendData::new();
    let mut compositor = compositor();
    assert!(compositor.prepare(backend.as_ref(), screen(64, 32), 1).is_some());
    assert!(compositor.prepare(backend.as_ref(), screen(0, 0), 1).is_none());
    assert!(compositor.prepare(backend.as_ref(), screen(128, 128), 0).is_none());
    assert_eq!(compositor.depth_texture_size(), (64, 32));
    assert_eq!(compositor.depth_texture(), Some(target(64, 32)));
}

#[test]
fn first_prepare_creates_the_depth_target() {
    let backend = BackendData::new();
    let mut compositor = compositor();
    let frame = compositor.prepare(backend.as_ref(), screen(100, 50), 1).unwrap();
    assert_eq!(frame.depth_target, Some(target(100, 50)));
    assert_eq!(frame.context.screen, screen(100, 50));
    assert_eq!(compositor.depth_texture_size(), (100, 50));
    assert_eq!(compositor.depth_texture(), Some(target(100, 50)));
}

#[test]
fn prepare_for_the_same_size_keeps_the_depth_target() {
    let backend = BackendData::new();
    let mut compositor = compositor();
    compositor.prepare(backend.as_ref(), screen(100, 50), 1).unwrap();
    let moved = ScreenRect::new(10, 20, 100, 50, 0x4000_0000);
    let frame = compositor.prepare(backend.as_ref(), moved, 2).unwrap();
    assert_eq!(frame.depth_target, None);
    assert_eq!(frame.context.screen, moved);
    assert_eq!(compositor.depth_texture_size(), (100, 50));
    assert_eq!(compositor.depth_texture(), Some(target(100, 50)));
}

#[test]
fn prepare_for_another_size_replaces_the_depth_target() {
    let backend = BackendData::new();
    let mut compositor = compositor();
    compositor.prepare(backend.as_ref(), screen(100, 50), 1).unwrap();
    let taller = compositor.prepare(backend.as_ref(), screen(100, 51), 1).unwrap();
    assert_eq!(taller.depth_target, Some(target(100, 51)));
    assert_eq!(compositor.depth_texture_size(), (100, 51));
    let wider = compositor.prepare(backend.as_ref(), screen(101, 51), 1).unwrap();
    assert_eq!(wider.depth_target, Some(target(101, 51)));
    assert_eq!(compositor.depth_texture(), Some(target(101, 51)));
}

#[test]
fn viewport_with_one_zero_side_is_prepared() {
    let backend = BackendData::new();
    let mut compositor = compositor();
    let frame = compositor.prepare(backend.as_ref(), screen(0, 8), 1).unwrap();
    assert_eq!(frame.depth_target, Some(target(0, 8)));
    assert_eq!(compositor.depth_texture_size(), (0, 8));
}

#[test]
fn prepare_hands_out_one_hint_for_each_drawable() {
    let backend = BackendData::new();
    let mut compositor = compositor();
    let frame = compositor.prepare(backend.as_ref(), screen(100, 100), 4).unwrap();
    assert_eq!(
        frame.hints,
        vec![
            DepthHint { index: 0, total: 4 },
            DepthHint { index: 1, total: 4 },
            DepthHint { index: 2, total: 4 },
            DepthHint { index: 3, total: 4 },
        ]
    );
    let floats: Vec<f32> = frame
        .hints
        .iter()
        .map(|hint| hint.numerator() as f32 / hint.denominator() as f32)
        .collect();
    assert_eq!(floats, vec![0.75, 0.5, 0.25, 0.0]);
}

#[test]
fn prepare_context_reaches_the_stores() {
    let backend = BackendData::new();
    let mut compositor = Compositor::new(wgpu::TextureFormat::Rgba8Unorm, None);
    let frame = compositor.prepare(backend.as_ref(), screen(10, 10), 1).unwrap();
    assert_eq!(frame.context.store.pipeline().texture_format, wgpu::TextureFormat::Rgba8Unorm);
    assert_eq!(*frame.context.store.get(|_| 5u32), 5);
    assert_eq!(*frame.context.store.backend().get(|_| 6u32), 6);
    assert_eq!(*backend.as_ref().get(|_| 7u32), 6);
}

#[test]
fn render_store_outlives_the_frame() {
    let backend = BackendData::new();
    let mut compositor = compositor();
    {
        let frame = compositor.prepare(backend.as_ref(), screen(10, 10), 1).unwrap();
        assert_eq!(*frame.context.store.get(|_| 5u32), 5);
        frame.context.queue.push_opaque(1);
    }
    let pass = compositor.draw(backend.as_ref()).unwrap();
    assert_eq!(*pass.context.store.get(|_| 9u32), 5);
}

#[test]
fn draw_with_empty_queue_does_nothing() {
    let backend = BackendData::new();
    let mut compositor = compositor();
    assert!(compositor.draw(backend.as_ref()).is_none());
    assert!(compositor.queue().is_empty());
    assert_eq!(compositor.queue().len(), 0);
    assert_eq!(compositor.vertex_stream().allocated_size(), None);
    assert_eq!(compositor.depth_texture(), None);
}

#[test]
fn draw_with_empty_queue_keeps_staged_bytes() {
    let backend = BackendData::new();
    let mut compositor = compositor();
    {
        let frame = compositor.prepare(backend.as_ref(), screen(10, 10), 1).unwrap();
        frame.context.vertex_stream.write(&[1, 2, 3, 4]);
    }
    assert!(compositor.draw(backend.as_ref()).is_none());
    assert_eq!(compositor.vertex_stream().len(), 4);
    assert_eq!(compositor.vertex_stream().allocated_size(), None);
}

#[test]
fn prepare_then_draw_visits_opaque_then_transparent() {
    let backend = BackendData::new();
    let mut compositor = compositor();
    {
        let frame = compositor.prepare(backend.as_ref(), screen(100, 100), 2).unwrap();
        assert_eq!(frame.hints.len(), 2);
        frame.context.queue.push_opaque(1);
        frame.context.queue.push_transparent(2);
    }
    assert_eq!(compositor.queue().len(), 2);
    let pass = compositor.draw(backend.as_ref()).unwrap();
    assert_eq!(pass.calls, vec![call(1), call(2)]);
    assert_eq!(compositor.queue().len(), 0);
    assert!(compositor.queue().is_empty());
}

#[test]
fn draw_describes_the_depth_tested_pass() {
    let backend = BackendData::new();
    let mut compositor = compositor();
    {
        let frame = compositor.prepare(backend.as_ref(), screen(320, 200), 1).unwrap();
        frame.context.queue.push_opaque(3);
    }
    let pass = compositor.draw(backend.as_ref()).unwrap();
    assert_eq!(pass.label, RENDER_PASS_LABEL);
    assert_eq!(
        pass.depth_stencil_attachment,
        DepthStencilAttachment {
            target: Some(target(320, 200)),
            depth_ops: Some(Operations { load: LoadOp::Clear(DEPTH_CLEAR_BITS), store: true }),
            stencil_ops: None,
        }
    );
}

#[test]
fn draw_uploads_what_the_drawables_wrote() {
    let backend = BackendData::new();
    let mut compositor = compositor();
    {
        let frame = compositor.prepare(backend.as_ref(), screen(100, 100), 2).unwrap();
        frame.context.vertex_stream.write(&[1, 2, 3, 4]);
        frame.context.index_stream.write(&[0, 0]);
        frame.context.vertex_stream.write(&[5, 6, 7, 8]);
        frame.context.queue.push_transparent(1);
    }
    let pass = compositor.draw(backend.as_ref()).unwrap();
    assert_eq!(pass.vertex_upload.bytes, vec![1, 2, 3, 4, 5, 6, 7, 8]);
    assert_eq!(pass.index_upload.bytes, vec![0, 0]);
    assert_eq!(
        pass.vertex_upload.allocate,
        Some(BufferAllocation {
            label: Some("Compositor vertex stream buffer"),
            usage: StreamUsage::Vertex,
            size: 8,
        })
    );
    assert_eq!(
        pass.index_upload.allocate,
        Some(BufferAllocation {
            label: Some("Compositor index stream buffer"),
            usage: StreamUsage::Index,
            size: 2,
        })
    );
    assert_eq!(pass.context.vertex_stream, StreamBuffer { usage: StreamUsage::Vertex, len: 8 });
    assert_eq!(pass.context.index_stream, StreamBuffer { usage: StreamUsage::Index, len: 2 });
    assert_eq!(pass.vertex_upload.buffer, pass.context.vertex_stream);
    assert_eq!(pass.index_upload.buffer, pass.context.index_stream);
    assert!(compositor.vertex_stream().is_empty());
    assert!(compositor.index_stream().is_empty());
    assert_eq!(compositor.vertex_stream().allocated_size(), Some(8));
    assert_eq!(compositor.index_stream().allocated_size(), Some(2));
}

#[test]
fn second_frame_reuses_the_stream_buffers() {
    let backend = BackendData::new();
    let mut compositor = compositor();
    for (len, grown) in [(8usize, true), (4, false), (8, false), (12, true)] {
        {
            let frame = compositor.prepare(backend.as_ref(), screen(100, 100), 1).unwrap();
            frame.context.vertex_stream.write(&vec![0u8; len]);
            frame.context.queue.push_opaque(0);
        }
        let pass = compositor.draw(backend.as_ref()).unwrap();
        assert_eq!(pass.vertex_upload.allocate.is_some(), grown);
        assert_eq!(pass.vertex_upload.bytes.len(), len);
    }
    assert_eq!(compositor.vertex_stream().allocated_size(), Some(12));
}

#[test]
fn draw_clears_the_queue_for_the_next_frame() {
    let backend = BackendData::new();
    let mut compositor = compositor();
    {
        let frame = compositor.prepare(backend.as_ref(), screen(100, 100), 1).unwrap();
        frame.context.queue.push_opaque(1);
    }
    assert!(compositor.draw(backend.as_ref()).is_some());
    assert!(compositor.draw(backend.as_ref()).is_none());
    {
        let frame = compositor.prepare(backend.as_ref(), screen(100, 100), 1).unwrap();
        frame.context.queue.push_opaque(2);
    }
    let pass = compositor.draw(backend.as_ref()).unwrap();
    assert_eq!(pass.calls, vec![call(2)]);
}

#[test]
fn draw_renders_what_earlier_prepares_left_queued() {
    let backend = BackendData::new();
    let mut compositor = compositor();
    {
        let frame = compositor.prepare(backend.as_ref(), screen(100, 100), 1).unwrap();
        frame.context.queue.push_opaque(1);
        frame.context.queue.push_transparent(10);
    }
    {
        let frame = compositor.prepare(backend.as_ref(), screen(100, 100), 1).unwrap();
        frame.context.queue.push_opaque(2);
        frame.context.queue.push_transparent(11);
    }
    assert!(compositor.prepare(backend.as_ref(), screen(0, 0), 1).is_none());
    let pass = compositor.draw(backend.as_ref()).unwrap();
    assert_eq!(pass.calls, vec![call(2), call(1), call(10), call(11)]);
    assert_eq!(pass.depth_stencil_attachment.target, Some(target(100, 100)));
}
