//! A compositor bound to a presentable surface: it keeps the surface's
//! configuration and says, frame by frame, what has to happen to the
//! surface around the compositor's two phases.

use crate::compositor::{Compositor, CompositorView, TextureUsage};
use crate::screen::ScreenRect;
use vstd::prelude::*;
use wgpu::{CompositeAlphaMode, PresentMode, SurfaceError, TextureFormat};

verus! {

/// Opaque presentation mode of a surface, as `wgpu` defines it.
#[verifier::external_type_specification]
#[verifier::external_body]
pub struct ExPresentMode(PresentMode);

/// Opaque alpha compositing mode of a surface, as `wgpu` defines it.
#[verifier::external_type_specification]
#[verifier::external_body]
pub struct ExCompositeAlphaMode(CompositeAlphaMode);

/// Opaque reason why a surface handed out no image, as `wgpu` defines it.
#[verifier::external_type_specification]
#[verifier::external_body]
pub struct ExSurfaceError(SurfaceError);

/// What callers configure of a surface.
#[derive(Debug, Clone, Copy)]
pub struct SurfaceConfiguration {
    pub present_mode: PresentMode,
    pub screen: ScreenRect,
    pub alpha_mode: CompositeAlphaMode,
}

/// What a surface is configured with. No further view formats are
/// requested.
#[derive(Debug, Clone, Copy)]
pub struct SurfaceSettings {
    pub usage: TextureUsage,
    pub format: TextureFormat,
    pub width: u32,
    pub height: u32,
    pub present_mode: PresentMode,
    pub alpha_mode: CompositeAlphaMode,
}

/// A colour, each channel an IEEE-754 double precision bit pattern.
#[derive(Debug, Clone, Copy, PartialEq, Eq, Structural)]
pub struct Color {
    pub r_bits: u64,
    pub g_bits: u64,
    pub b_bits: u64,
    pub a_bits: u64,
}

/// What happens to a colour target when a pass starts.
#[derive(Debug, Clone, Copy, PartialEq, Eq, Structural)]
pub enum ColorLoadOp {
    Clear(Color),
    Load,
}

/// How a pass treats the image of the surface.
#[derive(Debug, Clone, Copy, PartialEq, Eq, Structural)]
pub struct ColorAttachment {
    /// Whether the image is resolved into another target.
    pub resolve: bool,
    pub load: ColorLoadOp,
    pub store: bool,
}

/// Label of the command encoder of a frame.
pub const ENCODER_LABEL: &'static str = "SurfaceCompositor";

/// Bit pattern of one in double precision.
pub const ONE_BITS: u64 = 0x3ff0_0000_0000_0000;

/// Opaque black, the background of every frame.
pub open spec fn background() -> Color {
    Color { r_bits: 0, g_bits: 0, b_bits: 0, a_bits: ONE_BITS }
}

/// The image of the surface as the sole colour target: cleared to the
/// background, written back, not resolved.
pub open spec fn surface_attachment() -> ColorAttachment {
    ColorAttachment { resolve: false, load: ColorLoadOp::Clear(background()), store: true }
}

/// The settings that a surface gets for a configuration and a colour format:
/// a render attachment of the viewport's physical size.
pub open spec fn settings_for(
    configuration: SurfaceConfiguration,
    format: TextureFormat,
) -> SurfaceSettings {
    SurfaceSettings {
        usage: TextureUsage::RenderAttachment,
        format,
        width: configuration.screen.width,
        height: configuration.screen.height,
        present_mode: configuration.present_mode,
        alpha_mode: configuration.alpha_mode,
    }
}

/// One frame on a surface: what to do to the surface before its next image
/// is acquired, and what to run against that image.
pub struct SurfaceFrame<'a> {
    /// The settings to configure the surface with, where its configuration
    /// changed since it was last applied.
    pub configure: Option<SurfaceSettings>,
    /// The viewport to prepare the drawables for.
    pub screen: ScreenRect,
    pub encoder_label: &'static str,
    pub color_attachment: ColorAttachment,
    /// The compositor whose two phases run against the acquired image.
    pub compositor: &'a mut Compositor,
}

/// How far a frame got on its surface.
pub enum Acquisition {
    /// There was nothing to render.
    Skipped,
    /// The surface handed out no image.
    Failed(SurfaceError),
    /// The frame was rendered into an image and presented.
    Presented,
}

/// What rendering a frame reports: whether anything was rendered, or why the
/// surface handed out no image.
pub open spec fn outcome_of(acquisition: Acquisition) -> Result<bool, SurfaceError> {
    match acquisition {
        Acquisition::Skipped => Ok(false),
        Acquisition::Failed(error) => Err(error),
        Acquisition::Presented => Ok(true),
    }
}

/// What a surface compositor holds.
pub struct SurfaceCompositorView {
    pub configuration: SurfaceConfiguration,
    /// Whether the configuration changed since the surface was configured.
    pub dirty: bool,
    pub compositor: CompositorView,
}

/// Compositor for a presentable surface.
pub struct SurfaceCompositor {
    configuration: (SurfaceConfiguration, bool),
    compositor: Compositor,
}

impl View for SurfaceCompositor {
    type V = SurfaceCompositorView;

    closed spec fn view(&self) -> SurfaceCompositorView {
        SurfaceCompositorView {
            configuration: self.configuration.0,
            dirty: self.configuration.1,
            compositor: self.compositor@,
        }
    }
}

impl SurfaceCompositor {
    /// A compositor for a surface whose images have the given format. The
    /// surface counts as not configured yet.
    pub fn new(texture_format: TextureFormat, configuration: SurfaceConfiguration) -> (surface:
        Self)
        ensures
            surface@ == (SurfaceCompositorView {
                configuration,
                dirty: true,
                compositor: CompositorView::fresh(texture_format, None),
            }),
            surface@.compositor.wf(),
    {
        Self { configuration: (configuration, true), compositor: Compositor::new(texture_format, None) }
    }

    pub fn configuration(&self) -> (configuration: SurfaceConfiguration)
        ensures
            configuration == self@.configuration,
    {
        self.configuration.0
    }

    /// Stores a configuration. The surface itself is configured when the
    /// next frame is rendered.
    pub fn set_configuration(&mut self, configuration: SurfaceConfiguration)
        ensures
            final(self)@ == (SurfaceCompositorView { configuration, dirty: true, ..old(self)@ }),
    {
        self.configuration = (configuration, true);
    }

    /// Whether rendering `node_count` drawables does nothing.
    pub open spec fn skips(self, node_count: usize) -> bool {
        CompositorView::skips(self@.configuration.screen, node_count)
    }

    /// Starts a frame with `node_count` drawables.
    ///
    /// Nothing happens without drawables or with a degenerate viewport.
    /// Otherwise the result says whether the surface has to be configured
    /// first, which is the case after every change of the configuration,
    /// and lends out the compositor for the two phases of the frame.
    pub fn render<'a>(&'a mut self, node_count: usize) -> (frame: Option<SurfaceFrame<'a>>)
        ensures
            old(self).skips(node_count) ==> frame is None && *final(self) == *old(self),
            !old(self).skips(node_count) ==> {
                &&& frame matches Some(frame)
                &&& frame.configure == if old(self)@.dirty {
                    Some(
                        settings_for(
                            old(self)@.configuration,
                            old(self)@.compositor.pipeline_data.texture_format,
                        ),
                    )
                } else {
                    None
                }
                &&& frame.screen == old(self)@.configuration.screen
                &&& frame.encoder_label == ENCODER_LABEL
                &&& frame.color_attachment == surface_attachment()
                &&& *frame.compositor == old(self).compositor_spec()
                &&& final(self)@ == (SurfaceCompositorView {
                    dirty: false,
                    compositor: final(frame.compositor)@,
                    ..old(self)@
                })
            },
    {
        if node_count == 0 || self.configuration.0.screen.is_none() {
            return None;
        }
        let configuration = self.configuration.0;
        let configure: Option<SurfaceSettings> = if self.configuration.1 {
            self.configuration.1 = false;
            Some(
                SurfaceSettings {
                    usage: TextureUsage::RenderAttachment,
                    format: self.compositor.pipeline_data().texture_format,
                    width: configuration.screen.width,
                    height: configuration.screen.height,
                    present_mode: configuration.present_mode,
                    alpha_mode: configuration.alpha_mode,
                },
            )
        } else {
            None
        };
        Some(
            SurfaceFrame {
                configure,
                screen: configuration.screen,
                encoder_label: ENCODER_LABEL,
                color_attachment: ColorAttachment {
                    resolve: false,
                    load: ColorLoadOp::Clear(
                        Color { r_bits: 0, g_bits: 0, b_bits: 0, a_bits: ONE_BITS },
                    ),
                    store: true,
                },
                compositor: &mut self.compositor,
            },
        )
    }

    /// The compositor behind the surface.
    pub closed spec fn compositor_spec(&self) -> Compositor {
        self.compositor
    }

    /// What rendering a frame reports once it is known how far the frame
    /// got: a failure to acquire an image is handed on as it is.
    pub fn outcome(acquisition: Acquisition) -> (outcome: Result<bool, SurfaceError>)
        ensures
            outcome == outcome_of(acquisition),
    {
        match acquisition {
            Acquisition::Skipped => Ok(false),
            Acquisition::Failed(error) => Err(error),
            Acquisition::Presented => Ok(true),
        }
    }
}

} // verus!
