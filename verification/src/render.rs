//! The rendering core.
//!
//! This module decides everything the GPU shell submits: which surface format
//! is picked from the adapter's capabilities, how the surface is configured
//! and reconfigured on resize, and what is drawn each frame. The shell hands
//! in the capabilities as plain values, and executes the returned
//! [`FramePlan`] verbatim.

use vstd::prelude::*;

use crate::render::mesh::Sprite;
use crate::render::primitives::{
    layout_well_formed, Primitive, Vertex, VertexLayout, VertexTextured,
};

pub mod mesh;
pub mod primitives;

verus! {

/// Why the renderer could not be built or could not draw.
#[derive(Clone, Copy, Debug, PartialEq, Eq, Structural)]
pub enum RenderError {
    /// The graphics backend could not create a surface.
    CreateSurface,
    /// No compatible adapter was found.
    Adapter,
    /// A graphics device could not be requested.
    Device,
    /// The window surface could not be fetched.
    Surface,
    /// An image could not be loaded from memory.
    Image,
}

/// The surface capabilities the adapter reported, reduced to what the
/// configuration decisions read. Each list keeps the adapter's preference
/// order.
pub struct SurfaceCaps {
    /// For each supported surface format, whether it is an sRGB format.
    pub formats_srgb: Vec<bool>,
    /// How many presentation modes the surface supports.
    pub present_mode_count: usize,
    /// How many alpha compositing modes the surface supports.
    pub alpha_mode_count: usize,
}

impl SurfaceCaps {
    /// A surface always offers at least one format, one present mode and one
    /// alpha mode; the shell may only hand in capabilities of that shape.
    pub open spec fn well_formed(&self) -> bool {
        &&& self.formats_srgb@.len() > 0
        &&& self.present_mode_count > 0
        &&& self.alpha_mode_count > 0
    }
}

/// The chosen surface configuration: indices into the capability lists, the
/// surface size in pixels, and the requested frame latency.
#[derive(Clone, Copy, Debug, PartialEq, Eq, Structural)]
pub struct SurfaceConfig {
    pub format_index: usize,
    pub present_mode_index: usize,
    pub alpha_mode_index: usize,
    pub width: u32,
    pub height: u32,
    pub desired_maximum_frame_latency: u32,
}

/// Whether `i` is the index a renderer must pick from the format list:
/// the first sRGB entry, or entry zero when none is sRGB.
pub open spec fn is_format_choice(i: int, srgb: Seq<bool>) -> bool {
    &&& 0 <= i < srgb.len()
    &&& srgb[i] ==> forall|j: int| 0 <= j < i ==> !srgb[j]
    &&& !srgb[i] ==> i == 0 && forall|j: int| 0 <= j < srgb.len() ==> !srgb[j]
}

/// The index of the surface format to use: the first sRGB format, or the
/// first format of all when none is sRGB.
pub fn choose_surface_format(formats_srgb: &Vec<bool>) -> (i: usize)
    requires
        formats_srgb@.len() > 0,
    ensures
        is_format_choice(i as int, formats_srgb@),
{
    let mut k: usize = 0;
    while k < formats_srgb.len()
        invariant
            k <= formats_srgb@.len(),
            forall|j: int| 0 <= j < k ==> !formats_srgb@[j],
        decreases formats_srgb@.len() - k,
    {
        if formats_srgb[k] {
            return k;
        }
        k += 1;
    }
    0
}

/// One indexed draw submitted during a frame.
#[derive(Clone, Copy, Debug, PartialEq, Eq, Structural)]
pub struct DrawCall {
    /// How many indices of the bound index buffer are drawn.
    pub index_count: u32,
}

/// Everything one frame draws, in submission order.
pub struct FramePlan {
    pub draws: Vec<DrawCall>,
}

/// The renderer's state: the surface configuration it has decided on,
/// whether that configuration has been applied to a surface yet, and the
/// vertex layout its pipeline binds.
pub struct Gfx {
    pub config: SurfaceConfig,
    pub surface_configured: bool,
    pub vertex_layout: VertexLayout,
    /// The built-in logo texture the pipeline's bind group samples.
    pub logo: mesh::TexturedQuad,
}

/// The state of a freshly decided renderer for `caps`, `size` and the
/// encoded logo: the first-sRGB surface format, the first present and
/// alpha modes, the requested size, a frame latency of two, a surface not
/// yet configured, the textured-vertex pipeline layout, and the texture
/// the logo bytes decode into.
pub open spec fn fresh_renderer(gfx: Gfx, caps: SurfaceCaps, size: (u32, u32), logo_bytes: Seq<u8>) -> bool {
    &&& is_format_choice(gfx.config.format_index as int, caps.formats_srgb@)
    &&& gfx.config.present_mode_index == 0
    &&& gfx.config.alpha_mode_index == 0
    &&& gfx.config.width == size.0
    &&& gfx.config.height == size.1
    &&& gfx.config.desired_maximum_frame_latency == 2
    &&& !gfx.surface_configured
    &&& gfx.vertex_layout.array_stride == <VertexTextured as Vertex>::spec_stride()
    &&& gfx.vertex_layout.attributes@ == <VertexTextured as Vertex>::spec_attributes()
    &&& layout_well_formed(gfx.vertex_layout.array_stride, gfx.vertex_layout.attributes@)
    &&& mesh::is_decoded_texture(logo_bytes, gfx.logo)
}

/// Build a renderer over the wgpu backend.
///
/// The shell creates the instance, surface, adapter and device, reads the
/// surface capabilities, and hands them in here together with the encoded
/// bytes of the built-in logo image; the decoded logo becomes the sprite
/// texture bound by the pipeline.
pub fn wgpu(
    caps: &SurfaceCaps,
    size: (u32, u32),
    logo_bytes: &[u8],
) -> (r: Result<Gfx, RenderError>)
    requires
        caps.well_formed(),
    ensures
        r is Ok <==> mesh::decodes_to_texture(logo_bytes@),
        r matches Ok(gfx) ==> fresh_renderer(gfx, *caps, size, logo_bytes@),
        r matches Err(e) ==> e == RenderError::Image,
{
    Gfx::new(caps, size, logo_bytes)
}

impl Gfx {
    /// Decide the surface configuration and decode the built-in logo.
    fn new(
        caps: &SurfaceCaps,
        size: (u32, u32),
        logo_bytes: &[u8],
    ) -> (r: Result<Gfx, RenderError>)
        requires
            caps.well_formed(),
        ensures
            r is Ok <==> mesh::decodes_to_texture(logo_bytes@),
            r matches Ok(gfx) ==> fresh_renderer(gfx, *caps, size, logo_bytes@),
            r matches Err(e) ==> e == RenderError::Image,
    {
        let format_index: usize = choose_surface_format(&caps.formats_srgb);

        let config = SurfaceConfig {
            format_index,
            present_mode_index: 0,
            alpha_mode_index: 0,
            width: size.0,
            height: size.1,
            desired_maximum_frame_latency: 2,
        };

        let logo = match mesh::TexturedQuad::from_bytes(logo_bytes) {
            Ok(logo) => logo,
            Err(e) => {
                return Err(e);
            },
        };

        let gfx = Gfx {
            config,
            surface_configured: false,
            vertex_layout: VertexTextured::desc(),
            logo,
        };
        Ok(gfx)
    }

    /// Record the new surface size; the surface counts as configured from
    /// here on. The shell applies the stored configuration to the real
    /// surface after every call.
    pub fn set_surface_size(&mut self, width: u32, height: u32)
        ensures
            final(self).config == (SurfaceConfig { width, height, ..old(self).config }),
            final(self).surface_configured,
            final(self).vertex_layout == old(self).vertex_layout,
            final(self).logo == old(self).logo,
    {
        self.config.width = width;
        self.config.height = height;
        self.surface_configured = true;
    }

    /// Plan one frame. Before the surface is configured nothing may be
    /// submitted and no plan is produced; afterwards every sprite is drawn
    /// indexed, with exactly its quad's index count.
    pub fn render(&self, sprites: &Vec<Sprite>) -> (plan: Option<FramePlan>)
        ensures
            plan is Some <==> self.surface_configured,
            plan matches Some(p) ==> {
                &&& p.draws@.len() == sprites@.len()
                &&& forall|i: int|
                    0 <= i < sprites@.len() ==> (#[trigger] p.draws@[i]).index_count == 6
            },
    {
        if !self.surface_configured {
            return None;
        }

        let mut draws: Vec<DrawCall> = Vec::new();
        let mut k: usize = 0;
        while k < sprites.len()
            invariant
                k <= sprites@.len(),
                draws@.len() == k,
                forall|i: int| 0 <= i < k ==> (#[trigger] draws@[i]).index_count == 6,
            decreases sprites@.len() - k,
        {
            let indices = sprites[k].texture.quad.indices().unwrap();
            draws.push(DrawCall { index_count: indices.len() as u32 });
            k += 1;
        }
        Some(FramePlan { draws })
    }

    /// Build a sprite from the encoded bytes of its image. The shell reads
    /// the image file and hands the bytes in.
    pub fn create_sprite(&self, bytes: &[u8]) -> (r: Result<mesh::Sprite, RenderError>)
        ensures
            r is Ok <==> mesh::decodes_to_texture(bytes@),
            r matches Ok(s) ==> mesh::is_decoded_texture(bytes@, s.texture),
            r matches Err(e) ==> e == RenderError::Image,
    {
        mesh::Sprite::new(self, bytes)
    }
}

} // verus!
