//! GPU context state machine: surface configuration, one-time render
//! resources, resize and the per-frame draw protocol.
//!
//! The driver-side handles (surface, device, queue, texture, pipeline)
//! live with the embedder; this module owns their verified models as
//! plain values and decides every configuration the embedder applies:
//! which surface format is chosen, how the surface is configured and
//! reconfigured on resize, what the texture and its upload look like,
//! and the exact order of the per-frame draw commands.

use crate::normalize::{decoded_png_u16_to_grayscale_u8, normalize_spec};
use vstd::prelude::*;

verus! {

/// A physical size in pixels.
#[derive(PartialEq, Eq, Structural, Clone, Copy, Debug)]
pub struct Extent {
    pub width: u32,
    pub height: u32,
}

/// What the context reads of a surface pixel format: an identifier out
/// of the adapter's capability list and whether the format is
/// sRGB-capable.
#[derive(PartialEq, Eq, Structural, Clone, Copy, Debug)]
pub struct SurfaceFormat {
    pub id: u32,
    pub srgb: bool,
}

/// Adapter-reported surface capabilities, in the order reported: the
/// candidate formats and the supported present and alpha modes (as
/// identifiers the embedder translates back).
pub struct SurfaceCaps {
    pub formats: Vec<SurfaceFormat>,
    pub present_modes: Vec<u32>,
    pub alpha_modes: Vec<u32>,
}

impl SurfaceCaps {
    /// A usable capability report: every list non-empty.
    pub open spec fn wf(&self) -> bool {
        &&& self.formats@.len() > 0
        &&& self.present_modes@.len() > 0
        &&& self.alpha_modes@.len() > 0
    }
}

/// The presentation surface's mutable configuration.
#[derive(PartialEq, Eq, Structural, Clone, Copy, Debug)]
pub struct SurfaceConfig {
    pub format: SurfaceFormat,
    pub width: u32,
    pub height: u32,
    pub present_mode: u32,
    pub alpha_mode: u32,
}

/// Index of the first sRGB-capable format in the capability list.
pub open spec fn first_srgb_index(formats: Seq<SurfaceFormat>) -> Option<int>
    decreases formats.len(),
{
    if formats.len() == 0 {
        Option::None
    } else if formats[0].srgb {
        Option::Some(0int)
    } else {
        match first_srgb_index(formats.drop_first()) {
            Option::None => Option::None,
            Option::Some(i) => Option::Some(i + 1),
        }
    }
}

/// The format the context selects: the first sRGB-capable format of the
/// capability list, or the first format reported when none is.
pub open spec fn chosen_format(formats: Seq<SurfaceFormat>) -> SurfaceFormat
    recommends
        formats.len() > 0,
{
    match first_srgb_index(formats) {
        Option::Some(i) => formats[i],
        Option::None => formats[0],
    }
}

proof fn lemma_first_srgb_index_found(formats: Seq<SurfaceFormat>, i: int)
    requires
        0 <= i < formats.len(),
        formats[i].srgb,
        forall|j: int| 0 <= j < i ==> !formats[j].srgb,
    ensures
        first_srgb_index(formats) == Option::Some(i),
    decreases i,
{
    if i > 0 {
        lemma_first_srgb_index_found(formats.drop_first(), i - 1);
    }
}

proof fn lemma_first_srgb_index_absent(formats: Seq<SurfaceFormat>)
    requires
        forall|j: int| 0 <= j < formats.len() ==> !formats[j].srgb,
    ensures
        first_srgb_index(formats) is None,
    decreases formats.len(),
{
    if formats.len() > 0 {
        lemma_first_srgb_index_absent(formats.drop_first());
    }
}

/// Select the surface format: prefer the first sRGB-capable entry of the
/// capability list, fall back to the first entry when none is.
pub fn choose_surface_format(formats: &Vec<SurfaceFormat>) -> (r: SurfaceFormat)
    requires
        formats@.len() > 0,
    ensures
        r == chosen_format(formats@),
{
    let mut i: usize = 0;
    while i < formats.len()
        invariant
            0 <= i <= formats@.len(),
            forall|j: int| 0 <= j < i ==> !formats@[j].srgb,
        decreases formats@.len() - i,
    {
        if formats[i].srgb {
            proof {
                lemma_first_srgb_index_found(formats@, i as int);
            }
            return formats[i];
        }
        i = i + 1;
    }
    proof {
        lemma_first_srgb_index_absent(formats@);
    }
    formats[0]
}

/// The configuration the surface is first given: the chosen format, the
/// window's current physical size, and the first reported present and
/// alpha modes.
pub open spec fn initial_config_spec(
    formats: Seq<SurfaceFormat>,
    present_modes: Seq<u32>,
    alpha_modes: Seq<u32>,
    size: Extent,
) -> SurfaceConfig {
    SurfaceConfig {
        format: chosen_format(formats),
        width: size.width,
        height: size.height,
        present_mode: present_modes[0],
        alpha_mode: alpha_modes[0],
    }
}

/// The single-channel texture allocation that holds the image.
#[derive(PartialEq, Eq, Structural, Clone, Copy, Debug)]
pub struct TextureDesc {
    /// Pixel size: exactly the image's width × height.
    pub size: Extent,
    /// One 8-bit channel per pixel.
    pub single_channel_8bit: bool,
    /// Bindable from a shader stage.
    pub usage_binding: bool,
    /// A valid target of a queue upload.
    pub usage_copy_dst: bool,
}

/// One queue upload of the normalized image into the texture.
pub struct TextureUpload {
    /// Row-major payload, one byte per pixel.
    pub bytes: Vec<u8>,
    /// Offset into the payload.
    pub offset: u64,
    /// Row stride in bytes: the image width, since one byte per pixel.
    pub bytes_per_row: u32,
    pub rows_per_image: u32,
    /// The texture region written: the whole texture.
    pub extent: Extent,
}

/// Sampler settings: exact pixel inspection, so nearest-neighbor
/// filtering and clamp-to-edge addressing.
#[derive(PartialEq, Eq, Structural, Clone, Copy, Debug)]
pub struct SamplerDesc {
    pub filter_nearest: bool,
    pub clamp_to_edge: bool,
}

/// The bind group layout: texture and sampler slots for the fragment
/// stage.
#[derive(PartialEq, Eq, Structural, Clone, Copy, Debug)]
pub struct BindGroupLayoutDesc {
    pub texture_binding: u32,
    pub sampler_binding: u32,
    pub fragment_visible: bool,
}

/// The bind group: the texture view and sampler exposed to the fragment
/// stage under the layout's slots.
#[derive(PartialEq, Eq, Structural, Clone, Copy, Debug)]
pub struct BindGroupDesc {
    pub layout: BindGroupLayoutDesc,
    pub sampler: SamplerDesc,
}

/// The fixed full-screen-quad pipeline: it renders into the surface's
/// format through the bind group's layout.
#[derive(PartialEq, Eq, Structural, Clone, Copy, Debug)]
pub struct PipelineDesc {
    pub layout: BindGroupLayoutDesc,
    pub target_format: SurfaceFormat,
}

/// A color with 8-bit channels.
#[derive(PartialEq, Eq, Structural, Clone, Copy, Debug)]
pub struct Color {
    pub r: u8,
    pub g: u8,
    pub b: u8,
    pub a: u8,
}

/// The fixed background the render pass clears to.
pub open spec fn background_color() -> Color {
    Color { r: 255, g: 0, b: 0, a: 255 }
}

/// One step of the per-frame draw protocol.
#[derive(PartialEq, Eq, Structural, Clone, Copy, Debug)]
pub enum RenderStep {
    /// Open the render pass, clearing the color attachment.
    BeginPass(Color),
    SetPipeline,
    SetBindGroup,
    /// Issue the fixed draw call: `vertices` vertices, `instances`
    /// instances, the full-screen quad.
    Draw { vertices: u32, instances: u32 },
    /// Close the render pass, releasing its resources.
    EndPass,
    /// Submit the recorded commands to the queue.
    Submit,
    /// Present the acquired frame.
    Present,
}

/// Frame-acquisition failures, as the viewer distinguishes them.
#[derive(PartialEq, Eq, Structural, Clone, Copy, Debug)]
pub enum SurfaceErrorKind {
    Timeout,
    Outdated,
    Lost,
    OutOfMemory,
    Other,
}

/// Whether a failed acquisition is transient: a lost or outdated surface
/// is cured by reconfiguring and retrying on the next redraw; everything
/// else is fatal.
pub open spec fn recoverable_spec(e: SurfaceErrorKind) -> bool {
    e == SurfaceErrorKind::Lost || e == SurfaceErrorKind::Outdated
}

/// Classify a frame-acquisition failure as transient or fatal.
pub fn surface_error_recoverable(e: SurfaceErrorKind) -> (r: bool)
    ensures
        r == recoverable_spec(e),
{
    match e {
        SurfaceErrorKind::Lost => true,
        SurfaceErrorKind::Outdated => true,
        _ => false,
    }
}

/// The per-frame command sequence: clear to the background, bind the
/// quad pipeline and the image, draw the two triangles, close the pass,
/// then submit and present.
pub open spec fn draw_plan_spec() -> Seq<RenderStep> {
    seq![
        RenderStep::BeginPass(background_color()),
        RenderStep::SetPipeline,
        RenderStep::SetBindGroup,
        RenderStep::Draw { vertices: 6, instances: 1 },
        RenderStep::EndPass,
        RenderStep::Submit,
        RenderStep::Present,
    ]
}

/// Law of the draw protocol: the render pass is closed before the
/// commands are submitted, and the frame is presented only after the
/// submission — the command-recording discipline the driver requires.
pub proof fn lemma_draw_plan_ordering()
    ensures
        forall|i: int, j: int|
            0 <= i < draw_plan_spec().len() && 0 <= j < draw_plan_spec().len()
                && draw_plan_spec()[i] is EndPass && draw_plan_spec()[j] is Submit ==> i < j,
        forall|i: int, j: int|
            0 <= i < draw_plan_spec().len() && 0 <= j < draw_plan_spec().len()
                && draw_plan_spec()[i] is Submit && draw_plan_spec()[j] is Present ==> i < j,
{
}

/// The GPU context's verified state: the surface configuration, the
/// stored window size, and the render resources built once from the
/// normalized image and never replaced.
pub struct Ctx {
    pub config: SurfaceConfig,
    pub size: Extent,
    pub texture: TextureDesc,
    pub upload: TextureUpload,
    pub bind_group: BindGroupDesc,
    pub pipeline: PipelineDesc,
}

impl Ctx {
    /// Internal consistency: the upload covers the texture exactly, one
    /// byte per pixel with row stride equal to the width; the sampler
    /// does no filtering; the pipeline renders into the surface's format
    /// through the bind group's layout; the configuration tracks the
    /// stored size.
    pub open spec fn wf(&self) -> bool {
        &&& self.upload.bytes@.len() == (self.texture.size.width as nat) * (
        self.texture.size.height as nat)
        &&& self.upload.offset == 0
        &&& self.upload.bytes_per_row == self.texture.size.width
        &&& self.upload.rows_per_image == self.texture.size.height
        &&& self.upload.extent == self.texture.size
        &&& self.texture.single_channel_8bit
        &&& self.texture.usage_binding
        &&& self.texture.usage_copy_dst
        &&& self.bind_group.sampler.filter_nearest
        &&& self.bind_group.sampler.clamp_to_edge
        &&& self.pipeline.layout == self.bind_group.layout
        &&& self.pipeline.target_format == self.config.format
        &&& self.config.width == self.size.width
        &&& self.config.height == self.size.height
    }

    /// Allocate the model of the single-channel texture sized exactly
    /// width × height, bindable and uploadable.
    pub fn create_png_u16_texture(width: u32, height: u32) -> (r: TextureDesc)
        ensures
            r == (TextureDesc {
                size: Extent { width, height },
                single_channel_8bit: true,
                usage_binding: true,
                usage_copy_dst: true,
            }),
    {
        TextureDesc {
            size: Extent { width, height },
            single_channel_8bit: true,
            usage_binding: true,
            usage_copy_dst: true,
        }
    }

    /// The upload of the normalized bytes into the whole texture:
    /// row-major, offset 0, row stride of one byte per pixel.
    pub fn upload_png_u16_data_to_texture(
        texture: &TextureDesc,
        buffer: &[u8],
        width: u32,
        height: u32,
    ) -> (r: TextureUpload)
        requires
            texture.size == (Extent { width, height }),
            buffer@.len() == (width as nat) * (height as nat),
        ensures
            r.bytes@ == buffer@,
            r.offset == 0,
            r.bytes_per_row == width,
            r.rows_per_image == height,
            r.extent == texture.size,
    {
        TextureUpload {
            bytes: vstd::slice::slice_to_vec(buffer),
            offset: 0,
            bytes_per_row: width,
            rows_per_image: height,
            extent: Extent { width, height },
        }
    }

    /// The bind group and its layout: texture at slot 0 and a
    /// nearest-neighbor clamp-to-edge sampler at slot 1, both visible to
    /// the fragment stage.
    pub fn create_png_bind_group(texture: &TextureDesc) -> (r: (BindGroupLayoutDesc, BindGroupDesc))
        requires
            texture.usage_binding,
        ensures
            r.0 == (BindGroupLayoutDesc {
                texture_binding: 0,
                sampler_binding: 1,
                fragment_visible: true,
            }),
            r.1 == (BindGroupDesc {
                layout: r.0,
                sampler: SamplerDesc { filter_nearest: true, clamp_to_edge: true },
            }),
    {
        let layout = BindGroupLayoutDesc {
            texture_binding: 0,
            sampler_binding: 1,
            fragment_visible: true,
        };
        let group = BindGroupDesc {
            layout,
            sampler: SamplerDesc { filter_nearest: true, clamp_to_edge: true },
        };
        (layout, group)
    }

    /// The fixed full-screen-quad pipeline, compiled against the bind
    /// group's layout and rendering into the given surface format.
    pub fn create_png_render_pipeline(
        layout: BindGroupLayoutDesc,
        format: SurfaceFormat,
    ) -> (r: PipelineDesc)
        ensures
            r == (PipelineDesc { layout, target_format: format }),
    {
        PipelineDesc { layout, target_format: format }
    }

    /// Build a context from the adapter's capabilities, the window's
    /// physical size, and the decoded 16-bit samples: choose the surface
    /// configuration and build the render resources once, with the
    /// normalized image as the texture's payload.
    pub fn new(
        caps: &SurfaceCaps,
        size: Extent,
        png_decoded_u16: &[u16],
        png_width: u32,
        png_height: u32,
    ) -> (r: Ctx)
        requires
            caps.wf(),
            png_decoded_u16@.len() > 0,
            png_decoded_u16@.len() == (png_width as nat) * (png_height as nat),
        ensures
            r.wf(),
            r.config == initial_config_spec(
                caps.formats@,
                caps.present_modes@,
                caps.alpha_modes@,
                size,
            ),
            r.size == size,
            r.texture.size == (Extent { width: png_width, height: png_height }),
            r.upload.bytes@ == normalize_spec(png_decoded_u16@),
            r.bind_group.layout == (BindGroupLayoutDesc {
                texture_binding: 0,
                sampler_binding: 1,
                fragment_visible: true,
            }),
    {
        let format = choose_surface_format(&caps.formats);
        let config = SurfaceConfig {
            format,
            width: size.width,
            height: size.height,
            present_mode: caps.present_modes[0],
            alpha_mode: caps.alpha_modes[0],
        };
        let texture = Ctx::create_png_u16_texture(png_width, png_height);
        let normalized = decoded_png_u16_to_grayscale_u8(png_decoded_u16);
        let upload = Ctx::upload_png_u16_data_to_texture(
            &texture,
            normalized.as_slice(),
            png_width,
            png_height,
        );
        let (layout, bind_group) = Ctx::create_png_bind_group(&texture);
        let pipeline = Ctx::create_png_render_pipeline(layout, config.format);
        Ctx { config, size, texture, upload, bind_group, pipeline }
    }
}

/// The state a resize leaves behind: a degenerate size (either dimension
/// zero, a minimized or hidden window) changes nothing; otherwise the
/// stored size and the configuration's width and height follow the new
/// size, and nothing else moves.
pub open spec fn resize_spec(c: Ctx, size: Extent) -> Ctx {
    if size.width == 0 || size.height == 0 {
        c
    } else {
        Ctx {
            size,
            config: SurfaceConfig { width: size.width, height: size.height, ..c.config },
            ..c
        }
    }
}

impl Ctx {
    /// Apply a window resize: update the stored size and the surface
    /// configuration, or ignore a degenerate size. Returns whether the
    /// embedder must reconfigure the presentation surface.
    pub fn resize(&mut self, size: Extent) -> (reconfigure: bool)
        ensures
            *final(self) == resize_spec(*old(self), size),
            reconfigure == (size.width > 0 && size.height > 0),
            old(self).wf() ==> final(self).wf(),
    {
        if size.width == 0 || size.height == 0 {
            return false;
        }
        self.size = size;
        self.config.width = size.width;
        self.config.height = size.height;
        true
    }

    /// The per-frame draw protocol, fed with the outcome of acquiring
    /// the next presentable frame: a failed acquisition is handed back
    /// to the caller untouched; a successful one yields the fixed
    /// command sequence of the full-screen quad.
    pub fn draw(&self, acquisition: Result<(), SurfaceErrorKind>) -> (r: Result<
        Vec<RenderStep>,
        SurfaceErrorKind,
    >)
        ensures
            acquisition matches Err(e) ==> r == Err::<Vec<RenderStep>, SurfaceErrorKind>(e),
            acquisition is Ok ==> (r matches Ok(p) && p@ == draw_plan_spec()),
    {
        match acquisition {
            Result::Err(e) => Result::Err(e),
            Result::Ok(()) => {
                let mut plan: Vec<RenderStep> = Vec::new();
                plan.push(RenderStep::BeginPass(Color { r: 255, g: 0, b: 0, a: 255 }));
                plan.push(RenderStep::SetPipeline);
                plan.push(RenderStep::SetBindGroup);
                plan.push(RenderStep::Draw { vertices: 6, instances: 1 });
                plan.push(RenderStep::EndPass);
                plan.push(RenderStep::Submit);
                plan.push(RenderStep::Present);
                proof {
                    assert(plan@ =~= draw_plan_spec());
                }
                Result::Ok(plan)
            },
        }
    }
}

/// Law of degenerate resizes: a resize with either dimension zero leaves
/// the stored state exactly as it was.
pub proof fn lemma_resize_degenerate(c: Ctx, size: Extent)
    requires
        size.width == 0 || size.height == 0,
    ensures
        resize_spec(c, size) == c,
{
}

/// Law of repeated resizes: resizing twice to the same nonzero size
/// configures the surface exactly as resizing once — the second resize
/// changes nothing.
pub proof fn lemma_resize_idempotent(c: Ctx, size: Extent)
    requires
        size.width > 0,
        size.height > 0,
    ensures
        resize_spec(resize_spec(c, size), size) == resize_spec(c, size),
{
}

} // verus!

