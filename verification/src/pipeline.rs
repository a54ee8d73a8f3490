//! The fixed-function graphics pipeline, as the descriptor it is built from.
//!
//! A pipeline wraps one vertex+fragment shader pair with fixed rasterizer,
//! blend and multisample state.  The library builds and owns the full
//! descriptor as plain data, with every choice the renderer makes pinned in
//! the constructor's contract; the surrounding application owns the GPU
//! device, turns the descriptor into the graphics API's own pipeline object,
//! and keeps the handle.  GPU handles the application owns — the bind-group
//! layouts a shader expects — appear here as opaque numeric tags.

use vstd::prelude::*;
use vstd::string::StringExecFns;
use crate::pass::IndexFormat;
use crate::pass::PassCommand;
use crate::pass::RenderPass;
use crate::vertex::VertexData;
use crate::vertex::VertexLayout;

verus! {

/// A pixel format, carried as an opaque numeric tag.  The application maps
/// the tag to and from the graphics API's own format enumeration.
#[derive(Clone, Copy, Debug, PartialEq, Eq, Structural)]
pub struct TextureFormat {
    pub code: u32,
}

/// What the target surface was configured with; the pipeline reads only the
/// pixel format.
#[derive(Clone, Copy, Debug, PartialEq, Eq, Structural)]
pub struct SurfaceConfiguration {
    pub format: TextureFormat,
    pub width: u32,
    pub height: u32,
}

/// A shader module's source: WGSL text holding the `vs_main` and `fs_main`
/// entry points.
#[derive(Debug, PartialEq)]
pub struct ShaderSource {
    pub wgsl: String,
}

/// One bind-group layout the shader expects, as an opaque numeric tag for a
/// handle the application owns.
#[derive(Clone, Copy, Debug, PartialEq, Eq, Structural)]
pub struct BindGroupLayoutId {
    pub handle: u64,
}

/// How a color target mixes a new fragment with the pixel it covers.
#[derive(Clone, Copy, Debug, PartialEq, Eq, Structural)]
pub enum BlendMode {
    /// The fragment replaces the pixel outright.
    Replace,
    /// The fragment is weighted by its alpha.
    AlphaBlending,
    /// As alpha blending, with color already premultiplied.
    PremultipliedAlphaBlending,
}

/// Color channels a target writes: red, green, blue and alpha.
pub const COLOR_WRITES_ALL: u32 = 0xf;

/// One color attachment the pipeline renders into.
#[derive(Clone, Copy, Debug, PartialEq, Eq)]
pub struct ColorTarget {
    pub format: TextureFormat,
    pub blend: Option<BlendMode>,
    pub write_mask: u32,
}

/// How runs of vertices become primitives.
#[derive(Clone, Copy, Debug, PartialEq, Eq, Structural)]
pub enum PrimitiveTopology {
    PointList,
    LineList,
    LineStrip,
    TriangleList,
    TriangleStrip,
}

/// Which winding makes a triangle front-facing.
#[derive(Clone, Copy, Debug, PartialEq, Eq, Structural)]
pub enum FrontFace {
    /// Counter-clockwise triangles face the camera.
    Ccw,
    /// Clockwise triangles face the camera.
    Cw,
}

/// A side of a triangle, for culling.
#[derive(Clone, Copy, Debug, PartialEq, Eq, Structural)]
pub enum Face {
    Front,
    Back,
}

/// How a primitive's interior is rasterized.
#[derive(Clone, Copy, Debug, PartialEq, Eq, Structural)]
pub enum PolygonMode {
    Fill,
    Line,
    Point,
}

/// The rasterizer's primitive state.
#[derive(Clone, Copy, Debug, PartialEq, Eq)]
pub struct PrimitiveState {
    pub topology: PrimitiveTopology,
    pub strip_index_format: Option<IndexFormat>,
    pub front_face: FrontFace,
    pub cull_mode: Option<Face>,
    pub polygon_mode: PolygonMode,
    pub unclipped_depth: bool,
    pub conservative: bool,
}

/// The multisample state.
#[derive(Clone, Copy, Debug, PartialEq, Eq, Structural)]
pub struct MultisampleState {
    pub count: u32,
    pub mask: u64,
    pub alpha_to_coverage_enabled: bool,
}

/// Everything a graphics pipeline is built from, as plain data.
#[derive(Debug, PartialEq)]
pub struct PipelineDescriptor {
    /// Diagnostic name of the pipeline object.
    pub label: String,
    /// Diagnostic name of the pipeline layout.
    pub layout_label: String,
    /// The bind-group layouts the pipeline accepts, in order; it takes no
    /// push constants.
    pub bind_group_layouts: Vec<BindGroupLayoutId>,
    /// The WGSL source the shader module is compiled from.
    pub shader_wgsl: String,
    /// The vertex stage's entry point in the shader module.
    pub vertex_entry_point: String,
    /// The vertex buffer layouts the vertex stage reads.
    pub vertex_buffers: Vec<VertexLayout>,
    /// The fragment stage's entry point in the shader module.
    pub fragment_entry_point: String,
    /// The color attachments the fragment stage writes.
    pub color_targets: Vec<ColorTarget>,
    /// The rasterizer's primitive state.
    pub primitive: PrimitiveState,
    /// Whether a depth/stencil attachment is used.
    pub has_depth_stencil: bool,
    /// The multisample state.
    pub multisample: MultisampleState,
    /// Layer count for multiview rendering, if used.
    pub multiview: Option<u32>,
}

/// A compiled graphics pipeline: the descriptor it was built from, ready for
/// the application to realize on its device and bind on a pass.
pub struct ShaderPipeline {
    descriptor: PipelineDescriptor,
}

impl ShaderPipeline {
    /// The descriptor this pipeline was built from.
    pub closed spec fn spec_descriptor(self) -> PipelineDescriptor {
        self.descriptor
    }

    /// The descriptor this pipeline was built from.
    pub fn descriptor(&self) -> (descriptor: &PipelineDescriptor)
        ensures
            *descriptor == self.spec_descriptor(),
    {
        &self.descriptor
    }

    /// Builds the pipeline descriptor for vertex records of type `V`:
    /// `vs_main` and `fs_main` from the given shader source, the record
    /// type's packed buffer layout as the only vertex input, one color
    /// target in the surface's format with replace blending writing all
    /// channels, a triangle list rasterized counter-clockwise-front with
    /// back faces culled and filled polygons, no depth/stencil attachment,
    /// no multisampling and no multiview.  The label names the pipeline and
    /// its layout, for diagnostics only.
    pub fn new<V: VertexData>(
        config: &SurfaceConfiguration,
        label: &str,
        wgsl_data: ShaderSource,
        bind_group_layouts: Vec<BindGroupLayoutId>,
    ) -> (pipeline: ShaderPipeline)
        ensures
            pipeline.spec_descriptor().label@ == label@ + " Pipeline"@,
            pipeline.spec_descriptor().layout_label@ == label@ + " Pipeline Layout"@,
            pipeline.spec_descriptor().bind_group_layouts@ == bind_group_layouts@,
            pipeline.spec_descriptor().shader_wgsl == wgsl_data.wgsl,
            pipeline.spec_descriptor().vertex_entry_point@ == "vs_main"@,
            pipeline.spec_descriptor().vertex_buffers@.len() == 1,
            pipeline.spec_descriptor().vertex_buffers@[0].attributes@ == V::spec_attributes(),
            pipeline.spec_descriptor().vertex_buffers@[0].packed(),
            pipeline.spec_descriptor().fragment_entry_point@ == "fs_main"@,
            pipeline.spec_descriptor().color_targets@ == seq![
                (ColorTarget {
                    format: config.format,
                    blend: Some(BlendMode::Replace),
                    write_mask: COLOR_WRITES_ALL,
                }),
            ],
            pipeline.spec_descriptor().primitive == (PrimitiveState {
                topology: PrimitiveTopology::TriangleList,
                strip_index_format: None,
                front_face: FrontFace::Ccw,
                cull_mode: Some(Face::Back),
                polygon_mode: PolygonMode::Fill,
                unclipped_depth: false,
                conservative: false,
            }),
            !pipeline.spec_descriptor().has_depth_stencil,
            pipeline.spec_descriptor().multisample == (MultisampleState {
                count: 1,
                mask: 0xffff_ffff_ffff_ffff,
                alpha_to_coverage_enabled: false,
            }),
            pipeline.spec_descriptor().multiview is None,
    {
        let layout_label = String::from_str(label).concat(" Pipeline Layout");
        let pipeline_label = String::from_str(label).concat(" Pipeline");
        let mut vertex_buffers: Vec<VertexLayout> = Vec::new();
        vertex_buffers.push(V::desc());
        let mut color_targets: Vec<ColorTarget> = Vec::new();
        color_targets.push(ColorTarget {
            format: config.format,
            blend: Some(BlendMode::Replace),
            write_mask: COLOR_WRITES_ALL,
        });
        let descriptor = PipelineDescriptor {
            label: pipeline_label,
            layout_label,
            bind_group_layouts,
            shader_wgsl: wgsl_data.wgsl,
            vertex_entry_point: String::from_str("vs_main"),
            vertex_buffers,
            fragment_entry_point: String::from_str("fs_main"),
            color_targets,
            primitive: PrimitiveState {
                topology: PrimitiveTopology::TriangleList,
                strip_index_format: None,
                front_face: FrontFace::Ccw,
                cull_mode: Some(Face::Back),
                polygon_mode: PolygonMode::Fill,
                unclipped_depth: false,
                conservative: false,
            },
            has_depth_stencil: false,
            multisample: MultisampleState {
                count: 1,
                mask: 0xffff_ffff_ffff_ffff,
                alpha_to_coverage_enabled: false,
            },
            multiview: None,
        };
        proof {
            assert(descriptor.color_targets@ =~= seq![
                (ColorTarget {
                    format: config.format,
                    blend: Some(BlendMode::Replace),
                    write_mask: COLOR_WRITES_ALL,
                }),
            ]);
        }
        ShaderPipeline { descriptor }
    }

    /// Records making this pipeline the active one on an open render pass.
    /// Every draw that follows on the pass runs through it.
    pub fn start(&self, render_pass: &mut RenderPass)
        ensures
            final(render_pass)@ == old(render_pass)@.push(PassCommand::SetPipeline),
    {
        render_pass.set_pipeline();
    }
}

} // verus!
