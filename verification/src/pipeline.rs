use vstd::prelude::*;

verus! {

/// How consecutive vertices are assembled into primitives.
#[derive(Debug, Clone, Copy, PartialEq, Eq, Structural)]
pub enum PrimitiveTopology {
    PointList,
    LineList,
    LineStrip,
    TriangleList,
    TriangleStrip,
}

/// The winding order that marks the front of a triangle.
#[derive(Debug, Clone, Copy, PartialEq, Eq, Structural)]
pub enum FrontFace {
    CounterClockwise,
    Clockwise,
}

/// Which side of a triangle is thrown away before it is rasterized.
#[derive(Debug, Clone, Copy, PartialEq, Eq, Structural)]
pub enum CullMode {
    Nothing,
    Front,
    Back,
}

/// How the inside of a polygon is filled.
#[derive(Debug, Clone, Copy, PartialEq, Eq, Structural)]
pub enum PolygonMode {
    Fill,
    Line,
    Point,
}

/// How a fragment's colour is combined with the colour already in the target.
#[derive(Debug, Clone, Copy, PartialEq, Eq, Structural)]
pub enum BlendMode {
    /// The fragment replaces what is in the target.
    Replace,
    /// The fragment is laid over the target, weighted by its alpha.
    AlphaBlending,
    /// As `AlphaBlending`, for colours that are already multiplied by alpha.
    PremultipliedAlphaBlending,
}

/// The description of a graphics pipeline: which shader module it runs, which
/// pixel format it renders to, and the fixed-function state between the two.
/// A description is never changed after it has been built; a different
/// pipeline is a different description.
#[derive(Debug, PartialEq, Eq)]
pub struct PipelineDescriptor {
    format: wgpu::TextureFormat,
    shader_source: String,
    bind_group_count: u32,
    topology: PrimitiveTopology,
    front_face: FrontFace,
    cull_mode: CullMode,
    polygon_mode: PolygonMode,
    sample_count: u32,
    depth_stencil: bool,
    blend: BlendMode,
}

/// What a [`PipelineDescriptor`] holds, with the shader source as a sequence
/// of characters.
pub struct PipelineDescriptorView {
    /// Pixel format of the single colour target.
    pub format: wgpu::TextureFormat,
    /// Text of the shader module, which holds the vertex and the fragment
    /// entry point.
    pub shader_source: Seq<char>,
    /// Number of resource binding groups in the pipeline layout.
    pub bind_group_count: u32,
    pub topology: PrimitiveTopology,
    pub front_face: FrontFace,
    pub cull_mode: CullMode,
    pub polygon_mode: PolygonMode,
    /// Samples per pixel; 1 means no multisampling.
    pub sample_count: u32,
    /// Whether fragments are tested against a depth/stencil attachment.
    pub depth_stencil: bool,
    pub blend: BlendMode,
}

/// The pipeline that draws the quad to a target of the given format: no
/// resource bindings, a triangle list with counter-clockwise fronts and
/// culled backs, filled, one sample per pixel, no depth or stencil test, and
/// fragments that replace what the target holds.
pub open spec fn quad_pipeline(
    format: wgpu::TextureFormat,
    shader_source: Seq<char>,
) -> PipelineDescriptorView {
    PipelineDescriptorView {
        format,
        shader_source,
        bind_group_count: 0,
        topology: PrimitiveTopology::TriangleList,
        front_face: FrontFace::CounterClockwise,
        cull_mode: CullMode::Back,
        polygon_mode: PolygonMode::Fill,
        sample_count: 1,
        depth_stencil: false,
        blend: BlendMode::Replace,
    }
}

impl View for PipelineDescriptor {
    type V = PipelineDescriptorView;

    closed spec fn view(&self) -> PipelineDescriptorView {
        PipelineDescriptorView {
            format: self.format,
            shader_source: self.shader_source@,
            bind_group_count: self.bind_group_count,
            topology: self.topology,
            front_face: self.front_face,
            cull_mode: self.cull_mode,
            polygon_mode: self.polygon_mode,
            sample_count: self.sample_count,
            depth_stencil: self.depth_stencil,
            blend: self.blend,
        }
    }
}

impl Clone for PipelineDescriptor {
    /// A copy that holds its own shader source: nothing is shared with `self`.
    fn clone(&self) -> (copy: Self)
        ensures
            copy == *self,
    {
        PipelineDescriptor {
            format: self.format,
            shader_source: self.shader_source.clone(),
            bind_group_count: self.bind_group_count,
            topology: self.topology,
            front_face: self.front_face,
            cull_mode: self.cull_mode,
            polygon_mode: self.polygon_mode,
            sample_count: self.sample_count,
            depth_stencil: self.depth_stencil,
            blend: self.blend,
        }
    }
}

impl PipelineDescriptor {
    /// Describes the pipeline that draws the quad with `shader_source` to a
    /// target of `format`. The description holds a snapshot of the source.
    pub fn build(format: wgpu::TextureFormat, shader_source: &str) -> (pipeline: PipelineDescriptor)
        ensures
            pipeline@ == quad_pipeline(format, shader_source@),
    {
        PipelineDescriptor {
            format,
            shader_source: shader_source.to_owned(),
            bind_group_count: 0,
            topology: PrimitiveTopology::TriangleList,
            front_face: FrontFace::CounterClockwise,
            cull_mode: CullMode::Back,
            polygon_mode: PolygonMode::Fill,
            sample_count: 1,
            depth_stencil: false,
            blend: BlendMode::Replace,
        }
    }

    /// Pixel format of the single colour target.
    pub fn format(&self) -> (format: wgpu::TextureFormat)
        ensures
            format == self@.format,
    {
        self.format
    }

    /// Text of the shader module.
    pub fn shader_source(&self) -> (source: &str)
        ensures
            source@ == self@.shader_source,
    {
        self.shader_source.as_str()
    }

    /// Number of resource binding groups in the pipeline layout.
    pub fn bind_group_count(&self) -> (count: u32)
        ensures
            count == self@.bind_group_count,
    {
        self.bind_group_count
    }

    pub fn topology(&self) -> (topology: PrimitiveTopology)
        ensures
            topology == self@.topology,
    {
        self.topology
    }

    pub fn front_face(&self) -> (front_face: FrontFace)
        ensures
            front_face == self@.front_face,
    {
        self.front_face
    }

    pub fn cull_mode(&self) -> (cull_mode: CullMode)
        ensures
            cull_mode == self@.cull_mode,
    {
        self.cull_mode
    }

    pub fn polygon_mode(&self) -> (polygon_mode: PolygonMode)
        ensures
            polygon_mode == self@.polygon_mode,
    {
        self.polygon_mode
    }

    /// Samples per pixel.
    pub fn sample_count(&self) -> (count: u32)
        ensures
            count == self@.sample_count,
    {
        self.sample_count
    }

    /// Whether the pipeline tests fragments against a depth/stencil attachment.
    pub fn depth_stencil(&self) -> (enabled: bool)
        ensures
            enabled == self@.depth_stencil,
    {
        self.depth_stencil
    }

    pub fn blend(&self) -> (blend: BlendMode)
        ensures
            blend == self@.blend,
    {
        self.blend
    }
}

} // verus!
