//! The configuration of the one render pipeline.
//!
//! A configuration is put together once, from the programs of the vertex and
//! fragment stages, the vertex layout, the rasterization rule and the format of
//! the color target, and is read by every frame afterwards. Everything else is
//! fixed: triangles are drawn from a triangle list and filled solid, into a
//! single color target that is written in full and replaced rather than
//! blended, without depth or stencil test, with one sample per pixel and no
//! resource bound.

use vstd::prelude::*;
use crate::error::PipelineConfigError;
use crate::layout::{LayoutView, VertexLayout};
use crate::mesh::{DrawMode, IndexFormat};
use crate::shader::{
    lemma_module_words, module_words, CompiledShader, ShaderStage, ShaderView, MODULE_MAGIC,
};

verus! {

/// All four channels of a color target.
pub const WRITE_ALL: u32 = 15;

/// Which order of a triangle's corners on screen makes it front-facing.
#[derive(Clone, Copy, Debug, PartialEq, Eq, Structural)]
pub enum Winding {
    Cw,
    Ccw,
}

/// Which faces are dropped before they are filled.
#[derive(Clone, Copy, Debug, PartialEq, Eq, Structural)]
pub enum CullMode {
    /// No face is dropped.
    Off,
    Front,
    Back,
}

/// The rasterization rule: winding and culling are chosen together.
#[derive(Clone, Copy, Debug, PartialEq, Eq, Structural)]
pub struct Rasterization {
    pub winding: Winding,
    pub cull: CullMode,
}

impl Rasterization {
    /// The rule that goes with each way of drawing: a mesh without indices
    /// has clockwise front faces and its back faces culled, a mesh with
    /// indices has counter-clockwise front faces and its front faces culled.
    pub open spec fn of_mode(mode: DrawMode) -> Rasterization {
        match mode {
            DrawMode::NonIndexed => Rasterization { winding: Winding::Cw, cull: CullMode::Back },
            DrawMode::Indexed => Rasterization { winding: Winding::Ccw, cull: CullMode::Front },
        }
    }

    pub fn for_mode(mode: DrawMode) -> (r: Rasterization)
        ensures
            r == Self::of_mode(mode),
    {
        match mode {
            DrawMode::NonIndexed => Rasterization { winding: Winding::Cw, cull: CullMode::Back },
            DrawMode::Indexed => Rasterization { winding: Winding::Ccw, cull: CullMode::Front },
        }
    }
}

/// How the vertices of a draw are put together into primitives.
#[derive(Clone, Copy, Debug, PartialEq, Eq, Structural)]
pub enum Topology {
    PointList,
    LineList,
    LineStrip,
    TriangleList,
    TriangleStrip,
}

/// How the inside of a triangle is rasterized.
#[derive(Clone, Copy, Debug, PartialEq, Eq, Structural)]
pub enum Fill {
    /// Every covered pixel is shaded.
    Solid,
}

/// How the fragment output is combined with what the target holds.
#[derive(Clone, Copy, Debug, PartialEq, Eq, Structural)]
pub enum Blend {
    /// The output takes the place of the old value.
    Replace,
}

/// Formats of the images a pipeline can be asked to render into.
#[derive(Clone, Copy, Debug, PartialEq, Eq, Structural)]
pub enum TextureFormat {
    Rgba8Unorm,
    Rgba8UnormSrgb,
    Bgra8Unorm,
    Bgra8UnormSrgb,
    Depth32Float,
    Depth24Plus,
    Depth24PlusStencil8,
}

impl TextureFormat {
    /// The format holds color, not depth or stencil.
    pub open spec fn is_color(self) -> bool {
        match self {
            TextureFormat::Rgba8Unorm => true,
            TextureFormat::Rgba8UnormSrgb => true,
            TextureFormat::Bgra8Unorm => true,
            TextureFormat::Bgra8UnormSrgb => true,
            TextureFormat::Depth32Float => false,
            TextureFormat::Depth24Plus => false,
            TextureFormat::Depth24PlusStencil8 => false,
        }
    }

    pub fn color(self) -> (b: bool)
        ensures
            b == self.is_color(),
    {
        match self {
            TextureFormat::Rgba8Unorm => true,
            TextureFormat::Rgba8UnormSrgb => true,
            TextureFormat::Bgra8Unorm => true,
            TextureFormat::Bgra8UnormSrgb => true,
            TextureFormat::Depth32Float => false,
            TextureFormat::Depth24Plus => false,
            TextureFormat::Depth24PlusStencil8 => false,
        }
    }
}

/// Mathematical content of a [`PipelineConfig`].
pub struct PipelineView {
    /// Words of the vertex program.
    pub vertex_stage: Seq<u32>,
    /// Words of the fragment program.
    pub fragment_stage: Seq<u32>,
    pub layout: LayoutView,
    pub index_format: IndexFormat,
    pub topology: Topology,
    pub fill: Fill,
    pub rasterization: Rasterization,
    /// Number of color targets.
    pub color_targets: nat,
    /// Format of the color target.
    pub color_format: TextureFormat,
    pub blend: Blend,
    pub write_mask: u32,
    pub depth_stencil: bool,
    pub sample_count: u32,
    pub resource_bindings: nat,
}

/// The configuration with the given parts and the fixed rest.
pub open spec fn configured(
    vertex: Seq<u32>,
    fragment: Seq<u32>,
    layout: LayoutView,
    index_format: IndexFormat,
    rasterization: Rasterization,
    color_format: TextureFormat,
) -> PipelineView {
    PipelineView {
        vertex_stage: vertex,
        fragment_stage: fragment,
        layout,
        index_format,
        topology: Topology::TriangleList,
        fill: Fill::Solid,
        rasterization,
        color_targets: 1,
        color_format,
        blend: Blend::Replace,
        write_mask: WRITE_ALL,
        depth_stencil: false,
        sample_count: 1,
        resource_bindings: 0,
    }
}

/// What the builder makes of its inputs: the stage programs are looked at
/// first, the vertex one before the fragment one, then the target format.
pub open spec fn build_outcome(
    vertex: ShaderView,
    fragment: ShaderView,
    layout: LayoutView,
    index_format: IndexFormat,
    rasterization: Rasterization,
    color_format: TextureFormat,
) -> Result<PipelineView, PipelineConfigError> {
    if !vertex.fills(ShaderStage::Vertex) || !fragment.fills(ShaderStage::Fragment) {
        Err(PipelineConfigError::InvalidShaderBytecode)
    } else if !color_format.is_color() {
        Err(PipelineConfigError::UnsupportedFormat)
    } else {
        Ok(
            configured(
                module_words(vertex.code).unwrap(),
                module_words(fragment.code).unwrap(),
                layout,
                index_format,
                rasterization,
                color_format,
            ),
        )
    }
}

/// The words begin with the magic number of a module.
pub open spec fn starts_module(words: Seq<u32>) -> bool {
    words.len() >= 1 && words[0] == MODULE_MAGIC
}

/// The configuration of the render pipeline.
#[derive(Debug)]
pub struct PipelineConfig {
    vertex_stage: Vec<u32>,
    fragment_stage: Vec<u32>,
    layout: VertexLayout,
    index_format: IndexFormat,
    rasterization: Rasterization,
    color_format: TextureFormat,
}

impl View for PipelineConfig {
    type V = PipelineView;

    closed spec fn view(&self) -> PipelineView {
        configured(
            self.vertex_stage@,
            self.fragment_stage@,
            self.layout@,
            self.index_format,
            self.rasterization,
            self.color_format,
        )
    }
}

impl PipelineConfig {
    #[verifier::type_invariant]
    closed spec fn well_formed(&self) -> bool {
        &&& starts_module(self.vertex_stage@)
        &&& starts_module(self.fragment_stage@)
        &&& self.color_format.is_color()
    }

    /// Builds the configuration.
    ///
    /// Fails with `InvalidShaderBytecode` when the vertex or the fragment
    /// program is not a bytecode module for its stage, and else with
    /// `UnsupportedFormat` when the target format holds no color.
    pub fn build(
        vertex: CompiledShader,
        fragment: CompiledShader,
        layout: VertexLayout,
        index_format: IndexFormat,
        rasterization: Rasterization,
        color_format: TextureFormat,
    ) -> (r: Result<PipelineConfig, PipelineConfigError>)
        ensures
            match r {
                Ok(config) => build_outcome(
                    vertex@,
                    fragment@,
                    layout@,
                    index_format,
                    rasterization,
                    color_format,
                ) == Ok::<PipelineView, PipelineConfigError>(config@),
                Err(e) => build_outcome(
                    vertex@,
                    fragment@,
                    layout@,
                    index_format,
                    rasterization,
                    color_format,
                ) == Err::<PipelineView, PipelineConfigError>(e),
            },
    {
        if vertex.stage != ShaderStage::Vertex || fragment.stage != ShaderStage::Fragment {
            return Err(PipelineConfigError::InvalidShaderBytecode);
        }
        let vertex_words = match vertex.words() {
            Some(words) => words,
            None => {
                return Err(PipelineConfigError::InvalidShaderBytecode);
            },
        };
        let fragment_words = match fragment.words() {
            Some(words) => words,
            None => {
                return Err(PipelineConfigError::InvalidShaderBytecode);
            },
        };
        if !color_format.color() {
            return Err(PipelineConfigError::UnsupportedFormat);
        }
        proof {
            lemma_module_words(vertex@.code);
            lemma_module_words(fragment@.code);
        }
        Ok(
            PipelineConfig {
                vertex_stage: vertex_words,
                fragment_stage: fragment_words,
                layout,
                index_format,
                rasterization,
                color_format,
            },
        )
    }

    /// Words of the vertex program, as the device takes them.
    pub fn vertex_words(&self) -> (words: &[u32])
        ensures
            words@ == self@.vertex_stage,
            starts_module(words@),
    {
        proof {
            use_type_invariant(self);
        }
        self.vertex_stage.as_slice()
    }

    /// Words of the fragment program, as the device takes them.
    pub fn fragment_words(&self) -> (words: &[u32])
        ensures
            words@ == self@.fragment_stage,
            starts_module(words@),
    {
        proof {
            use_type_invariant(self);
        }
        self.fragment_stage.as_slice()
    }

    pub fn layout(&self) -> (l: &VertexLayout)
        ensures
            l@ == self@.layout,
    {
        &self.layout
    }

    pub fn index_format(&self) -> (f: IndexFormat)
        ensures
            f == self@.index_format,
    {
        self.index_format
    }

    /// Always a triangle list.
    pub fn topology(&self) -> (t: Topology)
        ensures
            t == self@.topology,
            t == Topology::TriangleList,
    {
        Topology::TriangleList
    }

    /// Always solid.
    pub fn fill(&self) -> (f: Fill)
        ensures
            f == self@.fill,
            f == Fill::Solid,
    {
        Fill::Solid
    }

    /// Always one color target.
    pub fn color_targets(&self) -> (n: usize)
        ensures
            n == self@.color_targets,
            n == 1,
    {
        1
    }

    /// Name of the entry point of both stage programs: always `main`.
    pub fn entry_point(&self) -> (name: &'static str)
        ensures
            name@ == "main"@,
    {
        "main"
    }

    pub fn rasterization(&self) -> (r: Rasterization)
        ensures
            r == self@.rasterization,
    {
        self.rasterization
    }

    /// Format of the single color target; never a depth or stencil format.
    pub fn color_format(&self) -> (f: TextureFormat)
        ensures
            f == self@.color_format,
            f.is_color(),
    {
        proof {
            use_type_invariant(self);
        }
        self.color_format
    }

    /// Always replacement.
    pub fn blend(&self) -> (b: Blend)
        ensures
            b == self@.blend,
            b == Blend::Replace,
    {
        Blend::Replace
    }

    /// Always all four channels.
    pub fn write_mask(&self) -> (m: u32)
        ensures
            m == self@.write_mask,
            m == WRITE_ALL,
    {
        WRITE_ALL
    }

    /// Always without depth and stencil test.
    pub fn depth_stencil(&self) -> (b: bool)
        ensures
            b == self@.depth_stencil,
            !b,
    {
        false
    }

    /// Always one sample per pixel.
    pub fn sample_count(&self) -> (n: u32)
        ensures
            n == self@.sample_count,
            n == 1,
    {
        1
    }

    /// Always none: the pipeline binds no texture and no uniform buffer.
    pub fn resource_bindings(&self) -> (n: usize)
        ensures
            n == self@.resource_bindings,
            n == 0,
    {
        0
    }
}

/// Building twice from the same inputs gives the same configuration, or the
/// same refusal.
pub proof fn lemma_build_deterministic(
    vertex_a: ShaderView,
    fragment_a: ShaderView,
    layout_a: LayoutView,
    index_format_a: IndexFormat,
    rasterization_a: Rasterization,
    color_format_a: TextureFormat,
    vertex_b: ShaderView,
    fragment_b: ShaderView,
    layout_b: LayoutView,
    index_format_b: IndexFormat,
    rasterization_b: Rasterization,
    color_format_b: TextureFormat,
)
    requires
        vertex_a.stage == vertex_b.stage,
        vertex_a.code =~= vertex_b.code,
        fragment_a.stage == fragment_b.stage,
        fragment_a.code =~= fragment_b.code,
        layout_a.stride == layout_b.stride,
        layout_a.attributes =~= layout_b.attributes,
        index_format_a == index_format_b,
        rasterization_a == rasterization_b,
        color_format_a == color_format_b,
    ensures
        build_outcome(
            vertex_a,
            fragment_a,
            layout_a,
            index_format_a,
            rasterization_a,
            color_format_a,
        ) == build_outcome(
            vertex_b,
            fragment_b,
            layout_b,
            index_format_b,
            rasterization_b,
            color_format_b,
        ),
{
}

/// A configuration that was built keeps its inputs and has the fixed rest:
/// triangle list, solid fill, one color target, replacement, full write mask,
/// no depth or stencil test, one sample, no resource bound.
pub proof fn lemma_built_is_fixed(
    vertex: ShaderView,
    fragment: ShaderView,
    layout: LayoutView,
    index_format: IndexFormat,
    rasterization: Rasterization,
    color_format: TextureFormat,
)
    requires
        build_outcome(vertex, fragment, layout, index_format, rasterization, color_format) is Ok,
    ensures
        ({
            let p = build_outcome(
                vertex,
                fragment,
                layout,
                index_format,
                rasterization,
                color_format,
            )->Ok_0;
            &&& Some(p.vertex_stage) == module_words(vertex.code)
            &&& Some(p.fragment_stage) == module_words(fragment.code)
            &&& p.layout == layout
            &&& p.index_format == index_format
            &&& p.rasterization == rasterization
            &&& p.color_format == color_format
            &&& p.topology == Topology::TriangleList
            &&& p.fill == Fill::Solid
            &&& p.color_targets == 1
            &&& p.blend == Blend::Replace
            &&& p.write_mask == 15
            &&& !p.depth_stencil
            &&& p.sample_count == 1
            &&& p.resource_bindings == 0
        }),
{
}

} // verus!
