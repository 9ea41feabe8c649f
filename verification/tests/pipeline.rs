use meshview::error::{PipelineConfigError, RenderError};
use meshview::draw::Color;
use meshview::frame::SwapChainState;
use meshview::layout::VertexLayout;
use meshview::mesh::{DrawMode, IndexFormat};
use meshview::pipeline::{
    Blend, CullMode, Fill, PipelineConfig, Rasterization, TextureFormat, Topology, Winding,
    WRITE_ALL,
};
use meshview::shader::{CompiledShader, ShaderStage, MODULE_MAGIC};
use meshview::vertex::Vertex;

/// A module of `words` words that starts with the magic number.
fn module(words: usize) -> Vec<u8> {
    let mut code = Vec::new();
    code.extend_from_slice(&MODULE_MAGIC.to_le_bytes());
    for w in 1..words {
        code.extend_from_slice(&(w as u32).to_le_bytes());
    }
    code
}

fn shader(stage: ShaderStage, code: Vec<u8>) -> CompiledShader {
    CompiledShader { stage, code }
}

const CW_BACK: Rasterization = Rasterization { winding: Winding::Cw, cull: CullMode::Back };
const CCW_FRONT: Rasterization = Rasterization { winding: Winding::Ccw, cull: CullMode::Front };

fn build(
    vertex: CompiledShader,
    fragment: CompiledShader,
    format: TextureFormat,
) -> Result<PipelineConfig, PipelineConfigError> {
    PipelineConfig::build(vertex, fragment, Vertex::layout(), IndexFormat::Uint32, CW_BACK, format)
}

fn words(code: &[u8]) -> Option<Vec<u32>> {
    shader(ShaderStage::Vertex, code.to_vec()).words()
}

#[test]
fn module_words_are_read_in_the_order_of_the_magic_number() {
    assert_eq!(MODULE_MAGIC, 0x0723_0203);
    assert_eq!(words(&[0x03, 0x02, 0x23, 0x07]), Some(vec![0x0723_0203]));
    assert_eq!(
        words(&[0x03, 0x02, 0x23, 0x07, 0x00, 0x00, 0x01, 0x00, 0x78, 0x56, 0x34, 0x12]),
        Some(vec![0x0723_0203, 0x0001_0000, 0x1234_5678])
    );
    // the other byte order
    assert_eq!(
        words(&[0x07, 0x23, 0x02, 0x03, 0x00, 0x01, 0x00, 0x00, 0x12, 0x34, 0x56, 0x78]),
        Some(vec![0x0723_0203, 0x0001_0000, 0x1234_5678])
    );
    assert_eq!(words(&module(5)), Some(vec![MODULE_MAGIC, 1, 2, 3, 4]));
}

#[test]
fn bytes_without_the_container_have_no_words() {
    assert_eq!(words(&[]), None);
    assert_eq!(words(&[0x03, 0x02, 0x23]), None);
    assert_eq!(words(&[0x03, 0x02, 0x23, 0x07, 0x00]), None);
    assert_eq!(words(&[0x03, 0x02, 0x23, 0x07, 0, 0, 0, 0, 0, 0]), None);
    assert_eq!(words(&[0x03, 0x02, 0x23, 0x08, 0, 0, 0, 0]), None);
    assert_eq!(words(&[0x02, 0x03, 0x07, 0x23]), None);
    assert_eq!(words(&[0, 0, 0, 0, 0x03, 0x02, 0x23, 0x07]), None);
    assert_eq!(words(b"#version 450\n"), None);
}

#[test]
fn compiler_output_becomes_the_stage_program() {
    let code = module(7);
    let s = CompiledShader::from_output(ShaderStage::Fragment, Ok(code.clone())).unwrap();
    assert_eq!(s.stage, ShaderStage::Fragment);
    assert_eq!(s.code, code);
    assert_eq!(s.words(), Some(vec![MODULE_MAGIC, 1, 2, 3, 4, 5, 6]));
    // the bytes are taken as they are, module or not
    let s = CompiledShader::from_output(ShaderStage::Compute, Ok(vec![1, 2, 3])).unwrap();
    assert_eq!(s.stage, ShaderStage::Compute);
    assert_eq!(s.code, vec![1, 2, 3]);
    assert_eq!(s.words(), None);
}

#[test]
fn compiler_complaint_is_a_shader_compile_error() {
    for stage in [ShaderStage::Vertex, ShaderStage::Fragment, ShaderStage::Compute] {
        let r = CompiledShader::from_output(stage, Err(String::from("ERROR: 0:3: syntax error")));
        assert_eq!(r.unwrap_err(), RenderError::ShaderCompileError);
        let r = CompiledShader::from_output(stage, Err(String::new()));
        assert_eq!(r.unwrap_err(), RenderError::ShaderCompileError);
    }
}

#[test]
fn built_pipeline_keeps_its_inputs() {
    let vs = module(6);
    let fs = module(9);
    let config = PipelineConfig::build(
        shader(ShaderStage::Vertex, vs.clone()),
        shader(ShaderStage::Fragment, fs.clone()),
        Vertex::layout(),
        IndexFormat::Uint16,
        CCW_FRONT,
        TextureFormat::Bgra8UnormSrgb,
    )
    .unwrap();
    assert_eq!(config.vertex_words(), &[MODULE_MAGIC, 1, 2, 3, 4, 5]);
    assert_eq!(config.fragment_words(), &[MODULE_MAGIC, 1, 2, 3, 4, 5, 6, 7, 8]);
    assert_eq!(4 * config.vertex_words().len(), vs.len());
    assert_eq!(4 * config.fragment_words().len(), fs.len());
    assert_eq!(config.layout().stride(), 32);
    assert_eq!(config.layout().attributes(), Vertex::layout().attributes());
    assert_eq!(config.index_format(), IndexFormat::Uint16);
    assert_eq!(config.rasterization(), CCW_FRONT);
    assert_eq!(config.rasterization().winding, Winding::Ccw);
    assert_eq!(config.rasterization().cull, CullMode::Front);
    assert_eq!(config.color_format(), TextureFormat::Bgra8UnormSrgb);
}

#[test]
fn built_pipeline_has_the_fixed_configuration() {
    for (raster, format, layout) in [
        (CW_BACK, TextureFormat::Bgra8UnormSrgb, Vertex::layout()),
        (CCW_FRONT, TextureFormat::Rgba8Unorm, VertexLayout::derive(&[4]).unwrap()),
        (
            Rasterization { winding: Winding::Ccw, cull: CullMode::Off },
            TextureFormat::Bgra8Unorm,
            VertexLayout::derive(&[]).unwrap(),
        ),
    ] {
        let config = PipelineConfig::build(
            shader(ShaderStage::Vertex, module(5)),
            shader(ShaderStage::Fragment, module(5)),
            layout,
            IndexFormat::Uint32,
            raster,
            format,
        )
        .unwrap();
        assert_eq!(config.topology(), Topology::TriangleList);
        assert_eq!(config.fill(), Fill::Solid);
        assert_eq!(config.color_targets(), 1);
        assert_eq!(config.entry_point(), "main");
        assert_eq!(config.blend(), Blend::Replace);
        assert_eq!(config.write_mask(), 15);
        assert_eq!(config.write_mask(), WRITE_ALL);
        assert!(!config.depth_stencil());
        assert_eq!(config.sample_count(), 1);
        assert_eq!(config.resource_bindings(), 0);
    }
}

#[test]
fn building_twice_gives_the_same_pipeline() {
    let make = || {
        PipelineConfig::build(
            shader(ShaderStage::Vertex, module(12)),
            shader(ShaderStage::Fragment, module(34)),
            Vertex::layout(),
            IndexFormat::Uint32,
            CW_BACK,
            TextureFormat::Rgba8UnormSrgb,
        )
        .unwrap()
    };
    let a = make();
    let b = make();
    assert_eq!(a.vertex_words(), b.vertex_words());
    assert_eq!(a.fragment_words(), b.fragment_words());
    assert_eq!(a.layout().stride(), b.layout().stride());
    assert_eq!(a.layout().attributes(), b.layout().attributes());
    assert_eq!(a.index_format(), b.index_format());
    assert_eq!(a.topology(), b.topology());
    assert_eq!(a.rasterization(), b.rasterization());
    assert_eq!(a.color_format(), b.color_format());
    assert_eq!(a.blend(), b.blend());
    assert_eq!(a.write_mask(), b.write_mask());
    assert_eq!(a.depth_stencil(), b.depth_stencil());
    assert_eq!(a.sample_count(), b.sample_count());
    assert_eq!(a.resource_bindings(), b.resource_bindings());
    assert_eq!(format!("{:?}", a), format!("{:?}", b));
    // and the same refusal
    let refuse = || {
        build(
            shader(ShaderStage::Vertex, vec![0; 8]),
            shader(ShaderStage::Fragment, module(5)),
            TextureFormat::Rgba8Unorm,
        )
        .unwrap_err()
    };
    assert_eq!(refuse(), refuse());
}

#[test]
fn bytes_that_are_no_module_are_refused() {
    let good = || shader(ShaderStage::Fragment, module(5));
    let format = TextureFormat::Bgra8UnormSrgb;
    for code in [vec![], vec![3, 2, 0x23], vec![0; 20], module(5)[..19].to_vec()] {
        let r = build(shader(ShaderStage::Vertex, code.clone()), good(), format);
        assert_eq!(r.unwrap_err(), PipelineConfigError::InvalidShaderBytecode);
        let vertex = shader(ShaderStage::Vertex, module(5));
        let r = build(vertex, shader(ShaderStage::Fragment, code), format);
        assert_eq!(r.unwrap_err(), PipelineConfigError::InvalidShaderBytecode);
    }
}

#[test]
fn program_of_another_stage_is_refused() {
    let format = TextureFormat::Bgra8UnormSrgb;
    let s = |stage| shader(stage, module(5));
    let e = PipelineConfigError::InvalidShaderBytecode;
    assert_eq!(build(s(ShaderStage::Fragment), s(ShaderStage::Vertex), format).unwrap_err(), e);
    assert_eq!(build(s(ShaderStage::Compute), s(ShaderStage::Fragment), format).unwrap_err(), e);
    assert_eq!(build(s(ShaderStage::Vertex), s(ShaderStage::Compute), format).unwrap_err(), e);
    assert_eq!(build(s(ShaderStage::Vertex), s(ShaderStage::Vertex), format).unwrap_err(), e);
    assert!(build(s(ShaderStage::Vertex), s(ShaderStage::Fragment), format).is_ok());
}

#[test]
fn target_without_color_is_refused() {
    let s = |stage| shader(stage, module(5));
    let colors = [
        TextureFormat::Rgba8Unorm,
        TextureFormat::Rgba8UnormSrgb,
        TextureFormat::Bgra8Unorm,
        TextureFormat::Bgra8UnormSrgb,
    ];
    let others = [
        TextureFormat::Depth32Float,
        TextureFormat::Depth24Plus,
        TextureFormat::Depth24PlusStencil8,
    ];
    for f in colors {
        assert!(f.color());
        assert!(build(s(ShaderStage::Vertex), s(ShaderStage::Fragment), f).is_ok());
    }
    for f in others {
        assert!(!f.color());
        let r = build(s(ShaderStage::Vertex), s(ShaderStage::Fragment), f);
        assert_eq!(r.unwrap_err(), PipelineConfigError::UnsupportedFormat);
    }
}

#[test]
fn programs_are_looked_at_before_the_format() {
    let r = build(
        shader(ShaderStage::Vertex, vec![1, 2, 3, 4]),
        shader(ShaderStage::Fragment, module(5)),
        TextureFormat::Depth32Float,
    );
    assert_eq!(r.unwrap_err(), PipelineConfigError::InvalidShaderBytecode);
}

#[test]
fn rasterization_goes_with_the_draw_mode() {
    assert_eq!(Rasterization::for_mode(DrawMode::NonIndexed), CW_BACK);
    assert_eq!(Rasterization::for_mode(DrawMode::Indexed), CCW_FRONT);
}

#[test]
fn surface_has_the_format_of_the_pipeline_and_the_fixed_clear_color() {
    for format in [TextureFormat::Bgra8UnormSrgb, TextureFormat::Rgba8Unorm] {
        let vertex = shader(ShaderStage::Vertex, module(5));
        let config = build(vertex, shader(ShaderStage::Fragment, module(5)), format).unwrap();
        let s = SwapChainState::for_pipeline(800, 640, &config);
        assert_eq!((s.width, s.height), (800, 640));
        assert_eq!(s.format, format);
        assert_eq!(s.clear, Color { r: 0, g: 0x3f00_0000, b: 0x3f00_0000, a: 0x3f80_0000 });
        assert_eq!(f32::from_bits(s.clear.r), 0.0);
        assert_eq!(f32::from_bits(s.clear.g), 0.5);
        assert_eq!(f32::from_bits(s.clear.b), 0.5);
        assert_eq!(f32::from_bits(s.clear.a), 1.0);
    }
}
