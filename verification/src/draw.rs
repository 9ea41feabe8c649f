//! What is handed to the device: the buffers of a mesh and the commands of one
//! frame.
//!
//! The buffers are made once, before the first frame. A draw counts what it
//! draws with 32 bits and an index buffer holds indices of one width, so a mesh
//! that is larger, or has an index that is wider, has no buffers. Every frame
//! then records the same commands: clear the target, bind the pipeline and its
//! empty resource set, bind the vertex buffer, bind the index buffer if the
//! mesh has indices, draw the whole mesh once, end the pass.

use vstd::prelude::*;
use crate::error::RenderError;
use crate::mesh::{index_image, indices_fit, vertex_image, DrawMode, IndexFormat, Mesh, MeshView};

verus! {

/// A color, every channel as the bit pattern of its 32-bit float.
#[derive(Clone, Copy, Debug, PartialEq, Eq, Structural)]
pub struct Color {
    pub r: u32,
    pub g: u32,
    pub b: u32,
    pub a: u32,
}

/// The color every frame is cleared to: red 0.0, green 0.5, blue 0.5, alpha 1.0.
pub open spec fn clear_color() -> Color {
    Color { r: 0, g: 0x3f00_0000, b: 0x3f00_0000, a: 0x3f80_0000 }
}

/// The one draw of a frame: the whole vertex range of a mesh without indices,
/// the whole index range of one with indices, one instance.
#[derive(Clone, Copy, Debug, PartialEq, Eq, Structural)]
pub struct DrawCall {
    pub mode: DrawMode,
    /// Number of vertices, or of indices, drawn from the first on.
    pub count: u32,
}

/// One command of a frame.
#[derive(Clone, Copy, Debug, PartialEq, Eq, Structural)]
pub enum Command {
    /// Begin a render pass on the acquired image, cleared to `clear`.
    BeginPass { clear: Color },
    /// Bind the render pipeline.
    SetPipeline,
    /// Bind the empty resource set at `slot`.
    SetBindGroup { slot: u32 },
    /// Bind the vertex buffer at `slot`, read from `offset`.
    SetVertexBuffer { slot: u32, offset: u32 },
    /// Bind the index buffer, read from `offset`.
    SetIndexBuffer { offset: u32 },
    /// Draw `vertex_count` vertices from `first_vertex` on.
    Draw { first_vertex: u32, vertex_count: u32, first_instance: u32, instance_count: u32 },
    /// Draw `index_count` indices from `first_index` on.
    DrawIndexed {
        first_index: u32,
        index_count: u32,
        base_vertex: i32,
        first_instance: u32,
        instance_count: u32,
    },
    /// End the render pass.
    EndPass,
}

/// The commands of one frame that draws `draw` after clearing to `clear`.
pub open spec fn frame_commands(draw: DrawCall, clear: Color) -> Seq<Command> {
    match draw.mode {
        DrawMode::NonIndexed => seq![
            Command::BeginPass { clear },
            Command::SetPipeline,
            Command::SetBindGroup { slot: 0 },
            Command::SetVertexBuffer { slot: 0, offset: 0 },
            Command::Draw {
                first_vertex: 0,
                vertex_count: draw.count,
                first_instance: 0,
                instance_count: 1,
            },
            Command::EndPass,
        ],
        DrawMode::Indexed => seq![
            Command::BeginPass { clear },
            Command::SetPipeline,
            Command::SetBindGroup { slot: 0 },
            Command::SetVertexBuffer { slot: 0, offset: 0 },
            Command::SetIndexBuffer { offset: 0 },
            Command::DrawIndexed {
                first_index: 0,
                index_count: draw.count,
                base_vertex: 0,
                first_instance: 0,
                instance_count: 1,
            },
            Command::EndPass,
        ],
    }
}

/// Records the commands of one frame.
pub fn record_frame(draw: DrawCall, clear: Color) -> (commands: Vec<Command>)
    ensures
        commands@ == frame_commands(draw, clear),
{
    let mut commands: Vec<Command> = Vec::new();
    commands.push(Command::BeginPass { clear });
    commands.push(Command::SetPipeline);
    commands.push(Command::SetBindGroup { slot: 0 });
    commands.push(Command::SetVertexBuffer { slot: 0, offset: 0 });
    match draw.mode {
        DrawMode::NonIndexed => {
            commands.push(
                Command::Draw {
                    first_vertex: 0,
                    vertex_count: draw.count,
                    first_instance: 0,
                    instance_count: 1,
                },
            );
        },
        DrawMode::Indexed => {
            commands.push(Command::SetIndexBuffer { offset: 0 });
            commands.push(
                Command::DrawIndexed {
                    first_index: 0,
                    index_count: draw.count,
                    base_vertex: 0,
                    first_instance: 0,
                    instance_count: 1,
                },
            );
        },
    }
    commands.push(Command::EndPass);
    proof {
        assert(commands@ =~= frame_commands(draw, clear));
    }
    commands
}

/// Mathematical content of [`MeshBuffers`].
pub struct BuffersView {
    pub vertex: Seq<u8>,
    pub index: Option<Seq<u8>>,
    pub draw: DrawCall,
}

/// The buffers of a mesh can be made: one draw can count all its indices, each
/// of which fits the format, or all its vertices if it has no indices.
pub open spec fn uploadable(mesh: MeshView, format: IndexFormat) -> bool {
    match mesh.indices {
        Some(ix) => indices_fit(ix, format) && ix.len() <= u32::MAX,
        None => mesh.vertices.len() <= u32::MAX,
    }
}

/// The buffers of a mesh and the draw that covers it.
pub open spec fn buffers_of(mesh: MeshView, format: IndexFormat) -> BuffersView {
    match mesh.indices {
        Some(ix) => BuffersView {
            vertex: vertex_image(mesh.vertices),
            index: Some(index_image(ix, format)),
            draw: DrawCall { mode: DrawMode::Indexed, count: ix.len() as u32 },
        },
        None => BuffersView {
            vertex: vertex_image(mesh.vertices),
            index: None,
            draw: DrawCall { mode: DrawMode::NonIndexed, count: mesh.vertices.len() as u32 },
        },
    }
}

/// The byte images of a mesh as the device takes them, with the draw that
/// covers the mesh.
#[derive(Debug)]
pub struct MeshBuffers {
    pub vertex: Vec<u8>,
    pub index: Option<Vec<u8>>,
    pub draw: DrawCall,
}

impl View for MeshBuffers {
    type V = BuffersView;

    open spec fn view(&self) -> BuffersView {
        BuffersView {
            vertex: self.vertex@,
            index: match self.index {
                Some(bytes) => Some(bytes@),
                None => None,
            },
            draw: self.draw,
        }
    }
}

impl MeshBuffers {
    /// Makes the buffers of a mesh, with indices of the given format.
    ///
    /// Fails with `DeviceCreationError` when the mesh has more vertices or
    /// indices than one draw can count, or an index that does not fit the
    /// format.
    pub fn new(mesh: &Mesh, format: IndexFormat) -> (r: Result<MeshBuffers, RenderError>)
        ensures
            match r {
                Ok(buffers) => uploadable(mesh@, format) && buffers@ == buffers_of(mesh@, format),
                Err(e) => !uploadable(mesh@, format) && e == RenderError::DeviceCreationError,
            },
    {
        match mesh.draw_mode() {
            DrawMode::NonIndexed => {
                if mesh.vertex_count() > u32::MAX as usize {
                    return Err(RenderError::DeviceCreationError);
                }
                let vertex = mesh.vertex_buffer();
                let count = mesh.vertex_count() as u32;
                Ok(
                    MeshBuffers {
                        vertex,
                        index: None,
                        draw: DrawCall { mode: DrawMode::NonIndexed, count },
                    },
                )
            },
            DrawMode::Indexed => {
                if mesh.index_count() > u32::MAX as usize {
                    return Err(RenderError::DeviceCreationError);
                }
                let index = match mesh.index_buffer(format) {
                    Some(bytes) => bytes,
                    None => {
                        return Err(RenderError::DeviceCreationError);
                    },
                };
                let vertex = mesh.vertex_buffer();
                let count = mesh.index_count() as u32;
                Ok(
                    MeshBuffers {
                        vertex,
                        index: Some(index),
                        draw: DrawCall { mode: DrawMode::Indexed, count },
                    },
                )
            },
        }
    }
}

/// The buffers of a mesh hold 32 bytes per vertex and one index of the
/// format's width per index, and the draw covers all of them.
pub proof fn lemma_buffer_sizes(mesh: MeshView, format: IndexFormat)
    requires
        uploadable(mesh, format),
    ensures
        buffers_of(mesh, format).vertex.len() == 32 * mesh.vertices.len(),
        mesh.indices matches Some(ix) ==> buffers_of(mesh, format).index matches Some(bytes)
            && bytes.len() == (if format == IndexFormat::Uint16 {
            2 * ix.len()
        } else {
            4 * ix.len()
        }) && buffers_of(mesh, format).draw.mode == DrawMode::Indexed && buffers_of(
            mesh,
            format,
        ).draw.count == ix.len(),
        mesh.indices is None ==> buffers_of(mesh, format).index is None && buffers_of(
            mesh,
            format,
        ).draw.mode == DrawMode::NonIndexed && buffers_of(mesh, format).draw.count
            == mesh.vertices.len(),
{
}

} // verus!
