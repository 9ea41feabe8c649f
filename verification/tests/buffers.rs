use meshview::draw::{DrawCall, MeshBuffers};
use meshview::error::RenderError;
use meshview::mesh::{DrawMode, IndexFormat, Mesh, RawModel};

fn bits(values: &[f32]) -> Vec<u32> {
    values.iter().map(|x| x.to_bits()).collect()
}

fn quad() -> RawModel {
    RawModel {
        positions: bits(&[-1.0, -1.0, 0.0, 1.0, -1.0, 0.0, 1.0, 1.0, 0.0, -1.0, 1.0, 0.0]),
        normals: bits(&[0.0, 0.0, 1.0, 0.0, 0.0, 1.0, 0.0, 0.0, 1.0, 0.0, 0.0, 1.0]),
        texcoords: bits(&[0.0, 0.0, 1.0, 0.0, 1.0, 1.0, 0.0, 1.0]),
        indices: vec![0, 1, 2, 0, 2, 3],
    }
}

/// A strip of `n` vertices, the last of which is referenced.
fn wide(n: usize) -> RawModel {
    RawModel {
        positions: vec![0; 3 * n],
        normals: vec![0; 3 * n],
        texcoords: vec![0; 2 * n],
        indices: vec![0, 1, (n - 1) as u32],
    }
}

#[test]
fn vertex_buffer_holds_32_bytes_per_vertex() {
    let mesh = Mesh::indexed(&[quad()]).unwrap();
    let bytes = mesh.vertex_buffer();
    assert_eq!(bytes.len(), 32 * 4);
    let mut expected = Vec::new();
    for v in mesh.vertices() {
        expected.extend(v.encode());
    }
    assert_eq!(bytes, expected);
    // the third corner: position (1, 1, 0), normal (0, 0, 1), texcoord (1, 1)
    let third: Vec<u8> = [1.0f32, 1.0, 0.0, 0.0, 0.0, 1.0, 1.0, 1.0]
        .iter()
        .flat_map(|x| x.to_le_bytes())
        .collect();
    assert_eq!(&bytes[64..96], third.as_slice());
}

#[test]
fn vertex_buffer_of_expanded_mesh_repeats_shared_corners() {
    let mesh = Mesh::face_expanded(&[quad()]).unwrap();
    let bytes = mesh.vertex_buffer();
    assert_eq!(bytes.len(), 32 * 6);
    assert_eq!(&bytes[0..32], &bytes[96..128]);
    assert_eq!(&bytes[64..96], &bytes[128..160]);
    assert_ne!(&bytes[32..64], &bytes[160..192]);
}

#[test]
fn index_buffer_is_little_endian_in_both_widths() {
    let mut model = wide(0x1_0000);
    model.indices = vec![0, 1, 0x0102, 0xffff];
    let mesh = Mesh::indexed(&[model]).unwrap();
    assert_eq!(
        mesh.index_buffer(IndexFormat::Uint32).unwrap(),
        vec![0, 0, 0, 0, 1, 0, 0, 0, 2, 1, 0, 0, 0xff, 0xff, 0, 0]
    );
    assert_eq!(
        mesh.index_buffer(IndexFormat::Uint16).unwrap(),
        vec![0, 0, 1, 0, 2, 1, 0xff, 0xff]
    );
}

#[test]
fn index_buffer_needs_indices_that_fit() {
    let mesh = Mesh::indexed(&[wide(0x1_0001)]).unwrap();
    assert_eq!(mesh.indices().unwrap()[2], 0x1_0000);
    assert!(mesh.index_buffer(IndexFormat::Uint16).is_none());
    assert_eq!(
        mesh.index_buffer(IndexFormat::Uint32).unwrap(),
        vec![0, 0, 0, 0, 1, 0, 0, 0, 0, 0, 1, 0]
    );
}

#[test]
fn mesh_without_indices_has_no_index_buffer() {
    let mesh = Mesh::face_expanded(&[quad()]).unwrap();
    assert!(mesh.index_buffer(IndexFormat::Uint16).is_none());
    assert!(mesh.index_buffer(IndexFormat::Uint32).is_none());
}

#[test]
fn buffers_of_indexed_mesh_draw_every_index() {
    let mesh = Mesh::indexed(&[quad()]).unwrap();
    let buffers = MeshBuffers::new(&mesh, IndexFormat::Uint16).unwrap();
    assert_eq!(buffers.draw, DrawCall { mode: DrawMode::Indexed, count: 6 });
    assert_eq!(buffers.vertex, mesh.vertex_buffer());
    assert_eq!(buffers.vertex.len(), 128);
    assert_eq!(buffers.index, Some(vec![0, 0, 1, 0, 2, 0, 0, 0, 2, 0, 3, 0]));
    let buffers = MeshBuffers::new(&mesh, IndexFormat::Uint32).unwrap();
    assert_eq!(buffers.draw, DrawCall { mode: DrawMode::Indexed, count: 6 });
    assert_eq!(buffers.index.unwrap().len(), 24);
}

#[test]
fn buffers_of_expanded_mesh_draw_every_vertex() {
    let mesh = Mesh::face_expanded(&[quad()]).unwrap();
    for format in [IndexFormat::Uint16, IndexFormat::Uint32] {
        let buffers = MeshBuffers::new(&mesh, format).unwrap();
        assert_eq!(buffers.draw, DrawCall { mode: DrawMode::NonIndexed, count: 6 });
        assert_eq!(buffers.vertex.len(), 192);
        assert!(buffers.index.is_none());
    }
}

#[test]
fn buffers_fail_when_an_index_does_not_fit() {
    let mesh = Mesh::indexed(&[wide(0x1_0001)]).unwrap();
    assert_eq!(
        MeshBuffers::new(&mesh, IndexFormat::Uint16).unwrap_err(),
        RenderError::DeviceCreationError
    );
    let buffers = MeshBuffers::new(&mesh, IndexFormat::Uint32).unwrap();
    assert_eq!(buffers.draw.count, 3);
    assert_eq!(buffers.vertex.len(), 32 * 0x1_0001);
}
