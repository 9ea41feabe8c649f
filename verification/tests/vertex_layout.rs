use meshview::layout::{VertexAttribute, VertexFormat, VertexLayout};
use meshview::vertex::{push_words, Vertex, FIELD_COMPONENTS};

fn vertex(c: [f32; 8]) -> Vertex {
    Vertex {
        position: [c[0].to_bits(), c[1].to_bits(), c[2].to_bits()],
        normal: [c[3].to_bits(), c[4].to_bits(), c[5].to_bits()],
        texcoord: [c[6].to_bits(), c[7].to_bits()],
    }
}

#[test]
fn formats_have_four_bytes_per_component() {
    let formats =
        [VertexFormat::Float, VertexFormat::Float2, VertexFormat::Float3, VertexFormat::Float4];
    for (i, f) in formats.iter().enumerate() {
        assert_eq!(f.components(), i as u32 + 1);
        assert_eq!(f.size(), 4 * (i as u32 + 1));
        assert_eq!(VertexFormat::with_components(i as u32 + 1), Some(*f));
    }
    assert_eq!(VertexFormat::with_components(0), None);
    assert_eq!(VertexFormat::with_components(5), None);
    assert_eq!(VertexFormat::with_components(u32::MAX), None);
}

#[test]
fn vertex_layout_is_position_normal_texcoord() {
    assert_eq!(FIELD_COMPONENTS, [3, 3, 2]);
    let layout = Vertex::layout();
    assert_eq!(layout.stride(), 32);
    assert_eq!(
        layout.attributes(),
        &[
            VertexAttribute { slot: 0, format: VertexFormat::Float3, offset: 0 },
            VertexAttribute { slot: 1, format: VertexFormat::Float3, offset: 12 },
            VertexAttribute { slot: 2, format: VertexFormat::Float2, offset: 24 },
        ]
    );
    assert_eq!(layout.stride() as usize, std::mem::size_of::<Vertex>());
}

#[test]
fn derived_offsets_are_cumulative_sizes() {
    let layout = VertexLayout::derive(&[1, 2, 3, 4, 1]).unwrap();
    assert_eq!(layout.stride(), 44);
    assert_eq!(
        layout.attributes(),
        &[
            VertexAttribute { slot: 0, format: VertexFormat::Float, offset: 0 },
            VertexAttribute { slot: 1, format: VertexFormat::Float2, offset: 4 },
            VertexAttribute { slot: 2, format: VertexFormat::Float3, offset: 12 },
            VertexAttribute { slot: 3, format: VertexFormat::Float4, offset: 24 },
            VertexAttribute { slot: 4, format: VertexFormat::Float, offset: 40 },
        ]
    );
    // the other field order of the same record
    let layout = VertexLayout::derive(&[3, 2, 3]).unwrap();
    assert_eq!(layout.stride(), 32);
    let offsets: Vec<u32> = layout.attributes().iter().map(|a| a.offset).collect();
    assert_eq!(offsets, vec![0, 12, 20]);
}

#[test]
fn derived_attributes_are_packed() {
    let tables: [&[u32]; 4] = [&[3, 3, 2], &[4, 4, 4, 4], &[1], &[2, 1, 4, 3, 2, 1]];
    for counts in tables {
        let layout = VertexLayout::derive(counts).unwrap();
        let mut end = 0;
        for (k, a) in layout.attributes().iter().enumerate() {
            assert_eq!(a.slot as usize, k);
            assert_eq!(a.offset, end);
            assert_eq!(a.format.components(), counts[k]);
            end = a.offset + a.format.size();
        }
        assert_eq!(layout.stride(), end);
        assert_eq!(layout.attributes().len(), counts.len());
    }
}

#[test]
fn empty_table_has_the_empty_layout() {
    let layout = VertexLayout::derive(&[]).unwrap();
    assert_eq!(layout.stride(), 0);
    assert!(layout.attributes().is_empty());
}

#[test]
fn table_with_a_field_without_format_has_no_layout() {
    assert!(VertexLayout::derive(&[3, 0, 2]).is_none());
    assert!(VertexLayout::derive(&[5]).is_none());
    assert!(VertexLayout::derive(&[3, 3, 2, 16]).is_none());
    assert!(VertexLayout::derive(&[4, 4, 4, 4]).is_some());
}

#[test]
fn words_are_little_endian() {
    let mut out = vec![0xaa];
    push_words(&mut out, &[0x0403_0201, 0, u32::MAX, 0x8000_0000, 0x3f80_0000]);
    assert_eq!(
        out,
        vec![
            0xaa, 1, 2, 3, 4, 0, 0, 0, 0, 0xff, 0xff, 0xff, 0xff, 0, 0, 0, 0x80, 0, 0, 0x80, 0x3f
        ]
    );
    let mut out = Vec::new();
    push_words(&mut out, &[]);
    assert!(out.is_empty());
}

#[test]
fn encoded_vertex_is_its_floats_in_field_order() {
    let c = [1.0, -2.5, 3.25, 0.0, 1.0, 0.0, 0.5, 0.75];
    let v = vertex(c);
    let bytes = v.encode();
    assert_eq!(bytes.len(), 32);
    let mut expected = Vec::new();
    for x in c {
        expected.extend_from_slice(&x.to_le_bytes());
    }
    assert_eq!(bytes, expected);
    // 1.0 is 0x3f800000
    assert_eq!(&bytes[0..4], &[0x00, 0x00, 0x80, 0x3f]);
    // every attribute of the layout covers the image of its field
    let layout = Vertex::layout();
    let a = layout.attributes();
    assert_eq!(&bytes[a[1].offset as usize..][..4], &0.0f32.to_le_bytes());
    assert_eq!(&bytes[a[1].offset as usize + 4..][..4], &1.0f32.to_le_bytes());
    assert_eq!(&bytes[a[2].offset as usize..][..4], &0.5f32.to_le_bytes());
    assert_eq!(&bytes[a[2].offset as usize + 4..][..4], &0.75f32.to_le_bytes());
}

#[test]
fn write_to_appends_the_image() {
    let v = vertex([1.0, 2.0, 3.0, 4.0, 5.0, 6.0, 7.0, 8.0]);
    let mut out = vec![9, 9];
    v.write_to(&mut out);
    assert_eq!(out.len(), 34);
    assert_eq!(&out[..2], &[9, 9]);
    assert_eq!(&out[2..], v.encode().as_slice());
}

#[test]
fn decode_gives_back_every_bit() {
    let layout = Vertex::layout();
    let specials = [
        0.0f32,
        -0.0,
        1.0,
        -1.0,
        f32::MIN_POSITIVE,
        f32::MIN_POSITIVE / 4.0,
        f32::MAX,
        f32::MIN,
        f32::INFINITY,
        f32::NEG_INFINITY,
        f32::NAN,
        f32::EPSILON,
        0.1,
        123456.79,
    ];
    for i in 0..specials.len() {
        let mut c = [0.0f32; 8];
        for k in 0..8 {
            c[k] = specials[(i + 3 * k) % specials.len()];
        }
        let v = vertex(c);
        let back = Vertex::decode(&v.encode(), &layout).unwrap();
        assert_eq!(back, v);
        for k in 0..3 {
            assert_eq!(f32::from_bits(back.position[k]).to_bits(), c[k].to_bits());
        }
    }
    // bit patterns that no float literal gives, such as signalling NaNs
    let v = Vertex {
        position: [0x7fa0_0001, 0xffff_ffff, 0x0000_0001],
        normal: [0x8000_0000, 0x7f80_0000, 0x1234_5678],
        texcoord: [0xdead_beef, 0x00ff_00ff],
    };
    assert_eq!(Vertex::decode(&v.encode(), &layout), Some(v));
}

#[test]
fn decode_reads_at_the_offsets_of_the_layout() {
    let layout = Vertex::layout();
    let mut bytes = vec![0u8; 40];
    bytes[0..4].copy_from_slice(&7.0f32.to_le_bytes());
    bytes[12..16].copy_from_slice(&8.0f32.to_le_bytes());
    bytes[24..28].copy_from_slice(&9.0f32.to_le_bytes());
    bytes[28..32].copy_from_slice(&10.0f32.to_le_bytes());
    bytes[32..36].copy_from_slice(&11.0f32.to_le_bytes());
    let v = Vertex::decode(&bytes, &layout).unwrap();
    assert_eq!(v, vertex([7.0, 0.0, 0.0, 8.0, 0.0, 0.0, 9.0, 10.0]));
}

#[test]
fn decode_needs_the_whole_record() {
    let layout = Vertex::layout();
    let bytes = vertex([1.0; 8]).encode();
    assert!(Vertex::decode(&bytes[..31], &layout).is_none());
    assert!(Vertex::decode(&bytes[..24], &layout).is_none());
    assert!(Vertex::decode(&[], &layout).is_none());
    assert!(Vertex::decode(&bytes[..32], &layout).is_some());
}

#[test]
fn decode_needs_the_layout_of_the_record() {
    let bytes = vec![0u8; 64];
    assert!(Vertex::decode(&bytes, &VertexLayout::derive(&[3, 3]).unwrap()).is_none());
    assert!(Vertex::decode(&bytes, &VertexLayout::derive(&[3, 2, 3]).unwrap()).is_none());
    assert!(Vertex::decode(&bytes, &VertexLayout::derive(&[3, 3, 2, 1]).unwrap()).is_none());
    assert!(Vertex::decode(&bytes, &VertexLayout::derive(&[]).unwrap()).is_none());
    assert!(Vertex::decode(&bytes, &VertexLayout::derive(&[3, 3, 2]).unwrap()).is_some());
}
