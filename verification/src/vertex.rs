//! The vertex record and its byte image.
//!
//! A vertex is a position, a normal and a texture coordinate. Each component is
//! a 32-bit float, carried here as its bit pattern so that every copy is exact.
//! The byte image of a record is its components in field order, each as four
//! little-endian bytes; the device reads the records positionally, through the
//! layout that [`Vertex::layout`] derives from the same field table.

use vstd::prelude::*;
use crate::layout::{
    bytes_before, derivable, layout_of, LayoutView, VertexAttribute, VertexFormat, VertexLayout,
};

verus! {

/// Component count of each field of the record, in declaration order:
/// position, normal, texture coordinate.
pub const FIELD_COMPONENTS: [u32; 3] = [3, 3, 2];

/// One vertex of a mesh.
#[derive(Clone, Copy, Debug, PartialEq, Eq)]
pub struct Vertex {
    pub position: [u32; 3],
    pub normal: [u32; 3],
    pub texcoord: [u32; 2],
}

impl View for Vertex {
    type V = Seq<u32>;

    /// The eight components in field order.
    open spec fn view(&self) -> Seq<u32> {
        self.position@ + self.normal@ + self.texcoord@
    }
}

/// Byte `k` of the little-endian image of `x`.
pub open spec fn le_byte(x: u32, k: int) -> u8 {
    if k == 0 {
        (x % 256) as u8
    } else if k == 1 {
        (x / 256 % 256) as u8
    } else if k == 2 {
        (x / 65536 % 256) as u8
    } else {
        (x / 16777216 % 256) as u8
    }
}

/// The word whose little-endian image starts at `at`.
pub open spec fn word_at(bytes: Seq<u8>, at: int) -> u32 {
    (bytes[at] + 256 * bytes[at + 1] + 65536 * bytes[at + 2] + 16777216 * bytes[at + 3]) as u32
}

/// Little-endian image of a run of words.
pub open spec fn words_le(words: Seq<u32>) -> Seq<u8> {
    Seq::new(4 * words.len(), |i: int| le_byte(words[i / 4], i % 4))
}

/// The `n` words whose images start at `at`.
pub open spec fn words_at(bytes: Seq<u8>, at: int, n: nat) -> Seq<u32> {
    Seq::new(n, |i: int| word_at(bytes, at + 4 * i))
}

/// The components of field `k` of a record, by the field table.
pub open spec fn field_of(components: Seq<u32>, k: int) -> Seq<u32> {
    components.subrange(
        bytes_before(FIELD_COMPONENTS@, k) / 4,
        bytes_before(FIELD_COMPONENTS@, k + 1) / 4,
    )
}

/// A layout that can be read back as a vertex: the three fields of the table
/// with their formats, each lying inside `len` bytes.
pub open spec fn readable(layout: LayoutView, len: nat) -> bool {
    &&& layout.attributes.len() == 3
    &&& forall|k: int|
        0 <= k < 3 ==> (#[trigger] layout.attributes[k]).format == VertexFormat::of_components(
            FIELD_COMPONENTS@[k] as nat,
        ).unwrap()
    &&& forall|k: int| 0 <= k < 3 ==> #[trigger] layout.end_of(k) <= len
}

/// The record that `bytes` holds under `layout`: every field read at the
/// offset of its attribute.
pub open spec fn decoded(bytes: Seq<u8>, layout: LayoutView) -> Option<Seq<u32>> {
    if readable(layout, bytes.len()) {
        Some(
            words_at(bytes, layout.attributes[0].offset as int, 3) + words_at(
                bytes,
                layout.attributes[1].offset as int,
                3,
            ) + words_at(bytes, layout.attributes[2].offset as int, 2),
        )
    } else {
        None
    }
}

/// The image of a run of words is the images of its parts, one after the other.
pub proof fn lemma_words_le_concat(a: Seq<u32>, b: Seq<u32>)
    ensures
        words_le(a + b) == words_le(a) + words_le(b),
{
    assert(words_le(a + b) =~= words_le(a) + words_le(b));
}

/// Reading a word back from its image gives the word.
pub proof fn lemma_word_round_trip(words: Seq<u32>, i: int)
    requires
        0 <= i < words.len(),
    ensures
        word_at(words_le(words), 4 * i) == words[i],
{
    let x = words[i];
    let b = words_le(words);
    assert(b[4 * i] == le_byte(x, 0));
    assert(b[4 * i + 1] == le_byte(x, 1));
    assert(b[4 * i + 2] == le_byte(x, 2));
    assert(b[4 * i + 3] == le_byte(x, 3));
}

/// Appends the little-endian image of `words` to `out`.
pub fn push_words(out: &mut Vec<u8>, words: &[u32])
    ensures
        final(out)@ == old(out)@ + words_le(words@),
{
    let mut i: usize = 0;
    while i < words.len()
        invariant
            i <= words.len(),
            out@ == old(out)@ + words_le(words@.take(i as int)),
        decreases words.len() - i,
    {
        let x: u32 = words[i];
        let ghost before = out@;
        out.push((x % 256) as u8);
        out.push((x / 256 % 256) as u8);
        out.push((x / 65536 % 256) as u8);
        out.push((x / 16777216 % 256) as u8);
        proof {
            assert(words@.take(i + 1) =~= words@.take(i as int) + seq![x]);
            lemma_words_le_concat(words@.take(i as int), seq![x]);
            assert(words_le(seq![x]) =~= seq![
                le_byte(x, 0),
                le_byte(x, 1),
                le_byte(x, 2),
                le_byte(x, 3),
            ]);
            assert(out@ =~= before + words_le(seq![x]));
        }
        i = i + 1;
    }
    proof {
        assert(words@.take(i as int) =~= words@);
    }
}

/// Reads the word whose little-endian image starts at `at`.
fn read_word(bytes: &[u8], at: usize) -> (x: u32)
    requires
        at + 4 <= bytes.len(),
    ensures
        x == word_at(bytes@, at as int),
{
    let b0: u32 = bytes[at] as u32;
    let b1: u32 = bytes[at + 1] as u32;
    let b2: u32 = bytes[at + 2] as u32;
    let b3: u32 = bytes[at + 3] as u32;
    b0 + 256 * b1 + 65536 * b2 + 16777216 * b3
}

impl Vertex {
    /// The layout of the record, derived from the field table: position in
    /// slot 0 at offset 0, normal in slot 1 at offset 12, texture coordinate in
    /// slot 2 at offset 24, stride 32.
    pub fn layout() -> (l: VertexLayout)
        ensures
            l@ == layout_of(FIELD_COMPONENTS@),
            l@.stride == 32,
            l@.attributes == seq![
                VertexAttribute { slot: 0, format: VertexFormat::Float3, offset: 0 },
                VertexAttribute { slot: 1, format: VertexFormat::Float3, offset: 12 },
                VertexAttribute { slot: 2, format: VertexFormat::Float2, offset: 24 },
            ],
    {
        proof {
            lemma_vertex_layout();
        }
        let derived = VertexLayout::derive(&FIELD_COMPONENTS);
        derived.unwrap()
    }

    /// The byte image of the record.
    pub fn encode(&self) -> (out: Vec<u8>)
        ensures
            out@ == words_le(self@),
            out@.len() == 32,
    {
        let mut out: Vec<u8> = Vec::new();
        self.write_to(&mut out);
        out
    }

    /// Appends the byte image of the record to `out`.
    pub fn write_to(&self, out: &mut Vec<u8>)
        ensures
            final(out)@ == old(out)@ + words_le(self@),
    {
        push_words(out, &self.position);
        push_words(out, &self.normal);
        push_words(out, &self.texcoord);
        proof {
            lemma_words_le_concat(self.position@, self.normal@);
            lemma_words_le_concat(self.position@ + self.normal@, self.texcoord@);
            assert(out@ =~= old(out)@ + words_le(self@));
        }
    }

    /// Reads a record back from `bytes` through the attribute offsets of
    /// `layout`. There is none when `layout` does not describe the three fields
    /// of the record or an attribute reaches past the end of `bytes`.
    pub fn decode(bytes: &[u8], layout: &VertexLayout) -> (r: Option<Vertex>)
        ensures
            match r {
                Some(v) => decoded(bytes@, layout@) == Some(v@),
                None => decoded(bytes@, layout@) is None,
            },
    {
        let attributes = layout.attributes();
        if attributes.len() != 3 {
            return None;
        }
        let mut k: usize = 0;
        while k < 3
            invariant
                k <= 3,
                attributes@ == layout@.attributes,
                attributes@.len() == 3,
                forall|j: int|
                    0 <= j < k ==> (#[trigger] layout@.attributes[j]).format
                        == VertexFormat::of_components(FIELD_COMPONENTS@[j] as nat).unwrap(),
                forall|j: int| 0 <= j < k ==> #[trigger] layout@.end_of(j) <= bytes@.len(),
            decreases 3 - k,
        {
            let a = attributes[k];
            let expected = VertexFormat::with_components(FIELD_COMPONENTS[k]);
            if expected.is_none() || a.format != expected.unwrap() {
                return None;
            }
            let size = a.format.size() as usize;
            if bytes.len() < size || a.offset as usize > bytes.len() - size {
                assert(layout@.end_of(k as int) > bytes@.len());
                return None;
            }
            k = k + 1;
        }
        let p = attributes[0].offset as usize;
        let n = attributes[1].offset as usize;
        let t = attributes[2].offset as usize;
        assert(layout@.end_of(0) <= bytes@.len());
        assert(layout@.end_of(1) <= bytes@.len());
        assert(layout@.end_of(2) <= bytes@.len());
        let v = Vertex {
            position: [read_word(bytes, p), read_word(bytes, p + 4), read_word(bytes, p + 8)],
            normal: [read_word(bytes, n), read_word(bytes, n + 4), read_word(bytes, n + 8)],
            texcoord: [read_word(bytes, t), read_word(bytes, t + 4)],
        };
        proof {
            assert(v.position@ =~= words_at(bytes@, p as int, 3));
            assert(v.normal@ =~= words_at(bytes@, n as int, 3));
            assert(v.texcoord@ =~= words_at(bytes@, t as int, 2));
        }
        Some(v)
    }
}

/// The field table has a layout, and it is the one the record is written in.
pub proof fn lemma_vertex_layout()
    ensures
        derivable(FIELD_COMPONENTS@),
        layout_of(FIELD_COMPONENTS@).stride == 32,
        layout_of(FIELD_COMPONENTS@).attributes == seq![
            VertexAttribute { slot: 0, format: VertexFormat::Float3, offset: 0 },
            VertexAttribute { slot: 1, format: VertexFormat::Float3, offset: 12 },
            VertexAttribute { slot: 2, format: VertexFormat::Float2, offset: 24 },
        ],
{
    let c = FIELD_COMPONENTS@;
    lemma_field_bounds();
    assert(layout_of(c).attributes =~= seq![
        VertexAttribute { slot: 0, format: VertexFormat::Float3, offset: 0 },
        VertexAttribute { slot: 1, format: VertexFormat::Float3, offset: 12 },
        VertexAttribute { slot: 2, format: VertexFormat::Float2, offset: 24 },
    ]);
}

/// Two vertices with the same components are the same vertex.
pub proof fn lemma_view_injective(a: Vertex, b: Vertex)
    requires
        a@ == b@,
    ensures
        a == b,
{
    assert forall|i: int| 0 <= i < 3 implies a.position[i] == b.position[i] by {
        assert(a@[i] == a.position@[i]);
        assert(b@[i] == b.position@[i]);
    }
    assert forall|i: int| 0 <= i < 3 implies a.normal[i] == b.normal[i] by {
        assert(a@[3 + i] == a.normal@[i]);
        assert(b@[3 + i] == b.normal@[i]);
    }
    assert forall|i: int| 0 <= i < 2 implies a.texcoord[i] == b.texcoord[i] by {
        assert(a@[6 + i] == a.texcoord@[i]);
        assert(b@[6 + i] == b.texcoord@[i]);
    }
    assert(a.position =~= b.position);
    assert(a.normal =~= b.normal);
    assert(a.texcoord =~= b.texcoord);
}

/// Encoding a vertex and decoding the bytes through the record's own layout
/// gives the vertex back, bit for bit.
pub proof fn lemma_encode_decode(v: Vertex)
    ensures
        decoded(words_le(v@), layout_of(FIELD_COMPONENTS@)) == Some(v@),
        forall|w: Vertex|
            decoded(words_le(v@), layout_of(FIELD_COMPONENTS@)) == Some(w@) ==> w == v,
{
    lemma_encode_decode_components(v@);
    assert forall|w: Vertex|
        decoded(words_le(v@), layout_of(FIELD_COMPONENTS@)) == Some(w@) implies w == v by {
        lemma_view_injective(w, v);
    }
}

/// The round trip on the components of a record.
pub proof fn lemma_encode_decode_components(c: Seq<u32>)
    requires
        c.len() == 8,
    ensures
        decoded(words_le(c), layout_of(FIELD_COMPONENTS@)) == Some(c),
{
    lemma_vertex_layout();
    let bytes = words_le(c);
    let l = layout_of(FIELD_COMPONENTS@);
    assert(bytes.len() == 32);
    assert(l.end_of(0) == 12 && l.end_of(1) == 24 && l.end_of(2) == 32);
    assert(readable(l, bytes.len()));
    let got = decoded(bytes, l).unwrap();
    assert(got.len() == 8);
    assert forall|i: int| 0 <= i < 8 implies got[i] == c[i] by {
        lemma_word_round_trip(c, i);
    }
    assert(got =~= c);
}

/// In the byte image of a vertex, every attribute of the layout covers exactly
/// the image of its field.
pub proof fn lemma_layout_matches_image(v: Vertex, k: int)
    requires
        0 <= k < 3,
    ensures
        words_le(v@).subrange(
            layout_of(FIELD_COMPONENTS@).attributes[k].offset as int,
            layout_of(FIELD_COMPONENTS@).end_of(k),
        ) == words_le(field_of(v@, k)),
        field_of(v@, 0) == v.position@,
        field_of(v@, 1) == v.normal@,
        field_of(v@, 2) == v.texcoord@,
{
    lemma_field_images(v@, k);
    lemma_field_bounds();
    assert(field_of(v@, 0) =~= v.position@);
    assert(field_of(v@, 1) =~= v.normal@);
    assert(field_of(v@, 2) =~= v.texcoord@);
}

/// The fields of the table are components 0 to 3, 3 to 6 and 6 to 8.
proof fn lemma_field_bounds()
    ensures
        bytes_before(FIELD_COMPONENTS@, 0) == 0,
        bytes_before(FIELD_COMPONENTS@, 1) == 12,
        bytes_before(FIELD_COMPONENTS@, 2) == 24,
        bytes_before(FIELD_COMPONENTS@, 3) == 32,
{
    let c = FIELD_COMPONENTS@;
    assert(c.len() == 3 && c[0] == 3 && c[1] == 3 && c[2] == 2);
    reveal_with_fuel(bytes_before, 4);
}

/// The same on the components of a record.
pub proof fn lemma_field_images(c: Seq<u32>, k: int)
    requires
        c.len() == 8,
        0 <= k < 3,
    ensures
        words_le(c).subrange(
            layout_of(FIELD_COMPONENTS@).attributes[k].offset as int,
            layout_of(FIELD_COMPONENTS@).end_of(k),
        ) == words_le(field_of(c, k)),
{
    lemma_vertex_layout();
    lemma_field_bounds();
    let l = layout_of(FIELD_COMPONENTS@);
    assert(words_le(c).subrange(l.attributes[k].offset as int, l.end_of(k)) =~= words_le(
        field_of(c, k),
    ));
}

} // verus!
