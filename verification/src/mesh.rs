//! Meshes and the two policies by which one is imported.
//!
//! The reader of model files yields, for every mesh group, flat arrays of
//! positions (three components per vertex), normals (three, or none at all),
//! texture coordinates (two) and a triangulated list of vertex references.
//! A mesh is built from them once and never changed afterwards.
//!
//! * The face-expanded policy copies the vertex behind every reference of
//!   every group, in order. The mesh has no index list: every three
//!   consecutive vertices are one triangle. A group without normals gets the
//!   zero vector.
//! * The indexed policy takes the arrays of the first group at face value: one
//!   vertex per texture-coordinate pair, and the reference list as the index
//!   list. Normals are mandatory here.

use vstd::prelude::*;
use crate::error::{ModelLoadError, ParseFailure};
use crate::layout::layout_of;
use crate::vertex::{
    decoded, field_of, lemma_encode_decode_components, lemma_field_images, lemma_vertex_layout,
    push_words, words_le, Vertex, FIELD_COMPONENTS,
};

verus! {

/// The arrays of one mesh group, every component as the bit pattern of its
/// 32-bit float.
#[derive(Clone, Debug, PartialEq, Eq)]
pub struct RawModel {
    pub positions: Vec<u32>,
    pub normals: Vec<u32>,
    pub texcoords: Vec<u32>,
    pub indices: Vec<u32>,
}

/// How a mesh is drawn.
#[derive(Clone, Copy, Debug, PartialEq, Eq, Structural)]
pub enum DrawMode {
    /// Through its index list.
    Indexed,
    /// Three consecutive vertices per triangle.
    NonIndexed,
}

/// Width of the indices in an index buffer.
#[derive(Clone, Copy, Debug, PartialEq, Eq, Structural)]
pub enum IndexFormat {
    Uint16,
    Uint32,
}

/// Mathematical content of a [`Mesh`]: the components of every vertex, and the
/// index list if the mesh has one.
pub struct MeshView {
    pub vertices: Seq<Seq<u32>>,
    pub indices: Option<Seq<u32>>,
}

impl MeshView {
    /// Every vertex has its eight components, and every index names a vertex.
    pub open spec fn wf(self) -> bool {
        &&& forall|i: int| 0 <= i < self.vertices.len() ==> (#[trigger] self.vertices[i]).len() == 8
        &&& self.indices matches Some(ix) ==> forall|k: int|
            0 <= k < ix.len() ==> (#[trigger] ix[k]) < self.vertices.len()
    }

    pub open spec fn draw_mode(self) -> DrawMode {
        if self.indices is Some {
            DrawMode::Indexed
        } else {
            DrawMode::NonIndexed
        }
    }
}

/// The components of each vertex of a run of vertices.
pub open spec fn components_of(vertices: Seq<Vertex>) -> Seq<Seq<u32>> {
    Seq::new(vertices.len(), |i: int| vertices[i]@)
}

/// What is wrong with the vertex that reference `j` of group `m` names, if
/// anything; the attributes are looked at in the order position, normal,
/// texture coordinate.
pub open spec fn reference_defect(m: RawModel, j: int) -> Option<ModelLoadError> {
    if m.positions@.len() == 0 {
        Some(ModelLoadError::MissingAttribute)
    } else if 3 * j + 2 >= m.positions@.len() {
        Some(ModelLoadError::MalformedGeometry)
    } else if m.normals@.len() != 0 && 3 * j + 2 >= m.normals@.len() {
        Some(ModelLoadError::MalformedGeometry)
    } else if m.texcoords@.len() == 0 {
        Some(ModelLoadError::MissingAttribute)
    } else if 2 * j + 1 >= m.texcoords@.len() {
        Some(ModelLoadError::MalformedGeometry)
    } else {
        None
    }
}

/// The first defect among the first `k` references of group `m`.
pub open spec fn group_defect(m: RawModel, k: int) -> Option<ModelLoadError>
    decreases k,
{
    if k <= 0 {
        None
    } else if group_defect(m, k - 1) is Some {
        group_defect(m, k - 1)
    } else {
        reference_defect(m, m.indices@[k - 1] as int)
    }
}

/// The first defect among the references of the first `i` groups.
pub open spec fn first_defect(models: Seq<RawModel>, i: int) -> Option<ModelLoadError>
    decreases i,
{
    if i <= 0 {
        None
    } else if first_defect(models, i - 1) is Some {
        first_defect(models, i - 1)
    } else {
        group_defect(models[i - 1], models[i - 1].indices@.len() as int)
    }
}

/// The components of the vertex that reference `j` of group `m` names.
pub open spec fn referenced_vertex(m: RawModel, j: int) -> Seq<u32> {
    m.positions@.subrange(3 * j, 3 * j + 3) + (if m.normals@.len() == 0 {
        seq![0u32, 0u32, 0u32]
    } else {
        m.normals@.subrange(3 * j, 3 * j + 3)
    }) + m.texcoords@.subrange(2 * j, 2 * j + 2)
}

/// The vertices behind the references of one group, in order.
pub open spec fn group_expansion(m: RawModel) -> Seq<Seq<u32>> {
    Seq::new(m.indices@.len(), |k: int| referenced_vertex(m, m.indices@[k] as int))
}

/// The vertices behind the references of the first `i` groups, in order.
pub open spec fn expansion(models: Seq<RawModel>, i: int) -> Seq<Seq<u32>>
    decreases i,
{
    if i <= 0 {
        Seq::empty()
    } else {
        expansion(models, i - 1) + group_expansion(models[i - 1])
    }
}

/// There is a group with positions and texture coordinates.
pub open spec fn has_geometry(models: Seq<RawModel>) -> bool {
    exists|i: int|
        0 <= i < models.len() && (#[trigger] models[i]).positions@.len() > 0
            && models[i].texcoords@.len() > 0
}

/// What the face-expanded policy makes of the groups of a model.
pub open spec fn face_expanded_outcome(models: Seq<RawModel>) -> Result<MeshView, ModelLoadError> {
    if !has_geometry(models) {
        Err(ModelLoadError::MissingAttribute)
    } else if first_defect(models, models.len() as int) is Some {
        Err(first_defect(models, models.len() as int).unwrap())
    } else {
        Ok(MeshView { vertices: expansion(models, models.len() as int), indices: None })
    }
}

/// The group lacks one of the four arrays the indexed policy needs.
pub open spec fn lacks_attribute(m: RawModel) -> bool {
    m.positions@.len() == 0 || m.normals@.len() == 0 || m.texcoords@.len() == 0
        || m.indices@.len() == 0
}

/// What the indexed policy makes of the groups of a model: the vertices of the
/// first group, one per texture-coordinate pair, and its references as indices.
pub open spec fn indexed_outcome(models: Seq<RawModel>) -> Result<MeshView, ModelLoadError> {
    if models.len() == 0 || lacks_attribute(models[0]) {
        Err(ModelLoadError::MissingAttribute)
    } else {
        let m = models[0];
        let n = m.texcoords@.len() / 2;
        if m.positions@.len() < 3 * n || m.normals@.len() < 3 * n {
            Err(ModelLoadError::MalformedGeometry)
        } else if exists|k: int| 0 <= k < m.indices@.len() && #[trigger] m.indices@[k] >= n {
            Err(ModelLoadError::MalformedGeometry)
        } else {
            Ok(
                MeshView {
                    vertices: Seq::new(n as nat, |i: int| referenced_vertex(m, i)),
                    indices: Some(m.indices@),
                },
            )
        }
    }
}

/// What a policy makes of what the reader of model files came back with.
pub open spec fn import_outcome(
    mode: DrawMode,
    loaded: Result<Seq<RawModel>, ParseFailure>,
) -> Result<MeshView, ModelLoadError> {
    match loaded {
        Err(failure) => Err(ModelLoadError::of_failure(failure)),
        Ok(models) => match mode {
            DrawMode::Indexed => indexed_outcome(models),
            DrawMode::NonIndexed => face_expanded_outcome(models),
        },
    }
}

/// The vertex buffer of a run of vertices: their byte images, one after the
/// other.
pub open spec fn vertex_image(vertices: Seq<Seq<u32>>) -> Seq<u8> {
    Seq::new(32 * vertices.len(), |i: int| words_le(vertices[i / 32])[i % 32])
}

/// Every index fits the format.
pub open spec fn indices_fit(indices: Seq<u32>, format: IndexFormat) -> bool {
    format == IndexFormat::Uint16 ==> forall|k: int|
        0 <= k < indices.len() ==> #[trigger] indices[k] <= 0xffff
}

/// The index buffer of an index list: every index as a little-endian number of
/// the width of the format.
pub open spec fn index_image(indices: Seq<u32>, format: IndexFormat) -> Seq<u8> {
    match format {
        IndexFormat::Uint32 => words_le(indices),
        IndexFormat::Uint16 => Seq::new(
            2 * indices.len(),
            |i: int|
                if i % 2 == 0 {
                    (indices[i / 2] % 256) as u8
                } else {
                    (indices[i / 2] / 256 % 256) as u8
                },
        ),
    }
}

/// What the reader came back with, the groups as a sequence.
pub open spec fn loaded_view(loaded: Result<Vec<RawModel>, ParseFailure>) -> Result<
    Seq<RawModel>,
    ParseFailure,
> {
    match loaded {
        Ok(models) => Ok(models@),
        Err(failure) => Err(failure),
    }
}

/// A defect among the first references of a group stays the first defect of the
/// whole group.
proof fn lemma_group_defect_stable(m: RawModel, k: int, n: int)
    requires
        k <= n,
        group_defect(m, k) is Some,
    ensures
        group_defect(m, n) == group_defect(m, k),
    decreases n - k,
{
    if k < n {
        lemma_group_defect_stable(m, k, n - 1);
    }
}

/// A defect among the first groups stays the first defect of the whole model.
proof fn lemma_first_defect_stable(models: Seq<RawModel>, i: int, n: int)
    requires
        i <= n,
        first_defect(models, i) is Some,
    ensures
        first_defect(models, n) == first_defect(models, i),
    decreases n - i,
{
    if i < n {
        lemma_first_defect_stable(models, i, n - 1);
    }
}

/// Whether group `m` has a vertex for reference `j`, and what is wrong if not.
fn check_reference(m: &RawModel, j: u32) -> (r: Option<ModelLoadError>)
    ensures
        r == reference_defect(*m, j as int),
{
    let j: usize = j as usize;
    if m.positions.len() == 0 {
        Some(ModelLoadError::MissingAttribute)
    } else if j >= m.positions.len() / 3 {
        Some(ModelLoadError::MalformedGeometry)
    } else if m.normals.len() != 0 && j >= m.normals.len() / 3 {
        Some(ModelLoadError::MalformedGeometry)
    } else if m.texcoords.len() == 0 {
        Some(ModelLoadError::MissingAttribute)
    } else if j >= m.texcoords.len() / 2 {
        Some(ModelLoadError::MalformedGeometry)
    } else {
        None
    }
}

/// Copies the vertex that reference `j` of group `m` names.
fn copy_vertex(m: &RawModel, j: usize) -> (v: Vertex)
    requires
        3 * j + 2 < m.positions.len(),
        m.normals.len() == 0 || 3 * j + 2 < m.normals.len(),
        2 * j + 1 < m.texcoords.len(),
    ensures
        v@ == referenced_vertex(*m, j as int),
{
    let p: usize = 3 * j;
    let t: usize = 2 * j;
    let normal: [u32; 3] = if m.normals.len() == 0 {
        [0, 0, 0]
    } else {
        [m.normals[p], m.normals[p + 1], m.normals[p + 2]]
    };
    let v = Vertex {
        position: [m.positions[p], m.positions[p + 1], m.positions[p + 2]],
        normal,
        texcoord: [m.texcoords[t], m.texcoords[t + 1]],
    };
    proof {
        assert(v.position@ =~= m.positions@.subrange(3 * j, 3 * j + 3));
        if m.normals@.len() == 0 {
            assert(v.normal@ =~= seq![0u32, 0u32, 0u32]);
        } else {
            assert(v.normal@ =~= m.normals@.subrange(3 * j, 3 * j + 3));
        }
        assert(v.texcoord@ =~= m.texcoords@.subrange(2 * j, 2 * j + 2));
    }
    v
}

/// Whether some group has positions and texture coordinates.
fn any_geometry(models: &[RawModel]) -> (b: bool)
    ensures
        b == has_geometry(models@),
{
    let mut i: usize = 0;
    while i < models.len()
        invariant
            i <= models.len(),
            forall|k: int|
                0 <= k < i ==> !((#[trigger] models@[k]).positions@.len() > 0
                    && models@[k].texcoords@.len() > 0),
        decreases models.len() - i,
    {
        if models[i].positions.len() > 0 && models[i].texcoords.len() > 0 {
            return true;
        }
        i = i + 1;
    }
    false
}

/// A mesh: its vertices and, if it is drawn through indices, its index list.
#[derive(Debug)]
pub struct Mesh {
    vertices: Vec<Vertex>,
    indices: Option<Vec<u32>>,
}

impl View for Mesh {
    type V = MeshView;

    closed spec fn view(&self) -> MeshView {
        MeshView {
            vertices: components_of(self.vertices@),
            indices: match self.indices {
                Some(ix) => Some(ix@),
                None => None,
            },
        }
    }
}

impl Mesh {
    #[verifier::type_invariant]
    closed spec fn well_formed(&self) -> bool {
        self@.wf()
    }

    /// Makes the mesh of a model out of what the reader of its file came back
    /// with, by the policy of the draw mode: the indexed policy for `Indexed`,
    /// the face-expanded one for `NonIndexed`. A failure of the reader is the
    /// load error it amounts to.
    pub fn import(mode: DrawMode, loaded: Result<Vec<RawModel>, ParseFailure>) -> (r: Result<
        Mesh,
        ModelLoadError,
    >)
        ensures
            match r {
                Ok(mesh) => import_outcome(mode, loaded_view(loaded)) == Ok::<
                    MeshView,
                    ModelLoadError,
                >(mesh@),
                Err(e) => import_outcome(mode, loaded_view(loaded)) == Err::<
                    MeshView,
                    ModelLoadError,
                >(e),
            },
            r matches Ok(mesh) ==> mesh@.wf() && mesh@.draw_mode() == mode,
    {
        match loaded {
            Err(failure) => Err(ModelLoadError::from_failure(failure)),
            Ok(models) => match mode {
                DrawMode::Indexed => Mesh::indexed(models.as_slice()),
                DrawMode::NonIndexed => Mesh::face_expanded(models.as_slice()),
            },
        }
    }

    /// Imports the groups of a model by the face-expanded policy.
    ///
    /// Fails with `MissingAttribute` when no group has both positions and
    /// texture coordinates, and otherwise with the defect of the first
    /// reference that has no complete vertex behind it: `MissingAttribute`
    /// where the group has no positions or no texture coordinates at all,
    /// `MalformedGeometry` where the reference points outside an array.
    pub fn face_expanded(models: &[RawModel]) -> (r: Result<Mesh, ModelLoadError>)
        ensures
            match r {
                Ok(mesh) => face_expanded_outcome(models@) == Ok::<MeshView, ModelLoadError>(mesh@),
                Err(e) => face_expanded_outcome(models@) == Err::<MeshView, ModelLoadError>(e),
            },
            r matches Ok(mesh) ==> mesh@.wf(),
    {
        if !any_geometry(models) {
            return Err(ModelLoadError::MissingAttribute);
        }
        let mut vertices: Vec<Vertex> = Vec::new();
        let mut i: usize = 0;
        while i < models.len()
            invariant
                i <= models.len(),
                has_geometry(models@),
                first_defect(models@, i as int) is None,
                components_of(vertices@) == expansion(models@, i as int),
            decreases models.len() - i,
        {
            let m = &models[i];
            let mut k: usize = 0;
            while k < m.indices.len()
                invariant
                    i < models.len(),
                    has_geometry(models@),
                    *m == models@[i as int],
                    k <= m.indices@.len(),
                    first_defect(models@, i as int) is None,
                    group_defect(*m, k as int) is None,
                    components_of(vertices@) == expansion(models@, i as int) + group_expansion(
                        *m,
                    ).take(k as int),
                decreases m.indices.len() - k,
            {
                let j: u32 = m.indices[k];
                match check_reference(m, j) {
                    Some(e) => {
                        proof {
                            assert(group_defect(*m, k + 1) == Some(e));
                            lemma_group_defect_stable(*m, k + 1, m.indices@.len() as int);
                            assert(first_defect(models@, i + 1) == Some(e));
                            lemma_first_defect_stable(models@, i + 1, models@.len() as int);
                        }
                        return Err(e);
                    },
                    None => {},
                }
                let v = copy_vertex(m, j as usize);
                let ghost before = vertices@;
                vertices.push(v);
                proof {
                    assert(components_of(vertices@) =~= components_of(before).push(v@));
                    assert(group_expansion(*m).take(k + 1) =~= group_expansion(*m).take(
                        k as int,
                    ).push(v@));
                    assert(components_of(vertices@) =~= expansion(models@, i as int)
                        + group_expansion(*m).take(k + 1));
                }
                k = k + 1;
            }
            proof {
                assert(group_expansion(*m).take(k as int) =~= group_expansion(*m));
            }
            i = i + 1;
        }
        proof {
            lemma_expansion_wf(models@, models@.len() as int);
        }
        Ok(Mesh { vertices, indices: None })
    }

    /// Imports the first group of a model by the indexed policy.
    ///
    /// Fails with `MissingAttribute` when there is no group or the first one
    /// lacks positions, normals, texture coordinates or references, and with
    /// `MalformedGeometry` when positions or normals are fewer than the
    /// texture-coordinate pairs or a reference names no vertex.
    pub fn indexed(models: &[RawModel]) -> (r: Result<Mesh, ModelLoadError>)
        ensures
            match r {
                Ok(mesh) => indexed_outcome(models@) == Ok::<MeshView, ModelLoadError>(mesh@),
                Err(e) => indexed_outcome(models@) == Err::<MeshView, ModelLoadError>(e),
            },
            r matches Ok(mesh) ==> mesh@.wf(),
    {
        if models.len() == 0 {
            return Err(ModelLoadError::MissingAttribute);
        }
        let m = &models[0];
        if m.positions.len() == 0 || m.normals.len() == 0 || m.texcoords.len() == 0
            || m.indices.len() == 0 {
            return Err(ModelLoadError::MissingAttribute);
        }
        let n: usize = m.texcoords.len() / 2;
        if m.positions.len() / 3 < n || m.normals.len() / 3 < n {
            return Err(ModelLoadError::MalformedGeometry);
        }
        let mut k: usize = 0;
        while k < m.indices.len()
            invariant
                k <= m.indices@.len(),
                models@.len() > 0,
                *m == models@[0],
                !lacks_attribute(*m),
                n == m.texcoords@.len() / 2,
                3 * n <= m.positions@.len(),
                3 * n <= m.normals@.len(),
                forall|q: int| 0 <= q < k ==> #[trigger] m.indices@[q] < n,
            decreases m.indices.len() - k,
        {
            if m.indices[k] as usize >= n {
                return Err(ModelLoadError::MalformedGeometry);
            }
            k = k + 1;
        }
        let mut vertices: Vec<Vertex> = Vec::new();
        let mut i: usize = 0;
        while i < n
            invariant
                i <= n,
                n == m.texcoords@.len() / 2,
                3 * n <= m.positions@.len(),
                3 * n <= m.normals@.len(),
                m.normals@.len() > 0,
                vertices@.len() == i,
                forall|q: int|
                    0 <= q < i ==> (#[trigger] vertices@[q])@ == referenced_vertex(*m, q),
            decreases n - i,
        {
            let v = copy_vertex(m, i);
            vertices.push(v);
            i = i + 1;
        }
        let indices = m.indices.clone();
        proof {
            assert(components_of(vertices@) =~= Seq::new(
                n as nat,
                |q: int| referenced_vertex(*m, q),
            ));
            assert(indices@ =~= m.indices@);
        }
        Ok(Mesh { vertices, indices: Some(indices) })
    }

    /// Indexed if the mesh has an index list.
    pub fn draw_mode(&self) -> (mode: DrawMode)
        ensures
            mode == self@.draw_mode(),
    {
        match &self.indices {
            Some(_) => DrawMode::Indexed,
            None => DrawMode::NonIndexed,
        }
    }

    pub fn vertex_count(&self) -> (n: usize)
        ensures
            n == self@.vertices.len(),
    {
        self.vertices.len()
    }

    /// Length of the index list; 0 for a mesh without one.
    pub fn index_count(&self) -> (n: usize)
        ensures
            n == match self@.indices {
                Some(ix) => ix.len(),
                None => 0,
            },
    {
        match &self.indices {
            Some(ix) => ix.len(),
            None => 0,
        }
    }

    pub fn vertices(&self) -> (vs: &[Vertex])
        ensures
            components_of(vs@) == self@.vertices,
            self@.wf(),
    {
        proof {
            use_type_invariant(self);
        }
        self.vertices.as_slice()
    }

    pub fn indices(&self) -> (ix: Option<&[u32]>)
        ensures
            match ix {
                Some(s) => self@.indices == Some(s@),
                None => self@.indices is None,
            },
            self@.wf(),
    {
        proof {
            use_type_invariant(self);
        }
        match &self.indices {
            Some(ix) => Some(ix.as_slice()),
            None => None,
        }
    }

    /// The bytes of the vertex buffer: 32 for every vertex, in order.
    pub fn vertex_buffer(&self) -> (out: Vec<u8>)
        ensures
            out@ == vertex_image(self@.vertices),
            out@.len() == 32 * self@.vertices.len(),
    {
        let mut out: Vec<u8> = Vec::new();
        let mut k: usize = 0;
        while k < self.vertices.len()
            invariant
                k <= self.vertices@.len(),
                out@ == vertex_image(components_of(self.vertices@).take(k as int)),
            decreases self.vertices.len() - k,
        {
            let ghost before = out@;
            let v = &self.vertices[k];
            v.write_to(&mut out);
            proof {
                let vs = components_of(self.vertices@);
                assert(v@.len() == 8);
                assert(words_le(v@).len() == 32);
                assert(out@ =~= vertex_image(vs.take(k + 1))) by {
                    assert forall|i: int| 0 <= i < 32 * (k + 1) implies out@[i] == vertex_image(
                        vs.take(k + 1),
                    )[i] by {
                        if i < 32 * k {
                            assert(out@[i] == before[i]);
                            assert(vs.take(k as int)[i / 32] == vs.take(k + 1)[i / 32]);
                        } else {
                            assert(i / 32 == k);
                            assert(out@[i] == words_le(v@)[i - 32 * k]);
                        }
                    }
                }
            }
            k = k + 1;
        }
        proof {
            assert(components_of(self.vertices@).take(k as int) =~= components_of(
                self.vertices@,
            ));
        }
        out
    }

    /// The bytes of the index buffer in the given format. There is none for a
    /// mesh without indices, nor when an index does not fit the format.
    pub fn index_buffer(&self, format: IndexFormat) -> (r: Option<Vec<u8>>)
        ensures
            match r {
                Some(out) => self@.indices matches Some(ix) && indices_fit(ix, format) && out@
                    == index_image(ix, format),
                None => !(self@.indices matches Some(ix) && indices_fit(ix, format)),
            },
    {
        let indices = match &self.indices {
            Some(ix) => ix,
            None => {
                return None;
            },
        };
        let mut out: Vec<u8> = Vec::new();
        match format {
            IndexFormat::Uint32 => {
                push_words(&mut out, indices.as_slice());
                assert(out@ =~= words_le(indices@));
            },
            IndexFormat::Uint16 => {
                let mut k: usize = 0;
                while k < indices.len()
                    invariant
                        k <= indices@.len(),
                        format == IndexFormat::Uint16,
                        self@.indices == Some(indices@),
                        forall|q: int| 0 <= q < k ==> #[trigger] indices@[q] <= 0xffff,
                        out@ == index_image(indices@.take(k as int), IndexFormat::Uint16),
                    decreases indices.len() - k,
                {
                    let x: u32 = indices[k];
                    if x > 0xffff {
                        return None;
                    }
                    let ghost before = out@;
                    out.push((x % 256) as u8);
                    out.push((x / 256 % 256) as u8);
                    proof {
                        assert(out@ =~= index_image(indices@.take(k + 1), IndexFormat::Uint16)) by {
                            assert forall|i: int| 0 <= i < 2 * (k + 1) implies out@[i]
                                == index_image(indices@.take(k + 1), IndexFormat::Uint16)[i] by {
                                if i < 2 * k {
                                    assert(out@[i] == before[i]);
                                    assert(indices@.take(k as int)[i / 2] == indices@.take(
                                        k + 1,
                                    )[i / 2]);
                                } else {
                                    assert(i / 2 == k);
                                }
                            }
                        }
                    }
                    k = k + 1;
                }
                proof {
                    assert(indices@.take(k as int) =~= indices@);
                }
            },
        }
        Some(out)
    }
}

/// Every vertex of an expansion without defect has its eight components.
proof fn lemma_expansion_wf(models: Seq<RawModel>, i: int)
    requires
        0 <= i <= models.len(),
        first_defect(models, i) is None,
    ensures
        forall|q: int|
            0 <= q < expansion(models, i).len() ==> (#[trigger] expansion(models, i)[q]).len() == 8,
    decreases i,
{
    if i > 0 {
        lemma_expansion_wf(models, i - 1);
        let m = models[i - 1];
        let n = m.indices@.len() as int;
        let head = expansion(models, i - 1);
        let all = expansion(models, i);
        assert(group_defect(m, n) is None);
        assert forall|q: int| 0 <= q < all.len() implies (#[trigger] all[q]).len() == 8 by {
            if q < head.len() {
                assert(all[q] == head[q]);
            } else {
                let k = q - head.len();
                let j = m.indices@[k] as int;
                assert(all[q] == group_expansion(m)[k]);
                lemma_group_defect_none(m, n, k);
                assert(m.positions@.subrange(3 * j, 3 * j + 3).len() == 3);
                assert(m.texcoords@.subrange(2 * j, 2 * j + 2).len() == 2);
                assert(referenced_vertex(m, j).len() == 8);
            }
        }
    }
}

/// In a group without defect, no reference has one.
proof fn lemma_group_defect_none(m: RawModel, n: int, k: int)
    requires
        0 <= k < n,
        group_defect(m, n) is None,
    ensures
        reference_defect(m, m.indices@[k] as int) is None,
    decreases n,
{
    if k < n - 1 {
        lemma_group_defect_none(m, n - 1, k);
    }
}

/// In the vertex buffer, vertex `k` takes the 32 bytes from `32 * k` on.
pub proof fn lemma_record_in_image(vertices: Seq<Seq<u32>>, k: int)
    requires
        0 <= k < vertices.len(),
        vertices[k].len() == 8,
    ensures
        vertex_image(vertices).subrange(32 * k, 32 * k + 32) == words_le(vertices[k]),
{
    let record = vertex_image(vertices).subrange(32 * k, 32 * k + 32);
    assert forall|i: int| 0 <= i < 32 implies record[i] == words_le(vertices[k])[i] by {
        assert((32 * k + i) / 32 == k);
        assert((32 * k + i) % 32 == i);
    }
    assert(record =~= words_le(vertices[k]));
}

/// The vertex buffer follows the layout of the record: vertex `k` starts at `k`
/// strides, and there every attribute covers exactly the image of its field,
/// so that reading the record back through the layout gives the vertex, bit
/// for bit.
pub proof fn lemma_vertex_image_follows_layout(vertices: Seq<Seq<u32>>, k: int, slot: int)
    requires
        forall|i: int| 0 <= i < vertices.len() ==> (#[trigger] vertices[i]).len() == 8,
        0 <= k < vertices.len(),
        0 <= slot < 3,
    ensures
        ({
            let l = layout_of(FIELD_COMPONENTS@);
            let record = vertex_image(vertices).subrange(l.stride * k, l.stride * k + l.stride);
            &&& l.stride == 32
            &&& record == words_le(vertices[k])
            &&& vertex_image(vertices).subrange(
                l.stride * k + l.attributes[slot].offset,
                l.stride * k + l.end_of(slot),
            ) == words_le(field_of(vertices[k], slot))
            &&& decoded(record, l) == Some(vertices[k])
        }),
{
    let l = layout_of(FIELD_COMPONENTS@);
    let v = vertices[k];
    let image = vertex_image(vertices);
    let record = image.subrange(32 * k, 32 * k + 32);
    let from = l.attributes[slot].offset as int;
    let to = l.end_of(slot);
    assert(l.stride == 32 && 0 <= from <= to <= 32) by {
        lemma_vertex_layout();
    }
    assert(record == words_le(v)) by {
        lemma_record_in_image(vertices, k);
    }
    assert(record.subrange(from, to) == words_le(field_of(v, slot))) by {
        lemma_field_images(v, slot);
    }
    assert(image.subrange(32 * k + from, 32 * k + to) =~= record.subrange(from, to));
    assert(decoded(record, l) == Some(v)) by {
        lemma_encode_decode_components(v);
    }
}

/// Number of references in the first `i` groups.
pub open spec fn reference_count(models: Seq<RawModel>, i: int) -> int
    decreases i,
{
    if i <= 0 {
        0
    } else {
        reference_count(models, i - 1) + models[i - 1].indices@.len()
    }
}

/// Number of triangles in the first `i` groups.
pub open spec fn triangle_count(models: Seq<RawModel>, i: int) -> int
    decreases i,
{
    if i <= 0 {
        0
    } else {
        triangle_count(models, i - 1) + models[i - 1].indices@.len() / 3
    }
}

/// The references of every group come in threes.
pub open spec fn triangulated(models: Seq<RawModel>) -> bool {
    forall|i: int| 0 <= i < models.len() ==> (#[trigger] models[i]).indices@.len() % 3 == 0
}

/// An expansion has one vertex per reference.
pub proof fn lemma_expansion_len(models: Seq<RawModel>, i: int)
    ensures
        expansion(models, i).len() == reference_count(models, i),
    decreases i,
{
    if i > 0 {
        lemma_expansion_len(models, i - 1);
    }
}

/// The face-expanded import of a triangulated model that it accepts has
/// exactly three vertices per triangle and no index list.
pub proof fn lemma_face_expanded_count(models: Seq<RawModel>)
    requires
        triangulated(models),
        face_expanded_outcome(models) is Ok,
    ensures
        face_expanded_outcome(models)->Ok_0.vertices.len() == 3 * triangle_count(
            models,
            models.len() as int,
        ),
        face_expanded_outcome(models)->Ok_0.indices is None,
{
    lemma_expansion_len(models, models.len() as int);
    lemma_triangles(models, models.len() as int);
}

proof fn lemma_triangles(models: Seq<RawModel>, i: int)
    requires
        triangulated(models),
        0 <= i <= models.len(),
    ensures
        reference_count(models, i) == 3 * triangle_count(models, i),
    decreases i,
{
    if i > 0 {
        lemma_triangles(models, i - 1);
        assert(models[i - 1].indices@.len() % 3 == 0);
    }
}

/// Every index of an indexed import names one of its vertices.
pub proof fn lemma_indexed_in_range(models: Seq<RawModel>)
    requires
        indexed_outcome(models) is Ok,
    ensures
        indexed_outcome(models)->Ok_0.wf(),
        indexed_outcome(models)->Ok_0.indices matches Some(ix) && forall|k: int|
            0 <= k < ix.len() ==> (#[trigger] ix[k]) < indexed_outcome(models)->Ok_0.vertices.len(),
{
}

} // verus!
