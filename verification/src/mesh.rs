//! Assembly of a single-indexed triangle mesh from parsed OBJ models.
//!
//! Every coordinate is held as the bit pattern of a single-precision float
//! (`to_bits`), so a zero coordinate is the word `0`.

use vstd::prelude::*;

verus! {

/// Number of 32-bit words in one interleaved vertex record:
/// three for the position, three for the normal, two for the texture coordinate.
pub const WORDS_PER_VERTEX: usize = 8;

/// One model of a parsed OBJ file, single-indexed: flat coordinate arrays and
/// the indices that refer to them.
pub struct ObjModel {
    /// `x, y, z` per vertex.
    pub positions: Vec<u32>,
    /// `x, y, z` per vertex, or empty where the source has no normals.
    pub normals: Vec<u32>,
    /// `u, v` per vertex, or empty where the source has no texture coordinates.
    pub texcoords: Vec<u32>,
    /// Indices into this model's own vertices, three per triangle.
    pub indices: Vec<u32>,
}

/// An interleaved vertex buffer and the index buffer that refers to it.
pub struct Mesh {
    /// Eight words per vertex: position, normal, texture coordinate.
    pub vertices: Vec<u32>,
    /// Triangle list: indices into the records of `vertices`, three per triangle.
    pub indices: Vec<u32>,
}

/// Why a set of models cannot be assembled into a mesh.
#[derive(Clone, Copy, Debug, PartialEq, Eq, Structural)]
pub enum MeshError {
    /// A model has normals, but fewer than its positions call for.
    NormalsTooShort,
    /// A model has texture coordinates, but fewer than its positions call for.
    TexcoordsTooShort,
    /// A model has an index that refers to no vertex of it.
    IndexOutOfRange,
    /// An index, counted from the first vertex of the mesh, does not fit 32 bits.
    IndexOverflow,
}

impl ObjModel {
    /// Number of vertices: complete position triples.
    pub open spec fn vertex_count(&self) -> nat {
        self.positions@.len() / 3
    }

    /// The normals are absent, or there is one for every vertex.
    pub open spec fn normals_cover(&self) -> bool {
        self.normals@.len() == 0 || self.normals@.len() >= 3 * self.vertex_count()
    }

    /// The texture coordinates are absent, or there is one for every vertex.
    pub open spec fn texcoords_cover(&self) -> bool {
        self.texcoords@.len() == 0 || self.texcoords@.len() >= 2 * self.vertex_count()
    }

    /// Every index refers to a vertex of this model.
    pub open spec fn indices_in_range(&self) -> bool {
        forall|k: int| 0 <= k < self.indices@.len() ==> (#[trigger] self.indices@[k]) < self.vertex_count()
    }

    /// The attribute arrays suffice to build every vertex record.
    pub open spec fn attributes_cover(&self) -> bool {
        self.normals_cover() && self.texcoords_cover()
    }

    /// Every index still fits 32 bits when `offset` vertices precede this
    /// model's own in the mesh.
    pub open spec fn indices_fit(&self, offset: nat) -> bool {
        forall|c: int|
            0 <= c < self.indices@.len() ==> offset + (#[trigger] self.indices@[c]) <= u32::MAX
    }

    /// The first thing wrong with this model, if anything is, when `offset`
    /// vertices precede its own in the mesh.
    pub open spec fn defect(&self, offset: nat) -> Option<MeshError> {
        if !self.normals_cover() {
            Some(MeshError::NormalsTooShort)
        } else if !self.texcoords_cover() {
            Some(MeshError::TexcoordsTooShort)
        } else if !self.indices_in_range() {
            Some(MeshError::IndexOutOfRange)
        } else if !self.indices_fit(offset) {
            Some(MeshError::IndexOverflow)
        } else {
            None
        }
    }

    /// This model's indices as they count in the mesh: each increased by the
    /// `offset` vertices that precede the model's own.
    pub open spec fn rebased(&self, offset: nat) -> Seq<u32> {
        Seq::new(self.indices@.len(), |c: int| (offset + self.indices@[c]) as u32)
    }

    /// Word `slot` (0 to 7) of the record of vertex `v`: the position, then the
    /// normal or zeros, then the texture coordinate or zeros.
    pub open spec fn record_word(&self, v: int, slot: int) -> u32 {
        if slot < 3 {
            self.positions@[3 * v + slot]
        } else if slot < 6 {
            if self.normals@.len() == 0 {
                0u32
            } else {
                self.normals@[3 * v + (slot - 3)]
            }
        } else {
            if self.texcoords@.len() == 0 {
                0u32
            } else {
                self.texcoords@[2 * v + (slot - 6)]
            }
        }
    }

    /// The interleaved records of the first `n` vertices.
    pub open spec fn records(&self, n: nat) -> Seq<u32> {
        Seq::new(8 * n, |j: int| self.record_word(j / 8, j % 8))
    }

    /// The interleaved records of all vertices.
    pub open spec fn interleaved(&self) -> Seq<u32> {
        self.records(self.vertex_count())
    }
}

/// The vertex buffer of the first `n` models: their records, one model after the other.
pub open spec fn joined_vertices(models: Seq<ObjModel>, n: nat) -> Seq<u32>
    decreases n,
{
    if n == 0 {
        Seq::empty()
    } else {
        joined_vertices(models, (n - 1) as nat) + models[n - 1].interleaved()
    }
}

/// The index buffer of the first `n` models, one model after the other: the
/// indices of each model, increased by the number of vertices of the models
/// before it, so that each refers to its vertex's record in the joined
/// vertex buffer.
pub open spec fn joined_indices(models: Seq<ObjModel>, n: nat) -> Seq<u32>
    decreases n,
{
    if n == 0 {
        Seq::empty()
    } else {
        joined_indices(models, (n - 1) as nat) + models[n - 1].rebased(
            joined_vertex_count(models, (n - 1) as nat),
        )
    }
}

/// Total number of indices of the first `n` models.
pub open spec fn joined_index_count(models: Seq<ObjModel>, n: nat) -> nat
    decreases n,
{
    if n == 0 {
        0
    } else {
        joined_index_count(models, (n - 1) as nat) + models[n - 1].indices@.len()
    }
}

/// The place in the joined index buffer of index `c` of model `k`.
pub open spec fn index_place(models: Seq<ObjModel>, k: int, c: int) -> int {
    joined_index_count(models, k as nat) + c
}

/// Every one of the first `n` models describes whole triangles.
pub open spec fn whole_triangles(models: Seq<ObjModel>, n: nat) -> bool {
    forall|k: int| 0 <= k < n ==> (#[trigger] models[k]).indices@.len() % 3 == 0
}

/// Total number of vertices of the first `n` models.
pub open spec fn joined_vertex_count(models: Seq<ObjModel>, n: nat) -> nat
    decreases n,
{
    if n == 0 {
        0
    } else {
        joined_vertex_count(models, (n - 1) as nat) + models[n - 1].vertex_count()
    }
}

/// The first defect among the first `n` models, in model order.
pub open spec fn first_defect(models: Seq<ObjModel>, n: nat) -> Option<MeshError>
    decreases n,
{
    if n == 0 {
        None
    } else {
        match first_defect(models, (n - 1) as nat) {
            Some(e) => Some(e),
            None => models[n - 1].defect(joined_vertex_count(models, (n - 1) as nat)),
        }
    }
}

impl Mesh {
    /// Number of vertex records.
    pub open spec fn vertex_count(&self) -> nat {
        self.vertices@.len() / 8
    }

    /// Number of triangles that the index buffer describes.
    pub open spec fn triangle_count(&self) -> nat {
        self.indices@.len() / 3
    }

    /// The vertex buffer holds whole records and every index refers to one.
    pub open spec fn wf(&self) -> bool {
        &&& self.vertices@.len() % 8 == 0
        &&& forall|k: int| 0 <= k < self.indices@.len() ==> (#[trigger] self.indices@[k]) < self.vertex_count()
    }

    /// This mesh is what the given models assemble to.
    pub open spec fn assembled_from(&self, models: Seq<ObjModel>) -> bool {
        &&& self.vertices@ == joined_vertices(models, models.len())
        &&& self.indices@ == joined_indices(models, models.len())
    }
}

impl ObjModel {
    /// Finds what is wrong with this model when `offset` vertices precede its
    /// own in the mesh, looking at the normals first, then at the texture
    /// coordinates, then at the range of the indices, then at their size.
    pub fn check(&self, offset: usize) -> (found: Option<MeshError>)
        ensures
            found == self.defect(offset as nat),
    {
        let count: usize = self.positions.len() / 3;
        if self.normals.len() != 0 && self.normals.len() < 3 * count {
            return Some(MeshError::NormalsTooShort);
        }
        if self.texcoords.len() != 0 && self.texcoords.len() < 2 * count {
            return Some(MeshError::TexcoordsTooShort);
        }
        let mut k: usize = 0;
        while k < self.indices.len()
            invariant
                k <= self.indices@.len(),
                count == self.vertex_count(),
                self.normals_cover(),
                self.texcoords_cover(),
                forall|j: int| 0 <= j < k ==> (#[trigger] self.indices@[j]) < count,
            decreases self.indices@.len() - k,
        {
            if self.indices[k] as usize >= count {
                assert(!(self.indices@[k as int] < self.vertex_count()));
                return Some(MeshError::IndexOutOfRange);
            }
            k += 1;
        }
        let mut c: usize = 0;
        while c < self.indices.len()
            invariant
                c <= self.indices@.len(),
                self.normals_cover(),
                self.texcoords_cover(),
                self.indices_in_range(),
                forall|j: int| 0 <= j < c ==> offset + (#[trigger] self.indices@[j]) <= u32::MAX,
            decreases self.indices@.len() - c,
        {
            if offset > 0xffff_ffff || self.indices[c] as usize > 0xffff_ffff - offset {
                assert(!(offset + self.indices@[c as int] <= u32::MAX));
                return Some(MeshError::IndexOverflow);
            }
            c += 1;
        }
        None
    }

    /// Appends the interleaved record of every vertex of this model to `vertices`.
    pub fn append_records(&self, vertices: &mut Vec<u32>)
        requires
            self.attributes_cover(),
        ensures
            final(vertices)@ == old(vertices)@ + self.interleaved(),
    {
        let count: usize = self.positions.len() / 3;
        let has_normals: bool = self.normals.len() != 0;
        let has_texcoords: bool = self.texcoords.len() != 0;
        let ghost before = vertices@;
        let mut v: usize = 0;
        assert(self.records(0) =~= Seq::<u32>::empty());
        assert(before + self.records(0) =~= before);
        while v < count
            invariant
                v <= count,
                count == self.vertex_count(),
                3 * count <= self.positions@.len() <= usize::MAX,
                self.attributes_cover(),
                has_normals == (self.normals@.len() != 0),
                has_texcoords == (self.texcoords@.len() != 0),
                vertices@ == before + self.records(v as nat),
            decreases count - v,
        {
            let ghost so_far = vertices@;
            vertices.push(self.positions[v * 3]);
            vertices.push(self.positions[v * 3 + 1]);
            vertices.push(self.positions[v * 3 + 2]);
            if has_normals {
                vertices.push(self.normals[v * 3]);
                vertices.push(self.normals[v * 3 + 1]);
                vertices.push(self.normals[v * 3 + 2]);
            } else {
                vertices.push(0);
                vertices.push(0);
                vertices.push(0);
            }
            if has_texcoords {
                vertices.push(self.texcoords[v * 2]);
                vertices.push(self.texcoords[v * 2 + 1]);
            } else {
                vertices.push(0);
                vertices.push(0);
            }
            proof {
                let next = self.records((v + 1) as nat);
                assert(vertices@.len() == before.len() + 8 * v + 8);
                assert forall|j: int| 0 <= j < vertices@.len() implies vertices@[j] == (before + next)[j] by {
                    if j >= before.len() + 8 * v {
                        let r = j - before.len();
                        assert(r / 8 == v as int);
                        assert(r % 8 == r - 8 * v);
                    } else {
                        assert(vertices@[j] == so_far[j]);
                    }
                }
                assert(vertices@ =~= before + next);
            }
            v += 1;
        }
    }

    /// Appends this model's indices to `indices`, each increased by `offset`.
    pub fn append_indices(&self, indices: &mut Vec<u32>, offset: usize)
        requires
            self.indices_fit(offset as nat),
        ensures
            final(indices)@ == old(indices)@ + self.rebased(offset as nat),
    {
        let ghost before = indices@;
        let mut c: usize = 0;
        assert(before + self.rebased(offset as nat).subrange(0, 0) =~= before);
        while c < self.indices.len()
            invariant
                c <= self.indices@.len(),
                self.indices_fit(offset as nat),
                indices@ == before + self.rebased(offset as nat).subrange(0, c as int),
            decreases self.indices@.len() - c,
        {
            let local: u32 = self.indices[c];
            assert(offset + self.indices@[c as int] <= u32::MAX);
            let index: u32 = (offset + local as usize) as u32;
            indices.push(index);
            assert(indices@ =~= before + self.rebased(offset as nat).subrange(0, c + 1));
            c += 1;
        }
        assert(self.rebased(offset as nat).subrange(0, c as int) =~= self.rebased(offset as nat));
    }
}

/// Checks the models in order and assembles them into one mesh: every
/// model's attributes interleaved into the vertex buffer, and its indices,
/// increased by the number of vertices before it, into the index buffer.
/// Fails with the first defect of the first defective model, and on no other
/// input.
pub fn load_mesh(models: &Vec<ObjModel>) -> (loaded: Result<Mesh, MeshError>)
    ensures
        match first_defect(models@, models@.len()) {
            Some(e) => loaded == Err::<Mesh, MeshError>(e),
            None => {
                &&& loaded.is_ok()
                &&& loaded.unwrap().assembled_from(models@)
                &&& loaded.unwrap().wf()
                &&& loaded.unwrap().vertex_count() == joined_vertex_count(models@, models@.len())
                &&& loaded.unwrap().indices@.len() == joined_index_count(models@, models@.len())
                &&& forall|k: int, c: int|
                    0 <= k < models@.len() && 0 <= c < models@[k].indices@.len() ==> loaded.unwrap().indices@[#[trigger] index_place(
                        models@,
                        k,
                        c,
                    )] == joined_vertex_count(models@, k as nat) + models@[k].indices@[c]
                &&& whole_triangles(models@, models@.len()) ==> loaded.unwrap().indices@.len() % 3
                    == 0
            },
        },
{
    let mut vertices: Vec<u32> = Vec::new();
    let mut indices: Vec<u32> = Vec::new();
    let mut m: usize = 0;
    while m < models.len()
        invariant
            m <= models@.len(),
            first_defect(models@, m as nat).is_none(),
            vertices@ == joined_vertices(models@, m as nat),
            indices@ == joined_indices(models@, m as nat),
        decreases models@.len() - m,
    {
        proof {
            lemma_vertex_buffer_len(models@, m as nat);
        }
        let offset: usize = vertices.len() / 8;
        let model = &models[m];
        match model.check(offset) {
            Some(e) => {
                proof {
                    lemma_defect_stays(models@, (m + 1) as nat, models@.len());
                }
                return Err(e);
            },
            None => {},
        }
        model.append_records(&mut vertices);
        model.append_indices(&mut indices, offset);
        m += 1;
    }
    let mesh = Mesh { vertices, indices };
    proof {
        lemma_assembled_mesh_is_sound(mesh, models@);
        lemma_index_buffer_len(models@, models@.len());
        assert forall|k: int, c: int|
            0 <= k < models@.len() && 0 <= c < models@[k].indices@.len() implies mesh.indices@[#[trigger] index_place(
            models@,
            k,
            c,
        )] == joined_vertex_count(models@, k as nat) + models@[k].indices@[c] by {
            lemma_index_placement(models@, models@.len(), k as nat, c as nat);
        }
        if whole_triangles(models@, models@.len()) {
            lemma_whole_triangles(models@, models@.len());
        }
    }
    Ok(mesh)
}

/// A defect found among the first `n` models is still the first defect when
/// more models follow.
pub proof fn lemma_defect_stays(models: Seq<ObjModel>, n: nat, total: nat)
    requires
        n <= total,
        first_defect(models, n).is_some(),
    ensures
        first_defect(models, total) == first_defect(models, n),
    decreases total,
{
    if n < total {
        lemma_defect_stays(models, n, (total - 1) as nat);
    }
}

/// The vertex buffer of the first `n` models holds eight words for each of
/// their vertices.
pub proof fn lemma_vertex_buffer_len(models: Seq<ObjModel>, n: nat)
    ensures
        joined_vertices(models, n).len() == 8 * joined_vertex_count(models, n),
    decreases n,
{
    if n > 0 {
        lemma_vertex_buffer_len(models, (n - 1) as nat);
    }
}

/// The index buffer of the first `n` models holds each of their indices once.
pub proof fn lemma_index_buffer_len(models: Seq<ObjModel>, n: nat)
    ensures
        joined_indices(models, n).len() == joined_index_count(models, n),
    decreases n,
{
    if n > 0 {
        lemma_index_buffer_len(models, (n - 1) as nat);
    }
}

/// Where each of the first `n` models describes whole triangles, so does the
/// joined index buffer.
pub proof fn lemma_whole_triangles(models: Seq<ObjModel>, n: nat)
    requires
        whole_triangles(models, n),
    ensures
        joined_indices(models, n).len() % 3 == 0,
        joined_index_count(models, n) % 3 == 0,
    decreases n,
{
    lemma_index_buffer_len(models, n);
    if n > 0 {
        lemma_whole_triangles(models, (n - 1) as nat);
        lemma_index_buffer_len(models, (n - 1) as nat);
        assert(models[n - 1].indices@.len() % 3 == 0);
    }
}

/// Where none of the first `n` models has a defect, none of the first `k` has.
pub proof fn lemma_no_defect_before(models: Seq<ObjModel>, k: nat, n: nat)
    requires
        k <= n,
        first_defect(models, n).is_none(),
    ensures
        first_defect(models, k).is_none(),
        k < n ==> models[k as int].defect(joined_vertex_count(models, k)).is_none(),
    decreases n,
{
    if k < n {
        if k + 1 < n {
            lemma_no_defect_before(models, k, (n - 1) as nat);
        }
    }
}

/// Where the first `n` models are free of defects, index `c` of model `k`
/// stands in the joined index buffer after the indices of the models before
/// it, increased by the number of their vertices.
pub proof fn lemma_index_placement(models: Seq<ObjModel>, n: nat, k: nat, c: nat)
    requires
        k < n,
        first_defect(models, n).is_none(),
        c < models[k as int].indices@.len(),
    ensures
        index_place(models, k as int, c as int) < joined_indices(models, n).len(),
        joined_indices(models, n)[index_place(models, k as int, c as int)] == joined_vertex_count(
            models,
            k,
        ) + models[k as int].indices@[c as int],
    decreases n,
{
    lemma_index_buffer_len(models, n);
    lemma_index_buffer_len(models, (n - 1) as nat);
    if k + 1 < n {
        lemma_no_defect_before(models, (n - 1) as nat, n);
        lemma_index_placement(models, (n - 1) as nat, k, c);
    } else {
        let model = models[k as int];
        let offset = joined_vertex_count(models, k);
        assert(model.defect(offset).is_none());
        assert(model.indices_fit(offset));
        assert(offset + model.indices@[c as int] <= u32::MAX);
        assert(model.rebased(offset)[c as int] == offset + model.indices@[c as int]);
    }
}

/// Where the first `n` models are free of defects, every index of the joined
/// index buffer is below the joined vertex count.
pub proof fn lemma_indices_refer_to_vertices(models: Seq<ObjModel>, n: nat)
    requires
        first_defect(models, n).is_none(),
    ensures
        forall|i: int| 0 <= i < joined_indices(models, n).len() ==>
            (#[trigger] joined_indices(models, n)[i]) < joined_vertex_count(models, n),
    decreases n,
{
    if n > 0 {
        lemma_indices_refer_to_vertices(models, (n - 1) as nat);
        let last = models[n - 1];
        let offset = joined_vertex_count(models, (n - 1) as nat);
        assert(last.defect(offset).is_none());
        assert(last.indices_in_range());
        assert(last.indices_fit(offset));
        let head = joined_indices(models, (n - 1) as nat);
        assert forall|i: int| 0 <= i < joined_indices(models, n).len() implies
            (#[trigger] joined_indices(models, n)[i]) < joined_vertex_count(models, n) by {
            if i >= head.len() {
                let c = i - head.len();
                assert(joined_indices(models, n)[i] == last.rebased(offset)[c]);
                assert(last.indices@[c] < last.vertex_count());
                assert(offset + last.indices@[c] <= u32::MAX);
            } else {
                assert(joined_indices(models, n)[i] == head[i]);
            }
        }
    }
}

/// Where the first `n` models are free of defects, the index that stands for
/// index `c` of model `k` refers, in the joined vertex buffer, to the record
/// of the vertex that the model's own index names.
pub proof fn lemma_index_refers_to_its_vertex(
    models: Seq<ObjModel>,
    n: nat,
    k: nat,
    c: nat,
    slot: nat,
)
    requires
        k < n,
        first_defect(models, n).is_none(),
        c < models[k as int].indices@.len(),
        slot < 8,
    ensures
        index_place(models, k as int, c as int) < joined_indices(models, n).len(),
        8 * joined_indices(models, n)[index_place(models, k as int, c as int)] + slot
            < joined_vertices(models, n).len(),
        joined_vertices(models, n)[8 * joined_indices(models, n)[index_place(
            models,
            k as int,
            c as int,
        )] + slot] == models[k as int].record_word(
            models[k as int].indices@[c as int] as int,
            slot as int,
        ),
{
    lemma_index_placement(models, n, k, c);
    lemma_no_defect_before(models, k, n);
    let model = models[k as int];
    assert(model.indices_in_range());
    let v = model.indices@[c as int];
    assert(v < model.vertex_count());
    lemma_record_placement(models, n, k, v as nat, slot);
}

/// The vertex count of the first `k` models never exceeds that of the first `n`,
/// and model `k` itself fits between the two.
pub proof fn lemma_vertex_count_grows(models: Seq<ObjModel>, k: nat, n: nat)
    requires
        k < n,
    ensures
        joined_vertex_count(models, k) + models[k as int].vertex_count() <= joined_vertex_count(
            models,
            n,
        ),
    decreases n,
{
    if k + 1 < n {
        lemma_vertex_count_grows(models, k, (n - 1) as nat);
    }
}

/// In the joined vertex buffer, the record of vertex `v` of model `k` starts
/// eight words after each vertex that precedes it, and its word `slot` is the
/// model's position, its normal or texture coordinate where the model has
/// them, and zero exactly where it has none.
pub proof fn lemma_record_placement(models: Seq<ObjModel>, n: nat, k: nat, v: nat, slot: nat)
    requires
        k < n,
        v < models[k as int].vertex_count(),
        slot < 8,
    ensures
        8 * (joined_vertex_count(models, k) + v) + slot < joined_vertices(models, n).len(),
        joined_vertices(models, n)[(8 * (joined_vertex_count(models, k) + v) + slot) as int]
            == models[k as int].record_word(v as int, slot as int),
    decreases n,
{
    lemma_vertex_buffer_len(models, k);
    lemma_vertex_buffer_len(models, n);
    lemma_vertex_count_grows(models, k, n);
    if k + 1 < n {
        lemma_record_placement(models, (n - 1) as nat, k, v, slot);
    } else {
        let j: int = (8 * v + slot) as int;
        assert(j / 8 == v as int);
        assert(j % 8 == slot as int);
        assert(models[k as int].interleaved()[j] == models[k as int].record_word(v as int, slot as int));
    }
}

/// A vertex record holds the model's position, then its normal and its texture
/// coordinate where the model has them, and zeros exactly where it has none.
pub proof fn lemma_absent_attributes_are_zero(model: ObjModel, v: int, slot: int)
    requires
        0 <= slot < 8,
    ensures
        slot < 3 ==> model.record_word(v, slot) == model.positions@[3 * v + slot],
        3 <= slot < 6 && model.normals@.len() == 0 ==> model.record_word(v, slot) == 0,
        3 <= slot < 6 && model.normals@.len() != 0 ==> model.record_word(v, slot)
            == model.normals@[3 * v + slot - 3],
        6 <= slot && model.texcoords@.len() == 0 ==> model.record_word(v, slot) == 0,
        6 <= slot && model.texcoords@.len() != 0 ==> model.record_word(v, slot)
            == model.texcoords@[2 * v + slot - 6],
{
}

/// A mesh assembled from models without defects has one record for each of
/// their vertices, holds whole records only, and every index of it refers to
/// one of its vertices.
pub proof fn lemma_assembled_mesh_is_sound(mesh: Mesh, models: Seq<ObjModel>)
    requires
        mesh.assembled_from(models),
        first_defect(models, models.len()).is_none(),
    ensures
        mesh.vertex_count() == joined_vertex_count(models, models.len()),
        mesh.wf(),
{
    lemma_vertex_buffer_len(models, models.len());
    lemma_indices_refer_to_vertices(models, models.len());
}

} // verus!
