//! Mesh instances and the scene flattener.
//!
//! A `Model` owns an immutable vertex and index list and a mutable
//! transform. `ModelCollection::from_vec` merges an ordered list of models
//! into one draw-ready vertex list and one index list: every vertex is
//! carried through its instance's transform, and every index is rebased by
//! the number of vertices merged before its instance, so the merged index
//! list stays valid against the merged vertex list.

use vstd::prelude::*;
use crate::transform::{Matrix4, identity_cols, is_transformed, transform_vertex};
use crate::vertex::{make_square_indices, square_indices, lemma_square_indices_in_range, Index,
    Vertex};

verus! {

/// One mesh instance: immutable geometry plus a per-frame transform.
#[derive(Clone)]
pub struct Model {
    vertices: Vec<Vertex>,
    indices: Vec<Index>,
    matrix: Matrix4,
}

impl Model {
    /// The instance's vertices.
    pub closed spec fn spec_vertices(&self) -> Seq<Vertex> {
        self.vertices@
    }

    /// The instance's triangle indices.
    pub closed spec fn spec_indices(&self) -> Seq<u32> {
        self.indices@
    }

    /// The instance's current transform, column-major.
    pub closed spec fn spec_matrix(&self) -> Seq<u32> {
        self.matrix.cols@
    }

    /// Every index addresses one of the instance's own vertices.
    pub open spec fn wf(&self) -> bool {
        forall|i: int|
            0 <= i < self.spec_indices().len() ==> (self.spec_indices()[i] as int)
                < self.spec_vertices().len()
    }

    /// A new instance with the identity transform.
    pub fn new(vertices: Vec<Vertex>, indices: Vec<Index>) -> (m: Model)
        ensures
            m.spec_vertices() == vertices@,
            m.spec_indices() == indices@,
            m.spec_matrix() == identity_cols(),
    {
        Model { vertices, indices, matrix: Matrix4::identity() }
    }

    /// A new instance whose indices draw every four consecutive vertices as
    /// a quad, with the identity transform.
    pub fn new_cube(vertices: Vec<Vertex>) -> (m: Model)
        requires
            vertices@.len() % 4 == 0,
            vertices@.len() <= u32::MAX,
        ensures
            m.spec_vertices() == vertices@,
            m.spec_indices() == square_indices((vertices@.len() / 4) as int),
            m.spec_matrix() == identity_cols(),
            m.wf(),
    {
        let indices = make_square_indices(&vertices);
        proof {
            lemma_square_indices_in_range((vertices@.len() / 4) as int);
        }
        Model { vertices, indices, matrix: Matrix4::identity() }
    }

    /// A copy of the index list.
    pub fn indices(&self) -> (r: Vec<Index>)
        ensures
            r@ == self.spec_indices(),
    {
        copy_indices(&self.indices)
    }

    /// A copy of the vertex list.
    pub fn vertices(&self) -> (r: Vec<Vertex>)
        ensures
            r@ == self.spec_vertices(),
    {
        copy_vertices(&self.vertices)
    }

    /// The current transform.
    pub fn matrix(&self) -> (r: Matrix4)
        ensures
            r.cols@ == self.spec_matrix(),
    {
        self.matrix
    }

    /// Replaces the transform; the geometry is untouched.
    pub fn set_matrix(&mut self, matrix: Matrix4)
        ensures
            final(self).spec_matrix() == matrix.cols@,
            final(self).spec_vertices() == old(self).spec_vertices(),
            final(self).spec_indices() == old(self).spec_indices(),
            final(self).wf() == old(self).wf(),
    {
        self.matrix = matrix;
    }
}

fn copy_vertices(src: &Vec<Vertex>) -> (r: Vec<Vertex>)
    ensures
        r@ == src@,
{
    let mut r: Vec<Vertex> = Vec::new();
    for j in 0..src.len()
        invariant
            r@ =~= src@.take(j as int),
    {
        r.push(src[j]);
        assert(r@ =~= src@.take(j + 1 as int));
    }
    assert(src@.take(src@.len() as int) =~= src@);
    r
}

fn copy_indices(src: &Vec<Index>) -> (r: Vec<Index>)
    ensures
        r@ == src@,
{
    let mut r: Vec<Index> = Vec::new();
    for j in 0..src.len()
        invariant
            r@ =~= src@.take(j as int),
    {
        r.push(src[j]);
        assert(r@ =~= src@.take(j + 1 as int));
    }
    assert(src@.take(src@.len() as int) =~= src@);
    r
}

/// Combined vertex count of all models in the list.
pub open spec fn total_vertices(models: Seq<Model>) -> int
    decreases models.len(),
{
    if models.len() <= 0 {
        0
    } else {
        total_vertices(models.drop_last()) + models.last().spec_vertices().len()
    }
}

/// Combined index count of all models in the list.
pub open spec fn total_indices(models: Seq<Model>) -> int
    decreases models.len(),
{
    if models.len() <= 0 {
        0
    } else {
        total_indices(models.drop_last()) + models.last().spec_indices().len()
    }
}

/// Where model `k`'s vertices start in the merged vertex list: the combined
/// vertex count of the models before it.
pub open spec fn vertex_base(models: Seq<Model>, k: int) -> int {
    total_vertices(models.take(k))
}

/// Where model `k`'s indices start in the merged index list.
pub open spec fn index_base(models: Seq<Model>, k: int) -> int {
    total_indices(models.take(k))
}

proof fn lemma_total_step(models: Seq<Model>, i: int)
    requires
        0 <= i < models.len(),
    ensures
        total_vertices(models.take(i + 1)) == total_vertices(models.take(i))
            + models[i].spec_vertices().len(),
        total_indices(models.take(i + 1)) == total_indices(models.take(i))
            + models[i].spec_indices().len(),
{
    assert(models.take(i + 1).drop_last() =~= models.take(i));
    assert(models.take(i + 1).last() == models[i]);
}

proof fn lemma_total_nonneg(models: Seq<Model>)
    ensures
        0 <= total_vertices(models),
        0 <= total_indices(models),
    decreases models.len(),
{
    if models.len() > 0 {
        lemma_total_nonneg(models.drop_last());
    }
}

proof fn lemma_total_prefix_bound(models: Seq<Model>, i: int)
    requires
        0 <= i <= models.len(),
    ensures
        total_vertices(models.take(i)) <= total_vertices(models),
        total_indices(models.take(i)) <= total_indices(models),
    decreases models.len() - i,
{
    if i == models.len() {
        assert(models.take(i) =~= models);
    } else {
        lemma_total_step(models, i);
        lemma_total_prefix_bound(models, i + 1);
    }
}

/// Position of model `k`'s vertex `j` in the merged vertex list.
pub open spec fn vertex_slot(models: Seq<Model>, k: int, j: int) -> int {
    vertex_base(models, k) + j
}

/// Position of model `k`'s index `j` in the merged index list.
pub open spec fn index_slot(models: Seq<Model>, k: int, j: int) -> int {
    index_base(models, k) + j
}

/// Every position in the merged vertex list belongs to exactly one
/// instance: it is that instance's base offset plus the index of one of
/// its own vertices, and likewise for the merged index list. Together with
/// `ModelCollection::from_vec`'s contract this pins every entry of both
/// merged lists.
pub proof fn lemma_merged_position_decomposition(models: Seq<Model>, i: int)
    ensures
        0 <= i < total_vertices(models) ==> exists|k: int, j: int|
            0 <= k < models.len() && 0 <= j < models[k].spec_vertices().len() && i
                == #[trigger] vertex_slot(models, k, j),
        0 <= i < total_indices(models) ==> exists|k: int, j: int|
            0 <= k < models.len() && 0 <= j < models[k].spec_indices().len() && i
                == #[trigger] index_slot(models, k, j),
    decreases models.len(),
{
    if models.len() > 0 {
        let n = models.len() as int;
        lemma_merged_position_decomposition(models.drop_last(), i);
        assert(models.take(n - 1) =~= models.drop_last());
        assert forall|k: int| 0 <= k < n - 1 implies #[trigger] models.drop_last().take(k)
            =~= models.take(k) by {}
        if 0 <= i < total_vertices(models) {
            if i >= total_vertices(models.drop_last()) {
                lemma_total_nonneg(models.drop_last());
                let j = i - vertex_base(models, n - 1);
                assert(0 <= j < models[n - 1].spec_vertices().len() && i == vertex_slot(
                    models,
                    n - 1,
                    j,
                ));
            } else {
                lemma_total_nonneg(models.drop_last());
                let (k, j): (int, int) = choose|k: int, j: int|
                    0 <= k < models.drop_last().len() && 0 <= j < models.drop_last()[
                        k
                    ].spec_vertices().len() && i == vertex_slot(models.drop_last(), k, j);
                assert(0 <= k < models.len() && 0 <= j < models[k].spec_vertices().len() && i
                    == vertex_slot(models, k, j));
            }
        }
        if 0 <= i < total_indices(models) {
            if i >= total_indices(models.drop_last()) {
                lemma_total_nonneg(models.drop_last());
                let j = i - index_base(models, n - 1);
                assert(0 <= j < models[n - 1].spec_indices().len() && i == index_slot(
                    models,
                    n - 1,
                    j,
                ));
            } else {
                lemma_total_nonneg(models.drop_last());
                let (k, j): (int, int) = choose|k: int, j: int|
                    0 <= k < models.drop_last().len() && 0 <= j < models.drop_last()[
                        k
                    ].spec_indices().len() && i == index_slot(models.drop_last(), k, j);
                assert(0 <= k < models.len() && 0 <= j < models[k].spec_indices().len() && i
                    == index_slot(models, k, j));
            }
        }
    }
}

/// Model `m`'s vertices, each carried through `m`'s transform.
fn transformed_vertices(m: &Model) -> (out: Vec<Vertex>)
    ensures
        out@.len() == m.spec_vertices().len(),
        forall|j: int|
            0 <= j < out@.len() ==> is_transformed(m.spec_matrix(), m.spec_vertices()[j], out@[j]),
{
    let mut out: Vec<Vertex> = Vec::new();
    for j in 0..m.vertices.len()
        invariant
            out@.len() == j,
            forall|jj: int|
                0 <= jj < j ==> is_transformed(m.spec_matrix(), m.spec_vertices()[jj], out@[jj]),
    {
        out.push(transform_vertex(&m.matrix, &m.vertices[j]));
    }
    out
}

/// Model `m`'s indices, each rebased by `base`.
fn rebased_indices(m: &Model, base: u32) -> (out: Vec<Index>)
    requires
        m.wf(),
        base + m.spec_vertices().len() <= u32::MAX,
    ensures
        out@.len() == m.spec_indices().len(),
        forall|j: int|
            0 <= j < out@.len() ==> (out@[j] as int) == m.spec_indices()[j] + base,
{
    let mut out: Vec<Index> = Vec::new();
    for j in 0..m.indices.len()
        invariant
            m.wf(),
            base + m.spec_vertices().len() <= u32::MAX,
            out@.len() == j,
            forall|jj: int|
                0 <= jj < j ==> (out@[jj] as int) == m.spec_indices()[jj] + base,
    {
        assert((m.spec_indices()[j as int] as int) < m.spec_vertices().len());
        out.push(m.indices[j] + base);
    }
    out
}

/// The merged, draw-ready scene: one vertex list and one index list,
/// recomputed from the current instance transforms every frame.
#[derive(Clone)]
pub struct ModelCollection {
    vertices: Vec<Vertex>,
    indices: Vec<Index>,
}

impl ModelCollection {
    /// The merged vertex list.
    pub closed spec fn spec_vertices(&self) -> Seq<Vertex> {
        self.vertices@
    }

    /// The merged index list.
    pub closed spec fn spec_indices(&self) -> Seq<u32> {
        self.indices@
    }

    /// Flattens the ordered instance list: each instance's vertices are
    /// carried through its transform and appended, and its indices are
    /// appended rebased by the vertex count merged before it. No index of
    /// the result dangles.
    pub fn from_vec(models: Vec<Model>) -> (c: ModelCollection)
        requires
            forall|k: int| 0 <= k < models@.len() ==> models@[k].wf(),
            total_vertices(models@) <= u32::MAX,
        ensures
            c.spec_vertices().len() == total_vertices(models@),
            c.spec_indices().len() == total_indices(models@),
            forall|k: int, j: int|
                0 <= k < models@.len() && 0 <= j < models@[k].spec_vertices().len()
                    ==> is_transformed(
                    models@[k].spec_matrix(),
                    #[trigger] models@[k].spec_vertices()[j],
                    c.spec_vertices()[vertex_base(models@, k) + j],
                ),
            forall|k: int, j: int|
                0 <= k < models@.len() && 0 <= j < models@[k].spec_indices().len() ==> (
                c.spec_indices()[index_base(models@, k) + j] as int)
                    == #[trigger] models@[k].spec_indices()[j] + vertex_base(models@, k),
            forall|i: int|
                0 <= i < c.spec_indices().len() ==> (#[trigger] c.spec_indices()[i] as int)
                    < c.spec_vertices().len(),
    {
        let mut vertices: Vec<Vertex> = Vec::new();
        let mut indices: Vec<Index> = Vec::new();
        let n = models.len();

        for i in 0..n
            invariant
                n == models@.len(),
                forall|k: int| 0 <= k < models@.len() ==> (#[trigger] models@[k]).wf(),
                total_vertices(models@) <= u32::MAX,
                vertices@.len() == total_vertices(models@.take(i as int)),
                indices@.len() == total_indices(models@.take(i as int)),
                forall|k: int, j: int|
                    0 <= k < i && 0 <= j < models@[k].spec_vertices().len() ==> is_transformed(
                        models@[k].spec_matrix(),
                        #[trigger] models@[k].spec_vertices()[j],
                        vertices@[vertex_base(models@, k) + j],
                    ),
                forall|k: int, j: int|
                    0 <= k < i && 0 <= j < models@[k].spec_indices().len() ==> (
                    indices@[index_base(models@, k) + j] as int) == #[trigger] models@[
                        k
                    ].spec_indices()[j] + vertex_base(models@, k),
                forall|p: int|
                    0 <= p < indices@.len() ==> (#[trigger] indices@[p] as int) < vertices@.len(),
        {
            proof {
                lemma_total_nonneg(models@.take(i as int));
                lemma_total_step(models@, i as int);
                lemma_total_prefix_bound(models@, i as int + 1);
            }
            let ghost vsnap = vertices@;
            let ghost isnap = indices@;

            let base = vertices.len();
            let mut tv = transformed_vertices(&models[i]);
            let mut ri = rebased_indices(&models[i], base as u32);
            let ghost tvs = tv@;
            let ghost ris = ri@;
            vertices.append(&mut tv);
            indices.append(&mut ri);

            proof {
                assert(vertices@.len() == total_vertices(models@.take(i as int + 1)));
                assert(indices@.len() == total_indices(models@.take(i as int + 1)));
                assert forall|k: int, j: int|
                    0 <= k < i as int + 1 && 0 <= j < models@[k].spec_vertices().len()
                        implies is_transformed(
                        models@[k].spec_matrix(),
                        #[trigger] models@[k].spec_vertices()[j],
                        vertices@[vertex_base(models@, k) + j],
                    ) by {
                    if k < i as int {
                        lemma_total_prefix_bound(models@.take(i as int), k + 1);
                        assert(models@.take(i as int).take(k + 1) =~= models@.take(k + 1));
                        lemma_total_step(models@, k);
                        lemma_total_nonneg(models@.take(k));
                        assert(vertex_base(models@, k) + j < vsnap.len());
                        assert(vertices@[vertex_base(models@, k) + j] == vsnap[vertex_base(
                            models@,
                            k,
                        ) + j]);
                    } else {
                        assert(vertices@[vertex_base(models@, k) + j] == tvs[j]);
                    }
                }
                assert forall|k: int, j: int|
                    0 <= k < i as int + 1 && 0 <= j < models@[k].spec_indices().len() implies (
                indices@[index_base(models@, k) + j] as int) == #[trigger] models@[
                    k
                ].spec_indices()[j] + vertex_base(models@, k) by {
                    if k < i as int {
                        lemma_total_prefix_bound(models@.take(i as int), k + 1);
                        assert(models@.take(i as int).take(k + 1) =~= models@.take(k + 1));
                        lemma_total_step(models@, k);
                        lemma_total_nonneg(models@.take(k));
                        assert(index_base(models@, k) + j < isnap.len());
                        assert(indices@[index_base(models@, k) + j] == isnap[index_base(
                            models@,
                            k,
                        ) + j]);
                    } else {
                        assert(indices@[index_base(models@, k) + j] == ris[j]);
                    }
                }
            }
        }
        proof {
            assert(models@.take(n as int) =~= models@);
        }
        ModelCollection { vertices, indices }
    }

    /// A copy of the merged vertex list; merging must have produced at
    /// least one vertex.
    pub fn vertices(&self) -> (r: Vec<Vertex>)
        requires
            self.spec_vertices().len() > 0,
        ensures
            r@ == self.spec_vertices(),
    {
        copy_vertices(&self.vertices)
    }

    /// A copy of the merged index list; merging must have produced at
    /// least one index.
    pub fn indices(&self) -> (r: Vec<Index>)
        requires
            self.spec_indices().len() > 0,
        ensures
            r@ == self.spec_indices(),
    {
        copy_indices(&self.indices)
    }
}


} // verus!
