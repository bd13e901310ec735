//! What loading a model does once its file has been read: the raw attribute
//! arrays become vertices, every mesh gets its material and its textures,
//! and the tangent space of the vertices is filled in from the triangles
//! that meet in them.

use vstd::prelude::*;
use vstd::std_specs::ops::{DivSpec, MulSpec, NegSpec, SubSpec};

use crate::model::ModelVertex;
use crate::scalar::{
    add3, arithmetic, scale3, sub2, sub3, vector_difference, vector_scaled, vector_sum, Scalar,
};

verus! {

/// Why the arrays of a mesh cannot be used.
#[derive(Clone, Copy, Debug, PartialEq, Eq, Structural)]
pub enum MeshError {
    /// The index list does not end on a whole triangle.
    PartialTriangle { len: usize },
    /// The index at position `at` names no vertex.
    IndexOutOfRange { at: usize, index: u32 },
    /// There are fewer texture coordinates than the vertices need.
    MissingTexCoords { needed: usize, found: usize },
    /// There are fewer normals than the vertices need.
    MissingNormals { needed: usize, found: usize },
    /// There are more normals than vertices.
    ExtraNormals { vertices: usize, found: usize },
    /// There are more texture coordinates than vertices.
    ExtraTexCoords { vertices: usize, found: usize },
}

/// How often `vertex` occurs in `indices`: the number of triangle corners
/// that lie in it.
pub open spec fn occurrences(indices: Seq<u32>, vertex: int) -> nat
    decreases indices.len(),
{
    if indices.len() == 0 {
        0
    } else {
        occurrences(indices.drop_last(), vertex) + if indices.last() == vertex {
            1nat
        } else {
            0nat
        }
    }
}

/// Every index names one of `vertex_count` vertices.
pub open spec fn indices_in_range(indices: Seq<u32>, vertex_count: int) -> bool {
    forall|k: int| 0 <= k < indices.len() ==> (#[trigger] indices[k]) < vertex_count
}

/// A vertex cannot occur more often than there are indices.
pub proof fn lemma_occurrences_bound(indices: Seq<u32>, vertex: int)
    ensures
        occurrences(indices, vertex) <= indices.len(),
    decreases indices.len(),
{
    if indices.len() > 0 {
        lemma_occurrences_bound(indices.drop_last(), vertex);
    }
}

/// A vertex has no triangles exactly when no index names it: a count of zero
/// never hides a triangle, and a vertex that is left out is never counted.
pub proof fn lemma_untouched_vertex(indices: Seq<u32>, vertex: int)
    ensures
        occurrences(indices, vertex) == 0 <==> forall|k: int|
            0 <= k < indices.len() ==> (#[trigger] indices[k]) != vertex,
    decreases indices.len(),
{
    if indices.len() > 0 {
        let rest = indices.drop_last();
        lemma_untouched_vertex(rest, vertex);
        assert(indices.last() == indices[indices.len() - 1]);
        if occurrences(indices, vertex) == 0 {
            assert forall|k: int| 0 <= k < indices.len() implies (#[trigger] indices[k])
                != vertex by {
                if k < indices.len() - 1 {
                    assert(rest[k] == indices[k]);
                }
            }
        }
        if forall|k: int| 0 <= k < indices.len() ==> (#[trigger] indices[k]) != vertex {
            assert forall|k: int| 0 <= k < rest.len() implies (#[trigger] rest[k]) != vertex by {
                assert(rest[k] == indices[k]);
            }
        }
    }
}

/// Counts, for each of `vertex_count` vertices, the corners of the triangles
/// of `indices` that lie in it.
///
/// The indices are read three at a time. A list that does not end on a whole
/// triangle is refused; otherwise the first index that names no vertex is
/// reported.
pub fn triangles_included(indices: &Vec<u32>, vertex_count: usize) -> (result: Result<
    Vec<usize>,
    MeshError,
>)
    ensures
        match result {
            Ok(counts) => {
                &&& indices@.len() % 3 == 0
                &&& indices_in_range(indices@, vertex_count as int)
                &&& counts@.len() == vertex_count
                &&& forall|v: int|
                    0 <= v < vertex_count ==> (#[trigger] counts@[v]) == occurrences(indices@, v)
            },
            Err(MeshError::PartialTriangle { len }) => {
                &&& len == indices@.len()
                &&& len % 3 != 0
            },
            Err(MeshError::IndexOutOfRange { at, index }) => {
                &&& indices@.len() % 3 == 0
                &&& at < indices@.len()
                &&& index == indices@[at as int]
                &&& index >= vertex_count
                &&& indices_in_range(indices@.take(at as int), vertex_count as int)
            },
            Err(_) => false,
        },
{
    let len: usize = indices.len();
    if len % 3 != 0 {
        return Err(MeshError::PartialTriangle { len });
    }
    let mut counts: Vec<usize> = Vec::new();
    let mut v: usize = 0;
    while v < vertex_count
        invariant
            0 <= v <= vertex_count,
            counts@.len() == v,
            forall|k: int| 0 <= k < v ==> (#[trigger] counts@[k]) == 0,
        decreases vertex_count - v,
    {
        counts.push(0);
        v = v + 1;
    }
    let mut i: usize = 0;
    while i < len
        invariant
            0 <= i <= len,
            len == indices@.len(),
            len % 3 == 0,
            counts@.len() == vertex_count,
            indices_in_range(indices@.take(i as int), vertex_count as int),
            forall|k: int|
                0 <= k < vertex_count ==> (#[trigger] counts@[k]) == occurrences(
                    indices@.take(i as int),
                    k,
                ),
        decreases len - i,
    {
        let index: u32 = indices[i];
        if index as usize >= vertex_count {
            return Err(MeshError::IndexOutOfRange { at: i, index });
        }
        let ghost before = counts@;
        proof {
            lemma_occurrences_bound(indices@.take(i as int), index as int);
            assert(indices@.take(i as int + 1).drop_last() =~= indices@.take(i as int));
            assert(indices@.take(i as int + 1).last() == index);
        }
        let count: usize = counts[index as usize];
        counts.set(index as usize, count + 1);
        proof {
            assert forall|k: int| 0 <= k < indices@.take(i as int + 1).len() implies (
            #[trigger] indices@.take(i as int + 1)[k]) < vertex_count by {
                if k < i {
                    assert(indices@.take(i as int)[k] == indices@[k]);
                }
            }
            assert forall|k: int| 0 <= k < vertex_count implies (#[trigger] counts@[k])
                == occurrences(indices@.take(i as int + 1), k) by {
                assert(before[k] == occurrences(indices@.take(i as int), k));
            }
        }
        i = i + 1;
    }
    proof {
        assert(indices@.take(len as int) =~= indices@);
    }
    Ok(counts)
}

/// What becomes of the sum of the tangents that the triangles of a vertex
/// have added up.
#[derive(Clone, Copy, Debug, PartialEq, Eq, Structural)]
pub enum Averaging {
    /// No triangle touches the vertex: its tangent is the zero vector.
    Zero,
    /// The sum is divided by the number of triangles, which is not zero.
    Mean { triangles: usize },
}

/// The averaging for a vertex that `count` triangle corners lie in. A vertex
/// without triangles is never divided by its count.
pub fn averaging(count: usize) -> (rule: Averaging)
    ensures
        count == 0 ==> rule == Averaging::Zero,
        count > 0 ==> rule == (Averaging::Mean { triangles: count }),
{
    if count == 0 {
        Averaging::Zero
    } else {
        Averaging::Mean { triangles: count }
    }
}

/// The reciprocal of the determinant of the texture-space edges of the
/// triangle `(v0, v1, v2)`: `1 / (du1.x * du2.y - du1.y * du2.x)`, where `du1`
/// and `du2` lead from `v0` to `v1` and to `v2`.
pub open spec fn triangle_scale<S: Scalar>(
    v0: ModelVertex<S>,
    v1: ModelVertex<S>,
    v2: ModelVertex<S>,
    one: S,
) -> S {
    let delta_uv1 = vector_difference(v1.tex_coords@, v0.tex_coords@);
    let delta_uv2 = vector_difference(v2.tex_coords@, v0.tex_coords@);
    one.div_spec(
        delta_uv1[0].mul_spec(delta_uv2[1]).sub_spec(delta_uv1[1].mul_spec(delta_uv2[0])),
    )
}

/// The tangent of the triangle `(v0, v1, v2)`:
/// `(dp1 * du2.y - dp2 * du1.y) * r`, where `dp1` and `dp2` are the edges
/// from `v0` in space, `du1` and `du2` the same edges in texture space, and
/// `r` is [`triangle_scale`].
pub open spec fn triangle_tangent<S: Scalar>(
    v0: ModelVertex<S>,
    v1: ModelVertex<S>,
    v2: ModelVertex<S>,
    one: S,
) -> Seq<S> {
    let delta_pos1 = vector_difference(v1.position@, v0.position@);
    let delta_pos2 = vector_difference(v2.position@, v0.position@);
    let delta_uv1 = vector_difference(v1.tex_coords@, v0.tex_coords@);
    let delta_uv2 = vector_difference(v2.tex_coords@, v0.tex_coords@);
    vector_scaled(
        vector_difference(
            vector_scaled(delta_pos1, delta_uv2[1]),
            vector_scaled(delta_pos2, delta_uv1[1]),
        ),
        triangle_scale(v0, v1, v2, one),
    )
}

/// The bitangent of the triangle `(v0, v1, v2)`:
/// `(dp2 * du1.x - dp1 * du2.x) * -r`, flipped for texture coordinates whose
/// y axis points down.
pub open spec fn triangle_bitangent<S: Scalar>(
    v0: ModelVertex<S>,
    v1: ModelVertex<S>,
    v2: ModelVertex<S>,
    one: S,
) -> Seq<S> {
    let delta_pos1 = vector_difference(v1.position@, v0.position@);
    let delta_pos2 = vector_difference(v2.position@, v0.position@);
    let delta_uv1 = vector_difference(v1.tex_coords@, v0.tex_coords@);
    let delta_uv2 = vector_difference(v2.tex_coords@, v0.tex_coords@);
    vector_scaled(
        vector_difference(
            vector_scaled(delta_pos2, delta_uv1[0]),
            vector_scaled(delta_pos1, delta_uv2[0]),
        ),
        triangle_scale(v0, v1, v2, one).neg_spec(),
    )
}

/// Tangent and bitangent of one triangle.
pub fn triangle_frame<S: Scalar>(
    v0: &ModelVertex<S>,
    v1: &ModelVertex<S>,
    v2: &ModelVertex<S>,
    one: S,
) -> (frame: ([S; 3], [S; 3]))
    requires
        arithmetic::<S>(),
    ensures
        frame.0@ == triangle_tangent(*v0, *v1, *v2, one),
        frame.1@ == triangle_bitangent(*v0, *v1, *v2, one),
{
    // the edges of the triangle
    let delta_pos1 = sub3(v1.position, v0.position);
    let delta_pos2 = sub3(v2.position, v0.position);

    // the same edges in texture space give the directions of tangent and bitangent
    let delta_uv1 = sub2(v1.tex_coords, v0.tex_coords);
    let delta_uv2 = sub2(v2.tex_coords, v0.tex_coords);

    // Solving the following system of equations gives tangent T and bitangent B:
    //     delta_pos1 = delta_uv1.x * T + delta_uv1.y * B
    //     delta_pos2 = delta_uv2.x * T + delta_uv2.y * B
    let r = one.div(delta_uv1[0].mul(delta_uv2[1]).sub(delta_uv1[1].mul(delta_uv2[0])));
    let tangent = scale3(
        sub3(scale3(delta_pos1, delta_uv2[1]), scale3(delta_pos2, delta_uv1[1])),
        r,
    );
    let bitangent = scale3(
        sub3(scale3(delta_pos2, delta_uv1[0]), scale3(delta_pos1, delta_uv2[0])),
        r.neg(),
    );
    (tangent, bitangent)
}

/// The three vertices of the triangle that corner `corner` of the index list
/// belongs to.
pub open spec fn corner_triangle<S>(
    vertices: Seq<ModelVertex<S>>,
    indices: Seq<u32>,
    corner: int,
) -> (ModelVertex<S>, ModelVertex<S>, ModelVertex<S>) {
    let first = 3 * (corner / 3);
    (
        vertices[indices[first] as int],
        vertices[indices[first + 1] as int],
        vertices[indices[first + 2] as int],
    )
}

/// Tangent and bitangent of vertex `vertex` once the first `corners` entries
/// of the index list have been taken in: what the vertex had at the start,
/// with the tangent and the bitangent of a triangle added on the left for
/// each corner of it that lies in the vertex, corner after corner.
pub open spec fn accumulated<S: Scalar>(
    vertices: Seq<ModelVertex<S>>,
    indices: Seq<u32>,
    vertex: int,
    corners: int,
    one: S,
) -> (Seq<S>, Seq<S>)
    decreases corners,
{
    if corners <= 0 {
        (vertices[vertex].tangent@, vertices[vertex].bitangent@)
    } else {
        let before = accumulated(vertices, indices, vertex, corners - 1, one);
        if indices[corners - 1] == vertex {
            let (v0, v1, v2) = corner_triangle(vertices, indices, corners - 1);
            (
                vector_sum(triangle_tangent(v0, v1, v2, one), before.0),
                vector_sum(triangle_bitangent(v0, v1, v2, one), before.1),
            )
        } else {
            before
        }
    }
}

/// Whether `vertex` holds the mean of the sums `sums` over `count` triangle
/// corners: the zero vector where there are none, and otherwise each sum
/// multiplied by `one / c`, where `c` is what `from_count` makes of the
/// count.
pub open spec fn averaged<S: Scalar, F: Fn(usize) -> S>(
    sums: (Seq<S>, Seq<S>),
    count: usize,
    vertex: ModelVertex<S>,
    zero: S,
    one: S,
    from_count: F,
) -> bool {
    if count == 0 {
        &&& vertex.tangent@ == seq![zero, zero, zero]
        &&& vertex.bitangent@ == seq![zero, zero, zero]
    } else {
        exists|c: S|
            {
                &&& call_ensures(from_count, (count,), c)
                &&& vertex.tangent@ == vector_scaled(sums.0, one.div_spec(c))
                &&& vertex.bitangent@ == vector_scaled(sums.1, one.div_spec(c))
            }
    }
}

/// Position, texture coordinates and normal of `after` are those of
/// `before`.
pub open spec fn same_surface<S>(before: ModelVertex<S>, after: ModelVertex<S>) -> bool {
    &&& after.position == before.position
    &&& after.tex_coords == before.tex_coords
    &&& after.normal == before.normal
}

/// Whether `after` holds the vertices `before` with their tangent space
/// filled in from the triangles of `indices`: each vertex keeps its place on
/// the surface and gets the mean of the tangents and of the bitangents of
/// the triangles that meet in it.
pub open spec fn has_tangent_space<S: Scalar, F: Fn(usize) -> S>(
    before: Seq<ModelVertex<S>>,
    indices: Seq<u32>,
    after: Seq<ModelVertex<S>>,
    zero: S,
    one: S,
    from_count: F,
) -> bool {
    &&& after.len() == before.len()
    &&& forall|v: int|
        0 <= v < before.len() ==> {
            &&& same_surface(before[v], #[trigger] after[v])
            &&& averaged(
                accumulated(before, indices, v, indices.len() as int, one),
                occurrences(indices, v) as usize,
                after[v],
                zero,
                one,
                from_count,
            )
        }
}

/// Adds the tangent and the bitangent of a triangle to one of its corners.
fn accumulate_corner<S: Scalar>(
    vertices: &mut Vec<ModelVertex<S>>,
    corner: usize,
    tangent: [S; 3],
    bitangent: [S; 3],
)
    requires
        arithmetic::<S>(),
        corner < old(vertices)@.len(),
    ensures
        final(vertices)@.len() == old(vertices)@.len(),
        forall|v: int|
            0 <= v < old(vertices)@.len() && v != corner ==> final(vertices)@[v] == old(
                vertices,
            )@[v],
        same_surface(old(vertices)@[corner as int], final(vertices)@[corner as int]),
        final(vertices)@[corner as int].tangent@ == vector_sum(
            tangent@,
            old(vertices)@[corner as int].tangent@,
        ),
        final(vertices)@[corner as int].bitangent@ == vector_sum(
            bitangent@,
            old(vertices)@[corner as int].bitangent@,
        ),
{
    let mut vertex = vertices[corner];
    vertex.tangent = add3(tangent, vertex.tangent);
    vertex.bitangent = add3(bitangent, vertex.bitangent);
    vertices.set(corner, vertex);
}

/// Fills in the tangent space of the vertices of a mesh.
///
/// The index list names triangles, three corners each. Every triangle adds
/// its tangent and its bitangent to each of its three corners; afterwards
/// every vertex is given the mean of what was added to it. A vertex that no
/// triangle touches gets the zero vector and is never divided by its count.
///
/// An index list that does not end on a whole triangle, or that names a
/// vertex that is not there, is refused and leaves the vertices as they are.
/// A triangle whose texture coordinates have no area is not refused: its
/// determinant is zero, and what it adds is whatever `one / 0` is in `S`.
pub fn calculate_normal_tangents<S: Scalar, F: Fn(usize) -> S>(
    indices: &Vec<u32>,
    vertices: &mut Vec<ModelVertex<S>>,
    zero: S,
    one: S,
    from_count: F,
) -> (result: Result<(), MeshError>)
    requires
        arithmetic::<S>(),
        forall|n: usize| call_requires(from_count, (n,)),
    ensures
        match result {
            Ok(_) => {
                &&& indices@.len() % 3 == 0
                &&& indices_in_range(indices@, old(vertices)@.len() as int)
                &&& has_tangent_space(
                    old(vertices)@,
                    indices@,
                    final(vertices)@,
                    zero,
                    one,
                    from_count,
                )
            },
            Err(MeshError::PartialTriangle { len }) => {
                &&& len == indices@.len()
                &&& len % 3 != 0
                &&& final(vertices)@ == old(vertices)@
            },
            Err(MeshError::IndexOutOfRange { at, index }) => {
                &&& indices@.len() % 3 == 0
                &&& at < indices@.len()
                &&& index == indices@[at as int]
                &&& index >= old(vertices)@.len()
                &&& indices_in_range(indices@.take(at as int), old(vertices)@.len() as int)
                &&& final(vertices)@ == old(vertices)@
            },
            Err(_) => false,
        },
{
    let triangles_included = match triangles_included(indices, vertices.len()) {
        Ok(counts) => counts,
        Err(error) => {
            return Err(error);
        },
    };
    let ghost before = vertices@;
    let triangles: usize = indices.len() / 3;

    // operate on triangles, three indices at a time
    let mut t: usize = 0;
    while t < triangles
        invariant
            arithmetic::<S>(),
            0 <= t <= triangles,
            triangles == indices@.len() / 3,
            indices@.len() % 3 == 0,
            3 * triangles == indices@.len(),
            indices@.len() <= usize::MAX,
            indices_in_range(indices@, before.len() as int),
            vertices@.len() == before.len(),
            forall|v: int|
                0 <= v < before.len() ==> {
                    &&& same_surface(before[v], #[trigger] vertices@[v])
                    &&& (vertices@[v].tangent@, vertices@[v].bitangent@) == accumulated(
                        before,
                        indices@,
                        v,
                        3 * t,
                        one,
                    )
                },
        decreases triangles - t,
    {
        let i0: usize = indices[3 * t] as usize;
        let i1: usize = indices[3 * t + 1] as usize;
        let i2: usize = indices[3 * t + 2] as usize;
        assert(indices@[3 * t] < before.len());
        assert(indices@[3 * t + 1] < before.len());
        assert(indices@[3 * t + 2] < before.len());
        let v0 = vertices[i0];
        let v1 = vertices[i1];
        let v2 = vertices[i2];
        let (tangent, bitangent) = triangle_frame(&v0, &v1, &v2, one);
        proof {
            assert(same_surface(before[i0 as int], vertices@[i0 as int]));
            assert(same_surface(before[i1 as int], vertices@[i1 as int]));
            assert(same_surface(before[i2 as int], vertices@[i2 as int]));
            assert(tangent@ == triangle_tangent(
                before[i0 as int],
                before[i1 as int],
                before[i2 as int],
                one,
            ));
            assert(bitangent@ == triangle_bitangent(
                before[i0 as int],
                before[i1 as int],
                before[i2 as int],
                one,
            ));
            assert(corner_triangle(before, indices@, 3 * t) == (
                before[i0 as int],
                before[i1 as int],
                before[i2 as int],
            ));
            assert(corner_triangle(before, indices@, 3 * t + 1) == corner_triangle(
                before,
                indices@,
                3 * t,
            ));
            assert(corner_triangle(before, indices@, 3 * t + 2) == corner_triangle(
                before,
                indices@,
                3 * t,
            ));
        }

        // every corner of the triangle takes the same tangent and bitangent
        accumulate_corner(vertices, i0, tangent, bitangent);
        assert forall|v: int| 0 <= v < before.len() implies {
            &&& same_surface(before[v], #[trigger] vertices@[v])
            &&& (vertices@[v].tangent@, vertices@[v].bitangent@) == accumulated(
                before,
                indices@,
                v,
                3 * t + 1,
                one,
            )
        } by {
            assert(accumulated(before, indices@, v, 3 * t + 1 - 1, one) == accumulated(
                before,
                indices@,
                v,
                3 * t,
                one,
            ));
        }
        accumulate_corner(vertices, i1, tangent, bitangent);
        assert forall|v: int| 0 <= v < before.len() implies {
            &&& same_surface(before[v], #[trigger] vertices@[v])
            &&& (vertices@[v].tangent@, vertices@[v].bitangent@) == accumulated(
                before,
                indices@,
                v,
                3 * t + 2,
                one,
            )
        } by {
            assert(accumulated(before, indices@, v, 3 * t + 2 - 1, one) == accumulated(
                before,
                indices@,
                v,
                3 * t + 1,
                one,
            ));
        }
        accumulate_corner(vertices, i2, tangent, bitangent);
        assert forall|v: int| 0 <= v < before.len() implies {
            &&& same_surface(before[v], #[trigger] vertices@[v])
            &&& (vertices@[v].tangent@, vertices@[v].bitangent@) == accumulated(
                before,
                indices@,
                v,
                3 * t + 3,
                one,
            )
        } by {
            assert(accumulated(before, indices@, v, 3 * t + 3 - 1, one) == accumulated(
                before,
                indices@,
                v,
                3 * t + 2,
                one,
            ));
        }
        t = t + 1;
    }

    // average the tangents and the bitangents
    let count: usize = vertices.len();
    let mut v: usize = 0;
    while v < count
        invariant
            arithmetic::<S>(),
            forall|n: usize| call_requires(from_count, (n,)),
            0 <= v <= count,
            count == before.len(),
            vertices@.len() == before.len(),
            triangles_included@.len() == before.len(),
            forall|k: int|
                0 <= k < before.len() ==> (#[trigger] triangles_included@[k]) == occurrences(
                    indices@,
                    k,
                ),
            forall|k: int| 0 <= k < before.len() ==> same_surface(before[k], #[trigger] vertices@[k]),
            forall|k: int|
                v <= k < before.len() ==> ((#[trigger] vertices@[k]).tangent@, vertices@[k].bitangent@)
                    == accumulated(before, indices@, k, indices@.len() as int, one),
            forall|k: int|
                0 <= k < v ==> averaged(
                    accumulated(before, indices@, k, indices@.len() as int, one),
                    occurrences(indices@, k) as usize,
                    #[trigger] vertices@[k],
                    zero,
                    one,
                    from_count,
                ),
        decreases count - v,
    {
        let mut vertex = vertices[v];
        let triangles_here: usize = triangles_included[v];
        match averaging(triangles_here) {
            Averaging::Zero => {
                vertex.tangent = [zero, zero, zero];
                vertex.bitangent = [zero, zero, zero];
                assert(vertex.tangent@ =~= seq![zero, zero, zero]);
                assert(vertex.bitangent@ =~= seq![zero, zero, zero]);
            },
            Averaging::Mean { triangles } => {
                let denom = one.div(from_count(triangles));
                vertex.tangent = scale3(vertex.tangent, denom);
                vertex.bitangent = scale3(vertex.bitangent, denom);
            },
        }
        vertices.set(v, vertex);
        v = v + 1;
    }
    Ok(())
}

/// The vertex made of the `i`-th triple of `positions` and `normals` and the
/// `i`-th pair of `texcoords`, with tangent and bitangent still `zero`.
pub open spec fn interleaved_vertex<S>(
    positions: Seq<S>,
    texcoords: Seq<S>,
    normals: Seq<S>,
    zero: S,
    i: int,
    vertex: ModelVertex<S>,
) -> bool {
    &&& vertex.position@ == seq![positions[3 * i], positions[3 * i + 1], positions[3 * i + 2]]
    &&& vertex.tex_coords@ == seq![texcoords[2 * i], texcoords[2 * i + 1]]
    &&& vertex.normal@ == seq![normals[3 * i], normals[3 * i + 1], normals[3 * i + 2]]
    &&& vertex.tangent@ == seq![zero, zero, zero]
    &&& vertex.bitangent@ == seq![zero, zero, zero]
}

/// Builds the vertices of a mesh from flat arrays: three positions, two
/// texture coordinates and three normal components for each vertex.
///
/// There are as many vertices as whole triples of positions. The other two
/// arrays must reach that far; texture coordinates are looked at first.
pub fn assemble_vertices<S: Copy>(
    positions: &Vec<S>,
    texcoords: &Vec<S>,
    normals: &Vec<S>,
    zero: S,
) -> (result: Result<Vec<ModelVertex<S>>, MeshError>)
    ensures
        match result {
            Ok(vertices) => {
                &&& vertices@.len() == positions@.len() / 3
                &&& texcoords@.len() >= 2 * vertices@.len()
                &&& normals@.len() >= 3 * vertices@.len()
                &&& forall|i: int|
                    0 <= i < vertices@.len() ==> interleaved_vertex(
                        positions@,
                        texcoords@,
                        normals@,
                        zero,
                        i,
                        #[trigger] vertices@[i],
                    )
            },
            Err(MeshError::MissingTexCoords { needed, found }) => {
                &&& needed == 2 * (positions@.len() / 3)
                &&& found == texcoords@.len()
                &&& found < needed
            },
            Err(MeshError::MissingNormals { needed, found }) => {
                &&& texcoords@.len() >= 2 * (positions@.len() / 3)
                &&& needed == 3 * (positions@.len() / 3)
                &&& found == normals@.len()
                &&& found < needed
            },
            Err(_) => false,
        },
{
    let count: usize = positions.len() / 3;
    if texcoords.len() < 2 * count {
        return Err(MeshError::MissingTexCoords { needed: 2 * count, found: texcoords.len() });
    }
    if normals.len() < 3 * count {
        return Err(MeshError::MissingNormals { needed: 3 * count, found: normals.len() });
    }
    let mut vertices: Vec<ModelVertex<S>> = Vec::new();
    let mut i: usize = 0;
    while i < count
        invariant
            0 <= i <= count,
            count == positions@.len() / 3,
            3 * count <= positions@.len() <= usize::MAX,
            texcoords@.len() >= 2 * count,
            normals@.len() >= 3 * count,
            vertices@.len() == i,
            forall|k: int|
                0 <= k < i ==> interleaved_vertex(
                    positions@,
                    texcoords@,
                    normals@,
                    zero,
                    k,
                    #[trigger] vertices@[k],
                ),
        decreases count - i,
    {
        let vertex = ModelVertex {
            position: [positions[i * 3], positions[i * 3 + 1], positions[i * 3 + 2]],
            tex_coords: [texcoords[i * 2], texcoords[i * 2 + 1]],
            normal: [normals[i * 3], normals[i * 3 + 1], normals[i * 3 + 2]],
            tangent: [zero, zero, zero],
            bitangent: [zero, zero, zero],
        };
        proof {
            assert(vertex.position@ =~= seq![
                positions@[3 * i],
                positions@[3 * i + 1],
                positions@[3 * i + 2],
            ]);
            assert(vertex.tex_coords@ =~= seq![texcoords@[2 * i], texcoords@[2 * i + 1]]);
            assert(vertex.normal@ =~= seq![
                normals@[3 * i],
                normals@[3 * i + 1],
                normals@[3 * i + 2],
            ]);
            assert(vertex.tangent@ =~= seq![zero, zero, zero]);
            assert(vertex.bitangent@ =~= seq![zero, zero, zero]);
        }
        vertices.push(vertex);
        i = i + 1;
    }
    Ok(vertices)
}

/// The vertex made of the `i`-th position, with the `i`-th normal and the
/// `i`-th texture coordinates where the arrays reach that far and zeros where
/// they do not. Texture coordinates `(u, v)` are turned upside down on the
/// way: the vertex gets `(u, one - v)`.
pub open spec fn merged_vertex<S: Scalar>(
    positions: Seq<[S; 3]>,
    normals: Seq<[S; 3]>,
    tex_coords: Seq<[S; 2]>,
    zero: S,
    one: S,
    i: int,
    vertex: ModelVertex<S>,
) -> bool {
    &&& vertex.position == positions[i]
    &&& if i < normals.len() {
        vertex.normal == normals[i]
    } else {
        vertex.normal@ == seq![zero, zero, zero]
    }
    &&& if i < tex_coords.len() {
        vertex.tex_coords@ == seq![tex_coords[i]@[0], one.sub_spec(tex_coords[i]@[1])]
    } else {
        vertex.tex_coords@ == seq![zero, zero]
    }
    &&& vertex.tangent@ == seq![zero, zero, zero]
    &&& vertex.bitangent@ == seq![zero, zero, zero]
}

/// Builds the vertices of a mesh from one array for each attribute.
///
/// There is one vertex for each position. Normals and texture coordinates
/// are given to the vertices in order and may stop early; neither may go on
/// past the last vertex. Normals are looked at first. The texture
/// coordinates come with y pointing up and leave with y pointing down.
pub fn merge_attributes<S: Scalar>(
    positions: &Vec<[S; 3]>,
    normals: &Vec<[S; 3]>,
    tex_coords: &Vec<[S; 2]>,
    zero: S,
    one: S,
) -> (result: Result<Vec<ModelVertex<S>>, MeshError>)
    requires
        arithmetic::<S>(),
    ensures
        match result {
            Ok(vertices) => {
                &&& vertices@.len() == positions@.len()
                &&& normals@.len() <= positions@.len()
                &&& tex_coords@.len() <= positions@.len()
                &&& forall|i: int|
                    0 <= i < vertices@.len() ==> merged_vertex(
                        positions@,
                        normals@,
                        tex_coords@,
                        zero,
                        one,
                        i,
                        #[trigger] vertices@[i],
                    )
            },
            Err(MeshError::ExtraNormals { vertices, found }) => {
                &&& vertices == positions@.len()
                &&& found == normals@.len()
                &&& found > vertices
            },
            Err(MeshError::ExtraTexCoords { vertices, found }) => {
                &&& normals@.len() <= positions@.len()
                &&& vertices == positions@.len()
                &&& found == tex_coords@.len()
                &&& found > vertices
            },
            Err(_) => false,
        },
{
    let count: usize = positions.len();
    if normals.len() > count {
        return Err(MeshError::ExtraNormals { vertices: count, found: normals.len() });
    }
    if tex_coords.len() > count {
        return Err(MeshError::ExtraTexCoords { vertices: count, found: tex_coords.len() });
    }
    let mut vertices: Vec<ModelVertex<S>> = Vec::new();
    let mut i: usize = 0;
    while i < count
        invariant
            arithmetic::<S>(),
            0 <= i <= count,
            count == positions@.len(),
            normals@.len() <= count,
            tex_coords@.len() <= count,
            vertices@.len() == i,
            forall|k: int|
                0 <= k < i ==> merged_vertex(
                    positions@,
                    normals@,
                    tex_coords@,
                    zero,
                    one,
                    k,
                    #[trigger] vertices@[k],
                ),
        decreases count - i,
    {
        let normal: [S; 3] = if i < normals.len() {
            normals[i]
        } else {
            [zero, zero, zero]
        };
        let tex: [S; 2] = if i < tex_coords.len() {
            let tex_coord = tex_coords[i];
            [tex_coord[0], one.sub(tex_coord[1])]
        } else {
            [zero, zero]
        };
        let vertex = ModelVertex {
            position: positions[i],
            tex_coords: tex,
            normal,
            tangent: [zero, zero, zero],
            bitangent: [zero, zero, zero],
        };
        proof {
            if i >= normals.len() {
                assert(vertex.normal@ =~= seq![zero, zero, zero]);
            }
            if i >= tex_coords.len() {
                assert(vertex.tex_coords@ =~= seq![zero, zero]);
            } else {
                assert(vertex.tex_coords@ =~= seq![
                    tex_coords@[i as int]@[0],
                    one.sub_spec(tex_coords@[i as int]@[1]),
                ]);
            }
            assert(vertex.tangent@ =~= seq![zero, zero, zero]);
            assert(vertex.bitangent@ =~= seq![zero, zero, zero]);
        }
        vertices.push(vertex);
        i = i + 1;
    }
    Ok(vertices)
}

/// The texture that stands in for the diffuse texture of a material that
/// names none.
pub const DEFAULT_DIFFUSE_PATH: &'static str = "meshes/core/empty-texture.png";

/// The texture that stands in for the normal map of a material that names
/// none.
pub const DEFAULT_NORMAL_PATH: &'static str = "meshes/core/empty-normal.png";

/// The file of a texture: `path` where the material names a texture, and
/// `default` where the name is empty.
pub fn texture_path<'a>(name: &str, path: &'a str, default: &'a str) -> (chosen: &'a str)
    ensures
        name@.len() == 0 ==> chosen == default,
        name@.len() != 0 ==> chosen == path,
{
    if name.is_empty() {
        default
    } else {
        path
    }
}

/// The material of a mesh: the first of `names` that equals `name`, or the
/// first material of all when there is none.
pub fn material_index(names: &Vec<String>, name: &String) -> (index: usize)
    ensures
        (exists|i: int| 0 <= i < names@.len() && (#[trigger] names@[i])@ == name@) ==> {
            &&& index < names@.len()
            &&& names@[index as int]@ == name@
            &&& forall|k: int| 0 <= k < index ==> (#[trigger] names@[k])@ != name@
        },
        (forall|i: int| 0 <= i < names@.len() ==> (#[trigger] names@[i])@ != name@) ==> index == 0,
{
    let mut i: usize = 0;
    while i < names.len()
        invariant
            0 <= i <= names@.len(),
            forall|k: int| 0 <= k < i ==> (#[trigger] names@[k])@ != name@,
        decreases names@.len() - i,
    {
        if names[i] == *name {
            return i;
        }
        i = i + 1;
    }
    0
}

} // verus!
