use vstd::prelude::*;

verus! {

/// The directory part of a model's path: everything before its last `/`.
/// A path without a `/` has none.
pub open spec fn is_directory_of(path: Seq<char>, dir: Seq<char>) -> bool {
    exists|k: int|
        0 <= k < path.len() && path[k] == '/' && dir == path.subrange(0, k) && forall|j: int|
            k < j < path.len() ==> path[j] != '/'
}

/// The directory of the model file at `path`, where its textures are looked
/// up: the part before the last `/`. `None` when the path holds no `/`.
pub fn directory_of<'a>(path: &'a str) -> (r: Option<&'a str>)
    ensures
        r.is_none() <==> !path@.contains('/'),
        r matches Some(d) ==> is_directory_of(path@, d@),
{
    let n = path.unicode_len();
    let mut i: usize = n;
    while i > 0
        invariant
            n == path@.len(),
            i <= n,
            forall|j: int| i <= j < n ==> path@[j] != '/',
        decreases i,
    {
        if path.get_char(i - 1) == '/' {
            let d = path.substring_char(0, i - 1);
            assert(is_directory_of(path@, d@)) by {
                assert(0 <= i - 1 < path@.len() && path@[i - 1] == '/');
            }
            return Some(d);
        }
        i = i - 1;
    }
    None
}

/// The attributes of one vertex as read from flat component arrays.
#[derive(Clone, Copy, Debug, PartialEq, Eq)]
pub struct VertexData<T> {
    pub position: [T; 3],
    pub normal: [T; 3],
    pub tex_coords: [T; 2],
}

/// Flat arrays hold whole vertices: positions come in threes, and there are
/// at least as many normal and texture-coordinate components as the
/// positions need.
pub open spec fn arrays_fit<T>(positions: Seq<T>, normals: Seq<T>, tex_coords: Seq<T>) -> bool {
    &&& positions.len() % 3 == 0
    &&& normals.len() >= positions.len()
    &&& tex_coords.len() >= 2 * (positions.len() / 3)
}

/// Vertex `i` gathered from the flat arrays: components `3i .. 3i + 3` of the
/// positions and normals, `2i .. 2i + 2` of the texture coordinates.
pub open spec fn vertex_matches<T>(
    v: VertexData<T>,
    positions: Seq<T>,
    normals: Seq<T>,
    tex_coords: Seq<T>,
    i: int,
) -> bool {
    &&& v.position@ == seq![positions[3 * i], positions[3 * i + 1], positions[3 * i + 2]]
    &&& v.normal@ == seq![normals[3 * i], normals[3 * i + 1], normals[3 * i + 2]]
    &&& v.tex_coords@ == seq![tex_coords[2 * i], tex_coords[2 * i + 1]]
}

/// Builds one vertex per position triple from a loaded mesh's flat arrays.
/// `None` when the arrays do not hold whole vertices (see `arrays_fit`).
pub fn assemble_vertices<T: Copy>(positions: &Vec<T>, normals: &Vec<T>, tex_coords: &Vec<T>) -> (r:
    Option<Vec<VertexData<T>>>)
    ensures
        r.is_some() <==> arrays_fit(positions@, normals@, tex_coords@),
        r matches Some(vs) ==> vs@.len() == positions@.len() / 3 && forall|i: int|
            0 <= i < vs@.len() ==> vertex_matches(#[trigger] vs@[i], positions@, normals@, tex_coords@, i),
{
    if positions.len() % 3 != 0 || normals.len() < positions.len() || tex_coords.len() / 2
        < positions.len() / 3 {
        return None;
    }
    let count = positions.len() / 3;
    let mut vertices: Vec<VertexData<T>> = Vec::with_capacity(count);
    let mut i: usize = 0;
    while i < count
        invariant
            count == positions@.len() / 3,
            positions.len() == 3 * count,
            normals@.len() >= 3 * count,
            tex_coords@.len() >= 2 * count,
            i <= count,
            vertices@.len() == i,
            forall|k: int|
                0 <= k < i ==> vertex_matches(#[trigger] vertices@[k], positions@, normals@, tex_coords@, k),
        decreases count - i,
    {
        let p = 3 * i;
        let t = 2 * i;
        let v = VertexData {
            position: [positions[p], positions[p + 1], positions[p + 2]],
            normal: [normals[p], normals[p + 1], normals[p + 2]],
            tex_coords: [tex_coords[t], tex_coords[t + 1]],
        };
        assert(v.position@ =~= seq![positions@[p as int], positions@[p + 1], positions@[p + 2]]);
        assert(v.normal@ =~= seq![normals@[p as int], normals@[p + 1], normals@[p + 2]]);
        assert(v.tex_coords@ =~= seq![tex_coords@[t as int], tex_coords@[t + 1]]);
        vertices.push(v);
        i = i + 1;
    }
    Some(vertices)
}

/// The index lists of a mesh's faces, one after another.
pub open spec fn flattened(faces: Seq<Vec<u32>>) -> Seq<u32> {
    faces.map_values(|f: Vec<u32>| f@).flatten()
}

/// Concatenates the vertex indices of all faces, in face order, into one
/// index buffer.
pub fn flatten_faces(faces: &Vec<Vec<u32>>) -> (r: Vec<u32>)
    ensures
        r@ == flattened(faces@),
{
    let mut r: Vec<u32> = Vec::new();
    let mut i: usize = 0;
    while i < faces.len()
        invariant
            i <= faces@.len(),
            r@ == flattened(faces@.subrange(0, i as int)),
        decreases faces@.len() - i,
    {
        let face = &faces[i];
        let mut j: usize = 0;
        while j < face.len()
            invariant
                i < faces@.len(),
                *face == faces@[i as int],
                j <= face@.len(),
                r@ == flattened(faces@.subrange(0, i as int)) + face@.subrange(0, j as int),
            decreases face@.len() - j,
        {
            r.push(face[j]);
            j = j + 1;
            assert(r@ =~= flattened(faces@.subrange(0, i as int)) + face@.subrange(0, j as int));
        }
        proof {
            let f = |f: Vec<u32>| f@;
            let before = faces@.subrange(0, i as int);
            let after = faces@.subrange(0, i + 1);
            assert(after.map_values(f) =~= before.map_values(f).push(face@));
            before.map_values(f).lemma_flatten_push(face@);
            assert(face@.subrange(0, j as int) =~= face@);
        }
        i = i + 1;
    }
    assert(faces@.subrange(0, faces@.len() as int) =~= faces@);
    r
}

} // verus!
