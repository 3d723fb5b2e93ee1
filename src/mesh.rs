use vstd::prelude::*;
use crate::texture::Texture;

verus! {

/// Size in bytes of one vertex component (a 32-bit float).
pub const COMPONENT_BYTES: usize = 4;

/// Components of the vertex attributes, in memory order: position (3),
/// normal (3), texture coordinates (2).
pub open spec fn vertex_components() -> Seq<int> {
    seq![3, 3, 2]
}

/// The number of components in the first `k` attributes.
pub open spec fn components_before(c: Seq<int>, k: int) -> int
    decreases k,
{
    if k <= 0 || c.len() == 0 {
        0
    } else {
        components_before(c, k - 1) + c[k - 1]
    }
}

/// Where one vertex attribute sits in a vertex: its shader location, its
/// number of float components and its byte offset from the vertex start.
#[derive(Clone, Copy, Debug, PartialEq, Eq, Structural)]
pub struct VertexAttribute {
    pub location: u32,
    pub components: i32,
    pub offset: usize,
}

/// The byte size of one vertex: all components packed without padding.
pub fn vertex_stride() -> (r: usize)
    ensures
        r == COMPONENT_BYTES * components_before(vertex_components(), 3),
{
    proof {
        reveal_with_fuel(components_before, 4);
    }
    (3 + 3 + 2) * COMPONENT_BYTES
}

/// The attribute pointers of a mesh's vertex array: location `k` reads
/// `vertex_components()[k]` floats, starting after the components of all
/// earlier attributes.
pub fn vertex_layout() -> (r: Vec<VertexAttribute>)
    ensures
        r@.len() == vertex_components().len(),
        forall|k: int|
            #![trigger r@[k]]
            0 <= k < r@.len() ==> {
                &&& r@[k].location == k
                &&& r@[k].components == vertex_components()[k]
                &&& r@[k].offset == COMPONENT_BYTES * components_before(vertex_components(), k)
            },
{
    proof {
        reveal_with_fuel(components_before, 4);
    }
    let r = vec![
        VertexAttribute { location: 0, components: 3, offset: 0 },
        VertexAttribute { location: 1, components: 3, offset: 3 * COMPONENT_BYTES },
        VertexAttribute { location: 2, components: 2, offset: (3 + 3) * COMPONENT_BYTES },
    ];
    assert forall|k: int| #![trigger r@[k]] 0 <= k < r@.len() implies {
        &&& r@[k].location == k
        &&& r@[k].components == vertex_components()[k]
        &&& r@[k].offset == COMPONENT_BYTES * components_before(vertex_components(), k)
    } by {
        if k == 0 {
        } else if k == 1 {
        } else {
        }
    }
    r
}

/// The byte size of a buffer of `count` elements of `element_size` bytes, as
/// the signed size GL takes; `None` when it does not fit.
pub fn buffer_size(count: usize, element_size: usize) -> (r: Option<isize>)
    ensures
        r.is_some() <==> count * element_size <= isize::MAX,
        r matches Some(n) ==> n == count * element_size,
{
    if element_size != 0 && count > (isize::MAX as usize) / element_size {
        proof {
            let m = (isize::MAX as usize) / element_size;
            assert(count >= m + 1);
            assert(count * element_size >= (m + 1) * element_size) by (nonlinear_arith)
                requires
                    count >= m + 1,
                    element_size > 0,
            ;
            assert((m + 1) * element_size > isize::MAX) by (nonlinear_arith)
                requires
                    m == (isize::MAX as usize) / element_size,
                    element_size > 0,
            ;
        }
        None
    } else {
        proof {
            if element_size != 0 {
                let m = (isize::MAX as usize) / element_size;
                assert(count * element_size <= m * element_size) by (nonlinear_arith)
                    requires
                        count <= m,
                        element_size > 0,
                ;
                assert(m * element_size <= isize::MAX) by (nonlinear_arith)
                    requires
                        m == (isize::MAX as usize) / element_size,
                        element_size > 0,
                ;
            }
        }
        Some((count * element_size) as isize)
    }
}

/// How one texture is bound for drawing: the texture unit it is activated
/// on, the sampler uniform that is pointed at that unit, and the texture.
#[derive(Clone, Debug)]
pub struct TextureBinding {
    pub unit: usize,
    pub uniform: String,
    pub id: u32,
}

/// The sampler uniform for textures of kind `tex_type`.
pub open spec fn sampler_uniform(tex_type: Seq<char>) -> Seq<char> {
    "material."@ + tex_type
}

/// The bindings with which a mesh is drawn: texture `i` goes on unit `i`,
/// and the uniform `material.<kind>` is set to that unit.
pub fn texture_bindings(textures: &Vec<Texture>) -> (r: Vec<TextureBinding>)
    ensures
        r@.len() == textures@.len(),
        forall|i: int|
            #![trigger r@[i]]
            0 <= i < r@.len() ==> {
                &&& r@[i].unit == i
                &&& r@[i].uniform@ == sampler_uniform(textures@[i].tex_type@)
                &&& r@[i].id == textures@[i].id
            },
{
    let mut r: Vec<TextureBinding> = Vec::new();
    let mut i: usize = 0;
    while i < textures.len()
        invariant
            i <= textures@.len(),
            r@.len() == i,
            forall|k: int|
                #![trigger r@[k]]
                0 <= k < i ==> {
                    &&& r@[k].unit == k
                    &&& r@[k].uniform@ == sampler_uniform(textures@[k].tex_type@)
                    &&& r@[k].id == textures@[k].id
                },
        decreases textures@.len() - i,
    {
        let mut uniform = String::from_str("material.");
        uniform.append(textures[i].tex_type);
        r.push(TextureBinding { unit: i, uniform, id: textures[i].id });
        i = i + 1;
    }
    r
}

} // verus!
