use vstd::prelude::*;

verus! {

/// Bytes in one 32-bit float component.
pub const FLOAT_BYTES: u64 = 4;

/// Vertices of the fixed mesh.
pub const VERTEX_COUNT: u16 = 5;

/// One shader input of a vertex stream: `components` consecutive 32-bit
/// floats read at byte `offset` of each element, bound at shader `location`.
#[derive(Clone, Copy, Debug, PartialEq, Eq, Structural)]
pub struct VertexAttribute {
    pub location: u32,
    pub components: u32,
    pub offset: u64,
}

/// The byte layout of one vertex stream: the stride between elements, whether
/// it advances per instance rather than per vertex, and its attributes.
#[derive(Debug)]
pub struct BufferLayout {
    pub array_stride: u64,
    pub per_instance: bool,
    pub attributes: Vec<VertexAttribute>,
}

/// Total of the first `k` entries of `s`.
pub open spec fn prefix_sum(s: Seq<u32>, k: int) -> int
    decreases k,
{
    if k <= 0 {
        0
    } else {
        prefix_sum(s, k - 1) + s[k - 1]
    }
}

/// A packed stream of float attributes: attribute `k` sits at location
/// `first_location + k`, right after attribute `k - 1`, with no padding, and
/// the stride is the size of all of them together.
pub open spec fn packed_layout(
    layout: BufferLayout,
    first_location: int,
    components: Seq<u32>,
    per_instance: bool,
) -> bool {
    &&& layout.per_instance == per_instance
    &&& layout.attributes@.len() == components.len()
    &&& layout.array_stride == FLOAT_BYTES * prefix_sum(components, components.len() as int)
    &&& forall|k: int|
        0 <= k < components.len() ==> {
            &&& (#[trigger] layout.attributes@[k]).location == first_location + k
            &&& layout.attributes@[k].components == components[k]
            &&& layout.attributes@[k].offset == FLOAT_BYTES * prefix_sum(components, k)
        }
}

proof fn lemma_prefix_sum_bounded(s: Seq<u32>, k: int)
    requires
        0 <= k <= s.len(),
        forall|j: int| 0 <= j < s.len() ==> s[j] <= 4,
    ensures
        0 <= prefix_sum(s, k) <= 4 * k,
    decreases k,
{
    if k > 0 {
        lemma_prefix_sum_bounded(s, k - 1);
    }
}

/// Lays out a stream of float attributes back to back, starting at shader
/// location `first_location`. Each entry of `components` is 1 to 4 floats.
pub fn float_layout(first_location: u32, components: &Vec<u32>, per_instance: bool) -> (r:
    BufferLayout)
    requires
        first_location + components@.len() <= u32::MAX,
        forall|j: int| 0 <= j < components@.len() ==> 1 <= #[trigger] components@[j] <= 4,
    ensures
        packed_layout(r, first_location as int, components@, per_instance),
{
    let mut attributes: Vec<VertexAttribute> = Vec::new();
    let mut offset: u64 = 0;
    let mut k: usize = 0;
    while k < components.len()
        invariant
            k <= components@.len(),
            first_location + components@.len() <= u32::MAX,
            forall|j: int| 0 <= j < components@.len() ==> 1 <= #[trigger] components@[j] <= 4,
            attributes@.len() == k,
            offset == FLOAT_BYTES * prefix_sum(components@, k as int),
            forall|j: int|
                0 <= j < k ==> {
                    &&& (#[trigger] attributes@[j]).location == first_location + j
                    &&& attributes@[j].components == components@[j]
                    &&& attributes@[j].offset == FLOAT_BYTES * prefix_sum(components@, j)
                },
        decreases components@.len() - k,
    {
        proof {
            lemma_prefix_sum_bounded(components@, k as int);
        }
        let n: u32 = components[k];
        attributes.push(VertexAttribute { location: first_location + k as u32, components: n, offset });
        offset = offset + FLOAT_BYTES * n as u64;
        k = k + 1;
    }
    BufferLayout { array_stride: offset, per_instance, attributes }
}

/// Per-vertex stream of the mesh: position (3 floats) at location 0, texture
/// coordinates (2 floats) at location 1.
pub fn vertex_layout() -> (r: BufferLayout)
    ensures
        packed_layout(r, 0, seq![3u32, 2u32], false),
        r.array_stride == 20,
        r.attributes@ == seq![
            VertexAttribute { location: 0, components: 3, offset: 0 },
            VertexAttribute { location: 1, components: 2, offset: 12 },
        ],
{
    let components: Vec<u32> = vec![3, 2];
    let r = float_layout(0, &components, false);
    proof {
        assert(components@ == seq![3u32, 2u32]);
        assert(prefix_sum(components@, 0) == 0);
        assert(prefix_sum(components@, 1) == 3);
        assert(prefix_sum(components@, 2) == 5);
        assert(r.attributes@ =~= seq![
            VertexAttribute { location: 0, components: 3, offset: 0 },
            VertexAttribute { location: 1, components: 2, offset: 12 },
        ]);
    }
    r
}

/// Per-vertex stream of a lit mesh: position (3 floats), texture coordinates
/// (2 floats) and normal (3 floats) at locations 0, 1 and 2.
pub fn model_vertex_layout() -> (r: BufferLayout)
    ensures
        packed_layout(r, 0, seq![3u32, 2u32, 3u32], false),
        r.array_stride == 32,
        r.attributes@ == seq![
            VertexAttribute { location: 0, components: 3, offset: 0 },
            VertexAttribute { location: 1, components: 2, offset: 12 },
            VertexAttribute { location: 2, components: 3, offset: 20 },
        ],
{
    let components: Vec<u32> = vec![3, 2, 3];
    let r = float_layout(0, &components, false);
    proof {
        assert(components@ == seq![3u32, 2u32, 3u32]);
        assert(prefix_sum(components@, 0) == 0);
        assert(prefix_sum(components@, 1) == 3);
        assert(prefix_sum(components@, 2) == 5);
        assert(prefix_sum(components@, 3) == 8);
        assert(r.attributes@ =~= seq![
            VertexAttribute { location: 0, components: 3, offset: 0 },
            VertexAttribute { location: 1, components: 2, offset: 12 },
            VertexAttribute { location: 2, components: 3, offset: 20 },
        ]);
    }
    r
}

/// Per-instance stream: the 4x4 model matrix as four rows of 4 floats at
/// locations 5 to 8, one element per instance.
pub fn instance_layout() -> (r: BufferLayout)
    ensures
        packed_layout(r, 5, seq![4u32, 4u32, 4u32, 4u32], true),
        r.array_stride == 64,
        r.attributes@ == seq![
            VertexAttribute { location: 5, components: 4, offset: 0 },
            VertexAttribute { location: 6, components: 4, offset: 16 },
            VertexAttribute { location: 7, components: 4, offset: 32 },
            VertexAttribute { location: 8, components: 4, offset: 48 },
        ],
{
    let components: Vec<u32> = vec![4, 4, 4, 4];
    let r = float_layout(5, &components, true);
    proof {
        assert(components@ == seq![4u32, 4u32, 4u32, 4u32]);
        assert(prefix_sum(components@, 0) == 0);
        assert(prefix_sum(components@, 1) == 4);
        assert(prefix_sum(components@, 2) == 8);
        assert(prefix_sum(components@, 3) == 12);
        assert(prefix_sum(components@, 4) == 16);
        assert(r.attributes@ =~= seq![
            VertexAttribute { location: 5, components: 4, offset: 0 },
            VertexAttribute { location: 6, components: 4, offset: 16 },
            VertexAttribute { location: 7, components: 4, offset: 32 },
            VertexAttribute { location: 8, components: 4, offset: 48 },
        ]);
    }
    r
}

/// The index list of the fixed mesh: three triangles fanned around vertex 4.
pub open spec fn mesh_index_seq() -> Seq<u16> {
    seq![0u16, 1, 4, 1, 2, 4, 2, 3, 4]
}

/// The indices of the fixed mesh; each one names a vertex of the mesh.
pub fn mesh_indices() -> (r: Vec<u16>)
    ensures
        r@ == mesh_index_seq(),
        r@.len() % 3 == 0,
        forall|i: int| 0 <= i < r@.len() ==> #[trigger] r@[i] < VERTEX_COUNT,
{
    let r: Vec<u16> = vec![0, 1, 4, 1, 2, 4, 2, 3, 4];
    assert(r@ =~= mesh_index_seq());
    r
}

} // verus!
