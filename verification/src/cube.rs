//! The mesh of a unit block with any set of its six faces.
//!
//! Each face is a quad of four vertices, drawn as two triangles: six indices
//! per face. Faces are laid out in a fixed order (right, left, back, front,
//! top, bottom), so the vertices of the k-th present face are 4k..4k+3.
use vstd::prelude::*;

verus! {

/// The bit of the top face.
pub const TOP: u32 = 0b000001;

/// The bit of the bottom face.
pub const BOTTOM: u32 = 0b000010;

/// The bit of the left face.
pub const LEFT: u32 = 0b000100;

/// The bit of the right face.
pub const RIGHT: u32 = 0b001000;

/// The bit of the front face.
pub const FRONT: u32 = 0b010000;

/// The bit of the back face.
pub const BACK: u32 = 0b100000;

/// A set of block faces, one bit each.
#[derive(Clone, Copy, PartialEq, Eq, Structural)]
pub struct BlockFaces {
    pub bits: u32,
}

/// Whether `bits` hold every bit of `flag`.
pub open spec fn has_bits(bits: u32, flag: u32) -> bool {
    bits & flag == flag
}

impl BlockFaces {
    /// The faces whose bits are set in `bits`; other bits are kept as they are.
    pub fn from_bits_retain(bits: u32) -> (faces: BlockFaces)
        ensures
            faces.bits == bits,
    {
        BlockFaces { bits }
    }

    /// No face.
    pub fn empty() -> (faces: BlockFaces)
        ensures
            faces.bits == 0,
    {
        BlockFaces { bits: 0 }
    }

    /// All six faces.
    pub fn all() -> (faces: BlockFaces)
        ensures
            faces.bits == TOP | BOTTOM | LEFT | RIGHT | FRONT | BACK,
    {
        BlockFaces { bits: TOP | BOTTOM | LEFT | RIGHT | FRONT | BACK }
    }

    /// The bits of the set.
    pub fn bits(&self) -> (bits: u32)
        ensures
            bits == self.bits,
    {
        self.bits
    }

    /// Whether the set holds every face of `other`.
    pub fn contains(&self, other: BlockFaces) -> (holds: bool)
        ensures
            holds == has_bits(self.bits, other.bits),
    {
        self.bits & other.bits == other.bits
    }

    /// The faces of both sets.
    pub fn union(&self, other: BlockFaces) -> (faces: BlockFaces)
        ensures
            faces.bits == self.bits | other.bits,
    {
        BlockFaces { bits: self.bits | other.bits }
    }
}

/// A vertex of the block: position, normal and texture coordinate, each
/// coordinate -1, 0 or 1.
#[derive(Clone, Copy, Debug, PartialEq, Eq)]
pub struct BlockVertex {
    pub pos: [i8; 3],
    pub normal: [i8; 3],
    pub tex_coord: [i8; 2],
}

/// The vertices and triangle indices of a mesh.
pub struct ModelBundle {
    pub vertex_data: Vec<BlockVertex>,
    pub index_data: Vec<u16>,
}

/// The vertex with the given position, normal and texture coordinate.
pub open spec fn vx(p: [i8; 3], n: [i8; 3], t: [i8; 2]) -> BlockVertex {
    BlockVertex { pos: p, normal: n, tex_coord: t }
}

/// The bit of the k-th face in mesh order: right, left, back, front, top,
/// bottom.
pub open spec fn face_bit(k: int) -> u32 {
    if k == 0 {
        RIGHT
    } else if k == 1 {
        LEFT
    } else if k == 2 {
        BACK
    } else if k == 3 {
        FRONT
    } else if k == 4 {
        TOP
    } else {
        BOTTOM
    }
}

/// The four vertices of the k-th face in mesh order.
pub open spec fn face_quad(k: int) -> Seq<BlockVertex> {
    if k == 0 {
        seq![
            vx([-1i8, -1i8, 1], [0, 0, 1], [0, 0]),
            vx([1, -1i8, 1], [0, 0, 1], [1, 0]),
            vx([1, 1, 1], [0, 0, 1], [1, 1]),
            vx([-1i8, 1, 1], [0, 0, 1], [0, 1]),
        ]
    } else if k == 1 {
        seq![
            vx([-1i8, 1, -1i8], [0, 0, -1i8], [1, 0]),
            vx([1, 1, -1i8], [0, 0, -1i8], [0, 0]),
            vx([1, -1i8, -1i8], [0, 0, -1i8], [0, 1]),
            vx([-1i8, -1i8, -1i8], [0, 0, -1i8], [1, 1]),
        ]
    } else if k == 2 {
        seq![
            vx([1, -1i8, -1i8], [1, 0, 0], [0, 0]),
            vx([1, 1, -1i8], [1, 0, 0], [1, 0]),
            vx([1, 1, 1], [1, 0, 0], [1, 1]),
            vx([1, -1i8, 1], [1, 0, 0], [0, 1]),
        ]
    } else if k == 3 {
        seq![
            vx([-1i8, -1i8, 1], [-1i8, 0, 0], [1, 0]),
            vx([-1i8, 1, 1], [-1i8, 0, 0], [0, 0]),
            vx([-1i8, 1, -1i8], [-1i8, 0, 0], [0, 1]),
            vx([-1i8, -1i8, -1i8], [-1i8, 0, 0], [1, 1]),
        ]
    } else if k == 4 {
        seq![
            vx([1, 1, -1i8], [0, 1, 0], [1, 0]),
            vx([-1i8, 1, -1i8], [0, 1, 0], [0, 0]),
            vx([-1i8, 1, 1], [0, 1, 0], [0, 1]),
            vx([1, 1, 1], [0, 1, 0], [1, 1]),
        ]
    } else {
        seq![
            vx([1, -1i8, 1], [0, -1i8, 0], [0, 0]),
            vx([-1i8, -1i8, 1], [0, -1i8, 0], [1, 0]),
            vx([-1i8, -1i8, -1i8], [0, -1i8, 0], [1, 1]),
            vx([1, -1i8, -1i8], [0, -1i8, 0], [0, 1]),
        ]
    }
}

/// The vertices of the faces of `bits` among the first `k` faces in mesh
/// order.
pub open spec fn faces_vertices(bits: u32, k: nat) -> Seq<BlockVertex>
    decreases k,
{
    if k == 0 {
        seq![]
    } else if has_bits(bits, face_bit(k - 1)) {
        faces_vertices(bits, (k - 1) as nat) + face_quad(k - 1)
    } else {
        faces_vertices(bits, (k - 1) as nat)
    }
}

/// How many of the first `k` faces in mesh order `bits` hold.
pub open spec fn faces_count(bits: u32, k: nat) -> nat
    decreases k,
{
    if k == 0 {
        0
    } else if has_bits(bits, face_bit(k - 1)) {
        faces_count(bits, (k - 1) as nat) + 1
    } else {
        faces_count(bits, (k - 1) as nat)
    }
}

/// The two triangles of the q-th quad.
pub open spec fn quad_indices(q: nat) -> Seq<u16> {
    seq![
        (4 * q) as u16,
        (4 * q + 1) as u16,
        (4 * q + 2) as u16,
        (4 * q + 2) as u16,
        (4 * q + 3) as u16,
        (4 * q) as u16,
    ]
}

/// The triangles of the first `n` quads.
pub open spec fn quads_indices(n: nat) -> Seq<u16>
    decreases n,
{
    if n == 0 {
        seq![]
    } else {
        quads_indices((n - 1) as nat) + quad_indices((n - 1) as nat)
    }
}

/// The mesh of a block with the faces of `bits`.
pub open spec fn block_mesh_vertices(bits: u32) -> Seq<BlockVertex> {
    faces_vertices(bits, 6)
}

/// How many faces of a block with `bits` are drawn.
pub open spec fn block_face_count(bits: u32) -> nat {
    faces_count(bits, 6)
}

proof fn lemma_faces_counts(bits: u32, k: nat)
    requires
        k <= 6,
    ensures
        faces_vertices(bits, k).len() == 4 * faces_count(bits, k),
        faces_count(bits, k) <= k,
    decreases k,
{
    if k > 0 {
        lemma_faces_counts(bits, (k - 1) as nat);
    }
}

proof fn lemma_quads_indices_len(n: nat)
    ensures
        quads_indices(n).len() == 6 * n,
    decreases n,
{
    if n > 0 {
        lemma_quads_indices_len((n - 1) as nat);
    }
}

/// Every index of the first `n` quads names one of their `4 n` vertices.
pub proof fn lemma_quads_indices_in_range(n: nat)
    requires
        n <= 6,
    ensures
        forall|i: int| 0 <= i < quads_indices(n).len() ==> #[trigger] quads_indices(n)[i] < 4 * n,
    decreases n,
{
    lemma_quads_indices_len(n);
    if n > 0 {
        lemma_quads_indices_in_range((n - 1) as nat);
        lemma_quads_indices_len((n - 1) as nat);
        assert forall|i: int| 0 <= i < quads_indices(n).len() implies #[trigger] quads_indices(n)[i] < 4 * n by {
            if i < quads_indices((n - 1) as nat).len() {
                assert(quads_indices(n)[i] == quads_indices((n - 1) as nat)[i]);
            }
        }
    }
}

/// Whether `v` lies on a face of the block that `bits` hold, with that
/// face's outward normal: right faces +z, left -z, back +x, front -x, top +y
/// and bottom -y.
pub open spec fn on_held_face(v: BlockVertex, bits: u32) -> bool {
    ||| v.normal == [0i8, 0, 1] && v.pos[2] == 1 && has_bits(bits, RIGHT)
    ||| v.normal == [0i8, 0, -1i8] && v.pos[2] == -1 && has_bits(bits, LEFT)
    ||| v.normal == [1i8, 0, 0] && v.pos[0] == 1 && has_bits(bits, BACK)
    ||| v.normal == [-1i8, 0, 0] && v.pos[0] == -1 && has_bits(bits, FRONT)
    ||| v.normal == [0i8, 1, 0] && v.pos[1] == 1 && has_bits(bits, TOP)
    ||| v.normal == [0i8, -1i8, 0] && v.pos[1] == -1 && has_bits(bits, BOTTOM)
}

/// Whether some vertex of `vs` has the normal `n`.
pub open spec fn shows_normal(vs: Seq<BlockVertex>, n: [i8; 3]) -> bool {
    exists|i: int| 0 <= i < vs.len() && #[trigger] vs[i].normal == n
}

proof fn lemma_faces_on_held_faces(bits: u32, k: nat)
    requires
        k <= 6,
    ensures
        forall|i: int|
            0 <= i < faces_vertices(bits, k).len() ==> on_held_face(#[trigger] faces_vertices(bits, k)[i], bits),
        (k > 0 && has_bits(bits, RIGHT)) ==> shows_normal(faces_vertices(bits, k), [0i8, 0, 1]),
        (k > 1 && has_bits(bits, LEFT)) ==> shows_normal(faces_vertices(bits, k), [0i8, 0, -1i8]),
        (k > 2 && has_bits(bits, BACK)) ==> shows_normal(faces_vertices(bits, k), [1i8, 0, 0]),
        (k > 3 && has_bits(bits, FRONT)) ==> shows_normal(faces_vertices(bits, k), [-1i8, 0, 0]),
        (k > 4 && has_bits(bits, TOP)) ==> shows_normal(faces_vertices(bits, k), [0i8, 1, 0]),
        (k > 5 && has_bits(bits, BOTTOM)) ==> shows_normal(faces_vertices(bits, k), [0i8, -1i8, 0]),
    decreases k,
{
    if k > 0 {
        let j = (k - 1) as nat;
        lemma_faces_on_held_faces(bits, j);
        let prev = faces_vertices(bits, j);
        let all = faces_vertices(bits, k);
        if has_bits(bits, face_bit(j as int)) {
            let quad = face_quad(j as int);
            assert(all == prev + quad);
            assert forall|i: int| 0 <= i < all.len() implies on_held_face(#[trigger] all[i], bits) by {
                if i < prev.len() {
                    assert(all[i] == prev[i]);
                } else {
                    assert(all[i] == quad[i - prev.len()]);
                }
            }
            assert(all[prev.len() as int] == quad[0]);
            assert forall|n: [i8; 3]| #[trigger] shows_normal(prev, n) implies shows_normal(all, n) by {
                let i = choose|i: int| 0 <= i < prev.len() && #[trigger] prev[i].normal == n;
                assert(all[i] == prev[i]);
            }
        } else {
            assert(all == prev);
        }
    }
}

/// Every vertex of a block's mesh lies on a face that the block holds, and
/// carries that face's outward normal; and each face the block holds shows
/// in the mesh with its normal. So a block with only its front face gets
/// the quad facing -x, one with only its back face the quad facing +x.
pub proof fn lemma_mesh_shows_exactly_the_held_faces(bits: u32)
    ensures
        forall|i: int|
            0 <= i < block_mesh_vertices(bits).len() ==> on_held_face(#[trigger] block_mesh_vertices(bits)[i], bits),
        has_bits(bits, RIGHT) <==> shows_normal(block_mesh_vertices(bits), [0i8, 0, 1]),
        has_bits(bits, LEFT) <==> shows_normal(block_mesh_vertices(bits), [0i8, 0, -1i8]),
        has_bits(bits, BACK) <==> shows_normal(block_mesh_vertices(bits), [1i8, 0, 0]),
        has_bits(bits, FRONT) <==> shows_normal(block_mesh_vertices(bits), [-1i8, 0, 0]),
        has_bits(bits, TOP) <==> shows_normal(block_mesh_vertices(bits), [0i8, 1, 0]),
        has_bits(bits, BOTTOM) <==> shows_normal(block_mesh_vertices(bits), [0i8, -1i8, 0]),
{
    lemma_faces_on_held_faces(bits, 6);
    let vs = block_mesh_vertices(bits);
    assert forall|n: [i8; 3]| #[trigger] shows_normal(vs, n) implies exists|i: int|
        0 <= i < vs.len() && on_held_face(vs[i], bits) && vs[i].normal == n by {
        let i = choose|i: int| 0 <= i < vs.len() && #[trigger] vs[i].normal == n;
        assert(on_held_face(vs[i], bits));
    }
}

/// The vertex with the given position, normal and texture coordinate.
fn vertex(pos: [i8; 3], normal: [i8; 3], tc: [i8; 2]) -> (v: BlockVertex)
    ensures
        v == vx(pos, normal, tc),
{
    BlockVertex { pos, normal, tex_coord: tc }
}

/// The four vertices of the k-th face in mesh order.
fn face_vertices(k: usize) -> (quad: Vec<BlockVertex>)
    requires
        k < 6,
    ensures
        quad@ == face_quad(k as int),
{
    let quad = if k == 0 {
        vec![
            vertex([-1, -1, 1], [0, 0, 1], [0, 0]),
            vertex([1, -1, 1], [0, 0, 1], [1, 0]),
            vertex([1, 1, 1], [0, 0, 1], [1, 1]),
            vertex([-1, 1, 1], [0, 0, 1], [0, 1]),
        ]
    } else if k == 1 {
        vec![
            vertex([-1, 1, -1], [0, 0, -1], [1, 0]),
            vertex([1, 1, -1], [0, 0, -1], [0, 0]),
            vertex([1, -1, -1], [0, 0, -1], [0, 1]),
            vertex([-1, -1, -1], [0, 0, -1], [1, 1]),
        ]
    } else if k == 2 {
        vec![
            vertex([1, -1, -1], [1, 0, 0], [0, 0]),
            vertex([1, 1, -1], [1, 0, 0], [1, 0]),
            vertex([1, 1, 1], [1, 0, 0], [1, 1]),
            vertex([1, -1, 1], [1, 0, 0], [0, 1]),
        ]
    } else if k == 3 {
        vec![
            vertex([-1, -1, 1], [-1, 0, 0], [1, 0]),
            vertex([-1, 1, 1], [-1, 0, 0], [0, 0]),
            vertex([-1, 1, -1], [-1, 0, 0], [0, 1]),
            vertex([-1, -1, -1], [-1, 0, 0], [1, 1]),
        ]
    } else if k == 4 {
        vec![
            vertex([1, 1, -1], [0, 1, 0], [1, 0]),
            vertex([-1, 1, -1], [0, 1, 0], [0, 0]),
            vertex([-1, 1, 1], [0, 1, 0], [0, 1]),
            vertex([1, 1, 1], [0, 1, 0], [1, 1]),
        ]
    } else {
        vec![
            vertex([1, -1, 1], [0, -1, 0], [0, 0]),
            vertex([-1, -1, 1], [0, -1, 0], [1, 0]),
            vertex([-1, -1, -1], [0, -1, 0], [1, 1]),
            vertex([1, -1, -1], [0, -1, 0], [0, 1]),
        ]
    };
    assert(quad@ =~= face_quad(k as int));
    quad
}

/// The bit of the k-th face in mesh order.
fn face_flag(k: usize) -> (flag: u32)
    requires
        k < 6,
    ensures
        flag == face_bit(k as int),
{
    if k == 0 {
        RIGHT
    } else if k == 1 {
        LEFT
    } else if k == 2 {
        BACK
    } else if k == 3 {
        FRONT
    } else if k == 4 {
        TOP
    } else {
        BOTTOM
    }
}

/// Appends the two triangles of the quad whose first vertex is `i_stack`.
fn push_quad(index_data: &mut Vec<u16>, i_stack: u16)
    requires
        i_stack % 4 == 0,
        i_stack <= 20,
    ensures
        final(index_data)@ == old(index_data)@ + quad_indices((i_stack / 4) as nat),
{
    index_data.push(i_stack + 0);
    index_data.push(i_stack + 1);
    index_data.push(i_stack + 2);
    index_data.push(i_stack + 2);
    index_data.push(i_stack + 3);
    index_data.push(i_stack + 0);
    assert(index_data@ =~= old(index_data)@ + quad_indices((i_stack / 4) as nat));
}

/// The mesh of a block with the faces of `faces`: four vertices and two
/// triangles for each face present, in mesh order.
pub fn create_vertices(faces: BlockFaces) -> (bundle: ModelBundle)
    ensures
        bundle.vertex_data@ == block_mesh_vertices(faces.bits),
        bundle.index_data@ == quads_indices(block_face_count(faces.bits)),
        bundle.vertex_data@.len() == 4 * block_face_count(faces.bits),
        bundle.index_data@.len() == 6 * block_face_count(faces.bits),
        forall|i: int|
            0 <= i < bundle.index_data@.len() ==> (#[trigger] bundle.index_data@[i]) < bundle.vertex_data@.len(),
{
    let mut bundle = ModelBundle { vertex_data: Vec::new(), index_data: Vec::new() };
    let mut i_stack: u16 = 0;
    let mut k: usize = 0;
    while k < 6
        invariant
            k <= 6,
            bundle.vertex_data@ == faces_vertices(faces.bits, k as nat),
            bundle.index_data@ == quads_indices(faces_count(faces.bits, k as nat)),
            i_stack == 4 * faces_count(faces.bits, k as nat),
        decreases 6 - k,
    {
        proof {
            lemma_faces_counts(faces.bits, k as nat);
        }
        let flag = face_flag(k);
        if faces.contains(BlockFaces { bits: flag }) {
            let mut quad = face_vertices(k);
            bundle.vertex_data.append(&mut quad);
            push_quad(&mut bundle.index_data, i_stack);
            i_stack = i_stack + 4;
        }
        k = k + 1;
    }
    proof {
        lemma_faces_counts(faces.bits, 6);
        lemma_quads_indices_len(faces_count(faces.bits, 6));
        lemma_quads_indices_in_range(faces_count(faces.bits, 6));
    }
    bundle
}

} // verus!
