//! The byte images that the renderer uploads to GPU memory.
//!
//! The GPU reads the vertex buffer and the uniform buffer as packed
//! little-endian records, so the upload path must produce exactly that
//! layout.  The encoding is specified here field by field and the executable
//! encoders are proved against it; the same specification ties the
//! renderer's vertex model to the modeled GPU buffer content.

use crate::data::{Uniform, Vertex};
use vstd::prelude::*;

verus! {

/// Number of bytes of one encoded vertex: eight components, four bytes each.
pub const VERTEX_BYTES: usize = 32;

/// Number of bytes of the encoded transform uniform: four components, four
/// bytes each.
pub const UNIFORM_BYTES: usize = 16;

/// The four little-endian bytes of `x`.
pub open spec fn spec_u32_le(x: u32) -> Seq<u8> {
    seq![
        (x & 0xff) as u8,
        ((x >> 8) & 0xff) as u8,
        ((x >> 16) & 0xff) as u8,
        ((x >> 24) & 0xff) as u8,
    ]
}

/// The byte image of one vertex in GPU memory: position, normal and color
/// components in declaration order, each four bytes little-endian.
pub open spec fn spec_vertex_bytes(v: Vertex) -> Seq<u8> {
    spec_u32_le(v.position.0) + spec_u32_le(v.position.1) + spec_u32_le(v.normal.0)
        + spec_u32_le(v.normal.1) + spec_u32_le(v.color.0) + spec_u32_le(v.color.1) + spec_u32_le(
        v.color.2,
    ) + spec_u32_le(v.color.3)
}

/// The byte image of a sequence of vertices, one record after the other.
pub open spec fn spec_vertices_bytes(vs: Seq<Vertex>) -> Seq<u8>
    decreases vs.len(),
{
    if vs.len() == 0 {
        Seq::empty()
    } else {
        spec_vertex_bytes(vs[0]) + spec_vertices_bytes(vs.drop_first())
    }
}

/// The byte image of the transform uniform: both ends of the horizontal
/// bounds, then both ends of the vertical bounds, each four bytes
/// little-endian.
pub open spec fn spec_uniform_bytes(u: Uniform) -> Seq<u8> {
    spec_u32_le(u.x_bounds.0) + spec_u32_le(u.x_bounds.1) + spec_u32_le(u.y_bounds.0)
        + spec_u32_le(u.y_bounds.1)
}

/// One encoded vertex occupies exactly `VERTEX_BYTES` bytes.
pub proof fn lemma_vertex_bytes_len(v: Vertex)
    ensures
        spec_vertex_bytes(v).len() == VERTEX_BYTES,
{
}

/// An encoded vertex sequence occupies exactly `VERTEX_BYTES` bytes per
/// vertex.
pub proof fn lemma_vertices_bytes_len(vs: Seq<Vertex>)
    ensures
        spec_vertices_bytes(vs).len() == VERTEX_BYTES * vs.len(),
    decreases vs.len(),
{
    if vs.len() == 0 {
    } else {
        lemma_vertex_bytes_len(vs[0]);
        lemma_vertices_bytes_len(vs.drop_first());
    }
}

/// The encoded transform uniform occupies exactly `UNIFORM_BYTES` bytes.
pub proof fn lemma_uniform_bytes_len(u: Uniform)
    ensures
        spec_uniform_bytes(u).len() == UNIFORM_BYTES,
{
}

/// Encoding one vertex more appends one record to the byte image.
pub proof fn lemma_vertices_bytes_push(vs: Seq<Vertex>, v: Vertex)
    ensures
        spec_vertices_bytes(vs.push(v)) == spec_vertices_bytes(vs) + spec_vertex_bytes(v),
    decreases vs.len(),
{
    if vs.len() == 0 {
        let p = vs.push(v);
        assert(p[0] == v);
        assert(p.drop_first() =~= Seq::<Vertex>::empty());
        assert(spec_vertices_bytes(Seq::<Vertex>::empty()) == Seq::<u8>::empty());
        assert(vs =~= Seq::<Vertex>::empty());
        assert(spec_vertices_bytes(p) =~= spec_vertex_bytes(v));
        assert(spec_vertices_bytes(vs) + spec_vertex_bytes(v) =~= spec_vertex_bytes(v));
    } else {
        assert(vs.push(v)[0] == vs[0]);
        assert(vs.push(v).drop_first() =~= vs.drop_first().push(v));
        lemma_vertices_bytes_push(vs.drop_first(), v);
        assert(spec_vertices_bytes(vs.push(v)) =~= spec_vertices_bytes(vs) + spec_vertex_bytes(v));
    }
}

/// The encoding of two vertex sequences one after the other is the two byte
/// images one after the other.
pub proof fn lemma_vertices_bytes_concat(a: Seq<Vertex>, b: Seq<Vertex>)
    ensures
        spec_vertices_bytes(a + b) == spec_vertices_bytes(a) + spec_vertices_bytes(b),
    decreases a.len(),
{
    if a.len() == 0 {
        assert(a + b =~= b);
        assert(a =~= Seq::<Vertex>::empty());
        assert(spec_vertices_bytes(Seq::<Vertex>::empty()) == Seq::<u8>::empty());
        assert(spec_vertices_bytes(a) + spec_vertices_bytes(b) =~= spec_vertices_bytes(b));
    } else {
        assert((a + b).len() > 0);
        assert((a + b)[0] == a[0]);
        assert((a + b).drop_first() =~= a.drop_first() + b);
        lemma_vertices_bytes_concat(a.drop_first(), b);
        assert(spec_vertices_bytes(a + b) =~= spec_vertices_bytes(a) + spec_vertices_bytes(b));
    }
}

/// Dropping the first `n` vertices drops exactly their `VERTEX_BYTES * n`
/// bytes from the image.
pub proof fn lemma_vertices_bytes_skip(vs: Seq<Vertex>, n: int)
    requires
        0 <= n <= vs.len(),
    ensures
        spec_vertices_bytes(vs).skip(VERTEX_BYTES * n) == spec_vertices_bytes(vs.skip(n)),
{
    assert(vs =~= vs.take(n) + vs.skip(n));
    lemma_vertices_bytes_concat(vs.take(n), vs.skip(n));
    lemma_vertices_bytes_len(vs.take(n));
    assert((spec_vertices_bytes(vs.take(n)) + spec_vertices_bytes(vs.skip(n))).skip(
        VERTEX_BYTES * n,
    ) =~= spec_vertices_bytes(vs.skip(n)));
}

/// The all-zero vertex encodes to `VERTEX_BYTES` zero bytes.
pub proof fn lemma_zero_vertex_bytes()
    ensures
        spec_vertex_bytes(Vertex::zeroed()) == Seq::new(VERTEX_BYTES as nat, |i: int| 0u8),
{
    assert(0u32 & 0xff == 0) by (bit_vector);
    assert((0u32 >> 8) & 0xff == 0) by (bit_vector);
    assert((0u32 >> 16) & 0xff == 0) by (bit_vector);
    assert((0u32 >> 24) & 0xff == 0) by (bit_vector);
    assert(spec_vertex_bytes(Vertex::zeroed()) =~= Seq::new(VERTEX_BYTES as nat, |i: int| 0u8));
}

/// A buffer model of `n` all-zero vertices encodes to all zero bytes —
/// exactly the content of a freshly allocated, zero-initialised GPU buffer.
pub proof fn lemma_zero_vertices_bytes(n: nat)
    ensures
        spec_vertices_bytes(Seq::new(n, |i: int| Vertex::zeroed())) == Seq::new(
            (VERTEX_BYTES * n) as nat,
            |i: int| 0u8,
        ),
    decreases n,
{
    if n == 0 {
        assert(Seq::new(0, |i: int| Vertex::zeroed()) =~= Seq::<Vertex>::empty());
        assert(spec_vertices_bytes(Seq::<Vertex>::empty()) =~= Seq::new(
            (VERTEX_BYTES * 0) as nat,
            |i: int| 0u8,
        ));
    } else {
        lemma_zero_vertices_bytes((n - 1) as nat);
        assert(Seq::new(n, |i: int| Vertex::zeroed()) =~= Seq::new(
            (n - 1) as nat,
            |i: int| Vertex::zeroed(),
        ).push(Vertex::zeroed()));
        lemma_vertices_bytes_push(
            Seq::new((n - 1) as nat, |i: int| Vertex::zeroed()),
            Vertex::zeroed(),
        );
        lemma_zero_vertex_bytes();
        assert(Seq::new((VERTEX_BYTES * (n - 1)) as nat, |i: int| 0u8) + Seq::new(
            VERTEX_BYTES as nat,
            |i: int| 0u8,
        ) =~= Seq::new((VERTEX_BYTES * n) as nat, |i: int| 0u8));
    }
}

/// Appends the four little-endian bytes of `x` to `out`.
fn push_u32_le(out: &mut Vec<u8>, x: u32)
    ensures
        final(out)@ == old(out)@ + spec_u32_le(x),
{
    out.push((x & 0xff) as u8);
    out.push(((x >> 8) & 0xff) as u8);
    out.push(((x >> 16) & 0xff) as u8);
    out.push(((x >> 24) & 0xff) as u8);
    proof {
        assert(out@ =~= old(out)@ + spec_u32_le(x));
    }
}

/// Appends the byte image of `v` to `out`.
fn push_vertex_bytes(v: &Vertex, out: &mut Vec<u8>)
    ensures
        final(out)@ == old(out)@ + spec_vertex_bytes(*v),
{
    push_u32_le(out, v.position.0);
    push_u32_le(out, v.position.1);
    push_u32_le(out, v.normal.0);
    push_u32_le(out, v.normal.1);
    push_u32_le(out, v.color.0);
    push_u32_le(out, v.color.1);
    push_u32_le(out, v.color.2);
    push_u32_le(out, v.color.3);
    proof {
        assert(out@ =~= old(out)@ + spec_vertex_bytes(*v));
    }
}

/// The byte image of the first `count` vertices of `points`, exactly as the
/// GPU vertex buffer stores them.
pub fn vertices_bytes(points: &[Vertex], count: usize) -> (r: Vec<u8>)
    requires
        count <= points@.len(),
    ensures
        r@ == spec_vertices_bytes(points@.take(count as int)),
        r@.len() == VERTEX_BYTES * count,
{
    let mut out: Vec<u8> = Vec::new();
    proof {
        assert(points@.take(0) =~= Seq::<Vertex>::empty());
    }
    let mut i: usize = 0;
    while i < count
        invariant
            i <= count,
            count <= points@.len(),
            out@ == spec_vertices_bytes(points@.take(i as int)),
        decreases count - i,
    {
        push_vertex_bytes(&points[i], &mut out);
        proof {
            assert(points@.take(i as int).push(points@[i as int]) =~= points@.take(i + 1));
            lemma_vertices_bytes_push(points@.take(i as int), points@[i as int]);
        }
        i += 1;
    }
    proof {
        lemma_vertices_bytes_len(points@.take(count as int));
    }
    out
}

/// The byte image of the transform uniform `u`, exactly as the GPU uniform
/// buffer stores it.
pub fn uniform_bytes(u: &Uniform) -> (r: Vec<u8>)
    ensures
        r@ == spec_uniform_bytes(*u),
        r@.len() == UNIFORM_BYTES,
{
    let mut out: Vec<u8> = Vec::new();
    push_u32_le(&mut out, u.x_bounds.0);
    push_u32_le(&mut out, u.x_bounds.1);
    push_u32_le(&mut out, u.y_bounds.0);
    push_u32_le(&mut out, u.y_bounds.1);
    proof {
        assert(out@ =~= spec_uniform_bytes(*u));
    }
    out
}

} // verus!
