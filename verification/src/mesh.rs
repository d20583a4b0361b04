//! Mesh output types: vertices, colors, and the per-frame buffer pair
//! that accumulates triangles across draw calls.

use vstd::prelude::*;

verus! {

/// An RGBA color with 8-bit channels. Converted once per draw call into
/// the per-vertex color of every vertex that call generates.
#[derive(Clone, Copy, Debug, PartialEq, Eq, Structural)]
pub struct Color {
    pub red: u8,
    pub green: u8,
    pub blue: u8,
    pub alpha: u8,
}

/// A tessellator-produced position: the two single-precision coordinates
/// carried as their bit patterns, so that the mesh holds them losslessly
/// while staying in plain integer data.
#[derive(Clone, Copy, Debug, PartialEq, Eq, Structural)]
pub struct RawVertex {
    pub x_bits: u32,
    pub y_bits: u32,
}

/// One mesh vertex: a position (as two single-precision bit patterns)
/// plus the flat color of the draw call that produced it.
#[derive(Clone, Copy, Debug, PartialEq, Eq, Structural)]
pub struct Vertex {
    pub x_bits: u32,
    pub y_bits: u32,
    pub color: Color,
}

/// The raw position dressed with a draw call's flat color.
pub open spec fn colored(rv: RawVertex, color: Color) -> Vertex {
    Vertex { x_bits: rv.x_bits, y_bits: rv.y_bits, color }
}

/// A whole mesh's positions dressed with one flat color.
pub open spec fn colored_seq(vs: Seq<RawVertex>, color: Color) -> Seq<Vertex> {
    vs.map(|i: int, v: RawVertex| colored(v, color))
}

/// Indices shifted up by the vertex count already present, so that they
/// keep pointing at their own mesh's vertices after the append.
pub open spec fn shifted_seq(is: Seq<u32>, offset: int) -> Seq<u32> {
    is.map(|i: int, x: u32| (x + offset) as u32)
}

/// An ordered sequence of vertices plus an ordered sequence of 32-bit
/// indices (triples forming triangles), appended to across many draw
/// calls within one frame; insertion order preserves draw call order.
#[derive(Clone, Debug, PartialEq, Eq)]
pub struct BufferPair {
    pub vertices: Vec<Vertex>,
    pub indices: Vec<u32>,
}

impl BufferPair {
    /// Every index points at a vertex of the pair, and the vertex count
    /// still fits the 32-bit index space.
    pub open spec fn wf(self) -> bool {
        self.vertices@.len() <= u32::MAX && forall|i: int|
            0 <= i < self.indices@.len() ==> (#[trigger] self.indices@[i] as int)
                < self.vertices@.len()
    }

    pub open spec fn is_empty_spec(self) -> bool {
        self.vertices@.len() == 0 && self.indices@.len() == 0
    }

    pub fn new() -> (b: BufferPair)
        ensures
            b.is_empty_spec(),
            b.wf(),
    {
        BufferPair { vertices: Vec::new(), indices: Vec::new() }
    }

    /// Append one tessellated mesh: its positions, dressed with the draw
    /// call's flat color, and its indices, offset by the vertex count
    /// already present so earlier triangles are untouched. Returns false,
    /// leaving the pair unchanged, only when the combined vertex count
    /// would no longer fit the 32-bit index space.
    pub fn append_mesh(&mut self, vs: &Vec<RawVertex>, is: &Vec<u32>, color: Color) -> (ok: bool)
        requires
            old(self).wf(),
            forall|i: int| 0 <= i < is@.len() ==> (#[trigger] is@[i] as int) < vs@.len(),
        ensures
            final(self).wf(),
            ok == (old(self).vertices@.len() + vs@.len() <= u32::MAX),
            ok ==> final(self).vertices@ == old(self).vertices@ + colored_seq(vs@, color),
            ok ==> final(self).indices@ == old(self).indices@ + shifted_seq(
                is@,
                old(self).vertices@.len() as int,
            ),
            !ok ==> *final(self) == *old(self),
    {
        let offset_usize: usize = self.vertices.len();
        if vs.len() > (u32::MAX as usize) - offset_usize {
            return false;
        }
        let offset: u32 = offset_usize as u32;
        let mut i: usize = 0;
        while i < vs.len()
            invariant
                i <= vs@.len(),
                offset as int == old(self).vertices@.len() as int,
                old(self).vertices@.len() + vs@.len() <= u32::MAX,
                self.indices@ == old(self).indices@,
                self.vertices@.len() == old(self).vertices@.len() + i,
                forall|k: int|
                    0 <= k < old(self).vertices@.len() ==> self.vertices@[k] == old(
                        self,
                    ).vertices@[k],
                forall|k: int|
                    0 <= k < i ==> self.vertices@[old(self).vertices@.len() + k] == colored(
                        vs@[k],
                        color,
                    ),
            decreases vs@.len() - i,
        {
            let rv = vs[i];
            self.vertices.push(Vertex { x_bits: rv.x_bits, y_bits: rv.y_bits, color });
            i = i + 1;
        }
        let mut j: usize = 0;
        while j < is.len()
            invariant
                j <= is@.len(),
                offset as int == old(self).vertices@.len() as int,
                old(self).vertices@.len() + vs@.len() <= u32::MAX,
                forall|k: int| 0 <= k < is@.len() ==> (#[trigger] is@[k] as int) < vs@.len(),
                self.vertices@ == old(self).vertices@ + colored_seq(vs@, color),
                self.indices@.len() == old(self).indices@.len() + j,
                forall|k: int|
                    0 <= k < old(self).indices@.len() ==> self.indices@[k] == old(self).indices@[k],
                forall|k: int|
                    0 <= k < j ==> self.indices@[old(self).indices@.len() + k] == (is@[k]
                        + offset) as u32,
                old(self).wf(),
            decreases is@.len() - j,
        {
            let ix = is[j];
            self.indices.push(ix + offset);
            j = j + 1;
        }
        proof {
            assert(self.vertices@ =~= old(self).vertices@ + colored_seq(vs@, color));
            assert(self.indices@ =~= old(self).indices@ + shifted_seq(
                is@,
                old(self).vertices@.len() as int,
            ));
            assert forall|k: int| 0 <= k < self.indices@.len() implies (
            #[trigger] self.indices@[k] as int) < self.vertices@.len() by {
                if k < old(self).indices@.len() {
                } else {
                    assert(self.indices@[k] == shifted_seq(
                        is@,
                        old(self).vertices@.len() as int,
                    )[k - old(self).indices@.len()]);
                }
            }
        }
        true
    }
}

/// Law: after the buffer pair has been taken (leaving an empty one), the
/// next appended mesh starts index numbering from zero again — appending
/// into an empty pair keeps the mesh's own indices unshifted.
pub proof fn lemma_append_to_empty_keeps_indices(
    b0: BufferPair,
    b1: BufferPair,
    vs: Seq<RawVertex>,
    is: Seq<u32>,
    color: Color,
)
    requires
        b0.is_empty_spec(),
        b1.vertices@ == b0.vertices@ + colored_seq(vs, color),
        b1.indices@ == b0.indices@ + shifted_seq(is, b0.vertices@.len() as int),
    ensures
        b1.vertices@ == colored_seq(vs, color),
        b1.indices@ == is,
{
    assert(b1.vertices@ =~= colored_seq(vs, color));
    assert(b1.indices@ =~= is);
}

/// Law: appended meshes accumulate correctly. A second mesh leaves every
/// earlier vertex and index untouched, and its own indices land offset
/// by exactly the vertex count already present, so triangles of
/// successive draw calls never collide.
pub proof fn lemma_appends_accumulate(
    b0: BufferPair,
    b1: BufferPair,
    b2: BufferPair,
    vs1: Seq<RawVertex>,
    is1: Seq<u32>,
    color1: Color,
    vs2: Seq<RawVertex>,
    is2: Seq<u32>,
    color2: Color,
)
    requires
        b1.vertices@ == b0.vertices@ + colored_seq(vs1, color1),
        b1.indices@ == b0.indices@ + shifted_seq(is1, b0.vertices@.len() as int),
        b2.vertices@ == b1.vertices@ + colored_seq(vs2, color2),
        b2.indices@ == b1.indices@ + shifted_seq(is2, b1.vertices@.len() as int),
    ensures
        b2.vertices@.take(b1.vertices@.len() as int) == b1.vertices@,
        b2.indices@.take(b1.indices@.len() as int) == b1.indices@,
        forall|k: int|
            0 <= k < is2.len() ==> b2.indices@[b1.indices@.len() + k] == (is2[k] + (
            b0.vertices@.len() + vs1.len())) as u32,
{
    assert(b2.vertices@.take(b1.vertices@.len() as int) =~= b1.vertices@);
    assert(b2.indices@.take(b1.indices@.len() as int) =~= b1.indices@);
    assert(b1.vertices@.len() == b0.vertices@.len() + vs1.len());
    assert forall|k: int| 0 <= k < is2.len() implies b2.indices@[b1.indices@.len() + k] == (is2[k]
        + (b0.vertices@.len() + vs1.len())) as u32 by {
        assert(b2.indices@[b1.indices@.len() + k] == shifted_seq(
            is2,
            b1.vertices@.len() as int,
        )[k]);
    }
}

impl Default for BufferPair {
    fn default() -> (b: BufferPair)
        ensures
            b.is_empty_spec(),
            b.wf(),
    {
        BufferPair::new()
    }
}

} // verus!
