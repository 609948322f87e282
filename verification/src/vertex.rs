//! The fixed-layout vertex record shared by every pipeline, and its byte
//! image in a vertex buffer.
//!
//! A record is a 3D position, an RGBA colour and a 2D texture coordinate,
//! each component a 32-bit float carried as its bit pattern. The byte layout
//! written into buffers must match, field for field, what the pipeline's
//! vertex-input description declares; [`lemma_vertex_layout_matches`] proves
//! that it does.

use vstd::prelude::*;

use crate::bytes::lemma_words_le_bytes_concat;
use crate::bytes::lemma_words_le_bytes_len;
use crate::bytes::push_u32_le;
use crate::bytes::u32_le_bytes;
use crate::bytes::words_le_bytes;

verus! {

/// One GPU vertex record; every component is a float bit pattern.
#[derive(Clone, Copy, Debug, PartialEq, Eq)]
pub struct ShapeVertex {
    pub position: [u32; 3],
    pub color: [u32; 4],
    pub tex_coords: [u32; 2],
}

/// How one vertex attribute is fed to the shader.
#[derive(Clone, Copy, Debug, PartialEq, Eq, Structural)]
pub enum VertexFormat {
    Float32x2,
    Float32x3,
    Float32x4,
}

/// One attribute of the vertex-input description: where it starts inside a
/// record and which shader slot receives it.
#[derive(Clone, Copy, Debug, PartialEq, Eq, Structural)]
pub struct VertexAttribute {
    pub offset: u64,
    pub shader_location: u32,
    pub format: VertexFormat,
}

/// The vertex-input description a pipeline declares: the record stride and
/// the attributes inside it.
pub struct VertexBufferLayout {
    pub array_stride: u64,
    pub attributes: Vec<VertexAttribute>,
}

impl ShapeVertex {
    /// The record's components in buffer order: position, colour, texture
    /// coordinates.
    pub open spec fn words(self) -> Seq<u32> {
        seq![
            self.position@[0],
            self.position@[1],
            self.position@[2],
            self.color@[0],
            self.color@[1],
            self.color@[2],
            self.color@[3],
            self.tex_coords@[0],
            self.tex_coords@[1],
        ]
    }

    /// The record's byte image: its nine words, little endian.
    pub open spec fn bytes(self) -> Seq<u8> {
        words_le_bytes(self.words())
    }

    /// The vertex-input description matching [`ShapeVertex`]'s layout.
    pub fn desc() -> (layout: VertexBufferLayout)
        ensures
            layout.array_stride == 36,
            layout.attributes@ == seq![
                VertexAttribute { offset: 0, shader_location: 0, format: VertexFormat::Float32x3 },
                VertexAttribute {
                    offset: 12,
                    shader_location: 1,
                    format: VertexFormat::Float32x4,
                },
                VertexAttribute {
                    offset: 28,
                    shader_location: 2,
                    format: VertexFormat::Float32x2,
                },
            ],
    {
        let mut attributes: Vec<VertexAttribute> = Vec::new();
        attributes.push(
            VertexAttribute { offset: 0, shader_location: 0, format: VertexFormat::Float32x3 },
        );
        attributes.push(
            VertexAttribute { offset: 12, shader_location: 1, format: VertexFormat::Float32x4 },
        );
        attributes.push(
            VertexAttribute { offset: 28, shader_location: 2, format: VertexFormat::Float32x2 },
        );
        assert(attributes@ =~= seq![
            VertexAttribute { offset: 0, shader_location: 0, format: VertexFormat::Float32x3 },
            VertexAttribute { offset: 12, shader_location: 1, format: VertexFormat::Float32x4 },
            VertexAttribute { offset: 28, shader_location: 2, format: VertexFormat::Float32x2 },
        ]);
        VertexBufferLayout { array_stride: 36, attributes }
    }
}

/// The byte image of a list of vertex records.
pub open spec fn mirror_bytes(vs: Seq<ShapeVertex>) -> Seq<u8>
    decreases vs.len(),
{
    if vs.len() == 0 {
        Seq::empty()
    } else {
        vs[0].bytes() + mirror_bytes(vs.skip(1))
    }
}

pub proof fn lemma_mirror_bytes_len(vs: Seq<ShapeVertex>)
    ensures
        mirror_bytes(vs).len() == 36 * vs.len(),
    decreases vs.len(),
{
    if vs.len() > 0 {
        lemma_words_le_bytes_len(vs[0].words());
        lemma_mirror_bytes_len(vs.skip(1));
    }
}

pub proof fn lemma_mirror_bytes_push(vs: Seq<ShapeVertex>, v: ShapeVertex)
    ensures
        mirror_bytes(vs.push(v)) == mirror_bytes(vs) + v.bytes(),
    decreases vs.len(),
{
    assert(vs.push(v)[0] == if vs.len() == 0 { v } else { vs[0] });
    if vs.len() == 0 {
        assert(vs =~= Seq::empty());
        assert(vs.push(v).skip(1) =~= Seq::empty());
        assert(mirror_bytes(vs.push(v)) =~= mirror_bytes(vs) + v.bytes());
    } else {
        assert(vs.push(v).skip(1) =~= vs.skip(1).push(v));
        lemma_mirror_bytes_push(vs.skip(1), v);
        assert(mirror_bytes(vs.push(v)) =~= mirror_bytes(vs) + v.bytes());
    }
}

/// Appends one record's nine words, little endian, to `out`.
pub fn push_vertex_bytes(out: &mut Vec<u8>, v: &ShapeVertex)
    ensures
        final(out)@ == old(out)@ + v.bytes(),
{
    push_u32_le(out, v.position[0]);
    push_u32_le(out, v.position[1]);
    push_u32_le(out, v.position[2]);
    push_u32_le(out, v.color[0]);
    push_u32_le(out, v.color[1]);
    push_u32_le(out, v.color[2]);
    push_u32_le(out, v.color[3]);
    push_u32_le(out, v.tex_coords[0]);
    push_u32_le(out, v.tex_coords[1]);
    proof {
        lemma_vertex_bytes_unfold(*v);
        assert(out@ =~= old(out)@ + v.bytes());
    }
}

/// A record's byte image is its nine component words in order.
proof fn lemma_vertex_bytes_unfold(v: ShapeVertex)
    ensures
        v.bytes() == u32_le_bytes(v.position@[0]) + u32_le_bytes(v.position@[1]) + u32_le_bytes(
            v.position@[2],
        ) + u32_le_bytes(v.color@[0]) + u32_le_bytes(v.color@[1]) + u32_le_bytes(v.color@[2])
            + u32_le_bytes(v.color@[3]) + u32_le_bytes(v.tex_coords@[0]) + u32_le_bytes(
            v.tex_coords@[1],
        ),
{
    let ws = v.words();
    assert(v.bytes() =~= u32_le_bytes(ws[0]) + u32_le_bytes(ws[1]) + u32_le_bytes(ws[2])
        + u32_le_bytes(ws[3]) + u32_le_bytes(ws[4]) + u32_le_bytes(ws[5]) + u32_le_bytes(ws[6])
        + u32_le_bytes(ws[7]) + u32_le_bytes(ws[8])) by {
        reveal_with_fuel(words_le_bytes, 10);
        assert(ws.skip(1).skip(1) =~= ws.skip(2));
        assert(ws.skip(2).skip(1) =~= ws.skip(3));
        assert(ws.skip(3).skip(1) =~= ws.skip(4));
        assert(ws.skip(4).skip(1) =~= ws.skip(5));
        assert(ws.skip(5).skip(1) =~= ws.skip(6));
        assert(ws.skip(6).skip(1) =~= ws.skip(7));
        assert(ws.skip(7).skip(1) =~= ws.skip(8));
        assert(ws.skip(8).skip(1) =~= Seq::<u32>::empty());
    }
}

/// The byte image of a whole CPU vertex mirror, as uploaded into a vertex
/// buffer.
pub fn vertices_to_bytes(vs: &Vec<ShapeVertex>) -> (out: Vec<u8>)
    ensures
        out@ == mirror_bytes(vs@),
{
    let mut out: Vec<u8> = Vec::new();
    let mut i: usize = 0;
    while i < vs.len()
        invariant
            i <= vs@.len(),
            out@ == mirror_bytes(vs@.take(i as int)),
        decreases vs@.len() - i,
    {
        proof {
            lemma_mirror_bytes_push(vs@.take(i as int), vs@[i as int]);
            assert(vs@.take(i as int).push(vs@[i as int]) =~= vs@.take(i as int + 1));
        }
        push_vertex_bytes(&mut out, &vs[i]);
        i += 1;
    }
    proof {
        assert(vs@.take(vs@.len() as int) =~= vs@);
    }
    out
}

/// The declared vertex-input description matches the byte image the library
/// writes: the stride is one record's byte length, and each attribute's
/// offset is where that field's words begin inside the record.
pub proof fn lemma_vertex_layout_matches(v: ShapeVertex)
    ensures
        v.bytes().len() == 36,
        v.bytes().subrange(0, 12) == words_le_bytes(
            seq![v.position@[0], v.position@[1], v.position@[2]],
        ),
        v.bytes().subrange(12, 28) == words_le_bytes(
            seq![v.color@[0], v.color@[1], v.color@[2], v.color@[3]],
        ),
        v.bytes().subrange(28, 36) == words_le_bytes(seq![v.tex_coords@[0], v.tex_coords@[1]]),
{
    lemma_words_le_bytes_len(v.words());
    let pos = seq![v.position@[0], v.position@[1], v.position@[2]];
    let col = seq![v.color@[0], v.color@[1], v.color@[2], v.color@[3]];
    let tex = seq![v.tex_coords@[0], v.tex_coords@[1]];
    assert(v.words() =~= pos + (col + tex));
    lemma_words_le_bytes_concat(pos, col + tex);
    lemma_words_le_bytes_concat(col, tex);
    lemma_words_le_bytes_len(pos);
    lemma_words_le_bytes_len(col);
    lemma_words_le_bytes_len(tex);
    assert(v.bytes().subrange(0, 12) =~= words_le_bytes(pos));
    assert(v.bytes().subrange(12, 28) =~= words_le_bytes(col));
    assert(v.bytes().subrange(28, 36) =~= words_le_bytes(tex));
}

} // verus!
