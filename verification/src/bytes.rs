//! The byte layout of GPU-resident data.
//!
//! Every buffer the library fills is a little-endian image of 32-bit words
//! (float bit patterns) or 16-bit words (indices). These functions pin that
//! layout down exactly.

use vstd::prelude::*;

verus! {

/// The four little-endian bytes of a 32-bit word.
pub open spec fn u32_le_bytes(w: u32) -> Seq<u8> {
    seq![
        (w % 256) as u8,
        ((w / 256) % 256) as u8,
        ((w / 65536) % 256) as u8,
        ((w / 16777216) % 256) as u8,
    ]
}

/// The two little-endian bytes of a 16-bit word.
pub open spec fn u16_le_bytes(w: u16) -> Seq<u8> {
    seq![(w % 256) as u8, ((w / 256) % 256) as u8]
}

/// The little-endian image of a sequence of 32-bit words.
pub open spec fn words_le_bytes(ws: Seq<u32>) -> Seq<u8>
    decreases ws.len(),
{
    if ws.len() == 0 {
        Seq::empty()
    } else {
        u32_le_bytes(ws[0]) + words_le_bytes(ws.skip(1))
    }
}

/// The little-endian image of a sequence of 16-bit words.
pub open spec fn words16_le_bytes(ws: Seq<u16>) -> Seq<u8>
    decreases ws.len(),
{
    if ws.len() == 0 {
        Seq::empty()
    } else {
        u16_le_bytes(ws[0]) + words16_le_bytes(ws.skip(1))
    }
}

pub proof fn lemma_words_le_bytes_len(ws: Seq<u32>)
    ensures
        words_le_bytes(ws).len() == 4 * ws.len(),
    decreases ws.len(),
{
    if ws.len() > 0 {
        lemma_words_le_bytes_len(ws.skip(1));
    }
}

pub proof fn lemma_words_le_bytes_push(ws: Seq<u32>, w: u32)
    ensures
        words_le_bytes(ws.push(w)) == words_le_bytes(ws) + u32_le_bytes(w),
    decreases ws.len(),
{
    assert(ws.push(w)[0] == if ws.len() == 0 { w } else { ws[0] });
    if ws.len() == 0 {
        assert(ws =~= Seq::empty());
        assert(ws.push(w).skip(1) =~= Seq::empty());
        assert(words_le_bytes(ws.push(w)) =~= words_le_bytes(ws) + u32_le_bytes(w));
    } else {
        assert(ws.push(w).skip(1) =~= ws.skip(1).push(w));
        lemma_words_le_bytes_push(ws.skip(1), w);
        assert(words_le_bytes(ws.push(w)) =~= words_le_bytes(ws) + u32_le_bytes(w));
    }
}

pub proof fn lemma_words16_le_bytes_push(ws: Seq<u16>, w: u16)
    ensures
        words16_le_bytes(ws.push(w)) == words16_le_bytes(ws) + u16_le_bytes(w),
    decreases ws.len(),
{
    assert(ws.push(w)[0] == if ws.len() == 0 { w } else { ws[0] });
    if ws.len() == 0 {
        assert(ws =~= Seq::empty());
        assert(ws.push(w).skip(1) =~= Seq::empty());
        assert(words16_le_bytes(ws.push(w)) =~= words16_le_bytes(ws) + u16_le_bytes(w));
    } else {
        assert(ws.push(w).skip(1) =~= ws.skip(1).push(w));
        lemma_words16_le_bytes_push(ws.skip(1), w);
        assert(words16_le_bytes(ws.push(w)) =~= words16_le_bytes(ws) + u16_le_bytes(w));
    }
}

/// Concatenating word sequences concatenates their byte images.
pub proof fn lemma_words_le_bytes_concat(a: Seq<u32>, b: Seq<u32>)
    ensures
        words_le_bytes(a + b) == words_le_bytes(a) + words_le_bytes(b),
    decreases a.len(),
{
    if a.len() == 0 {
        assert(a + b =~= b);
        assert(words_le_bytes(a) + words_le_bytes(b) =~= words_le_bytes(b));
    } else {
        assert((a + b).skip(1) =~= a.skip(1) + b);
        lemma_words_le_bytes_concat(a.skip(1), b);
        assert(words_le_bytes(a + b) =~= words_le_bytes(a) + words_le_bytes(b));
    }
}

/// Appends the four little-endian bytes of `w` to `out`.
pub fn push_u32_le(out: &mut Vec<u8>, w: u32)
    ensures
        final(out)@ == old(out)@ + u32_le_bytes(w),
{
    out.push((w % 256) as u8);
    out.push(((w / 256) % 256) as u8);
    out.push(((w / 65536) % 256) as u8);
    out.push(((w / 16777216) % 256) as u8);
    assert(out@ =~= old(out)@ + u32_le_bytes(w));
}

/// Appends the two little-endian bytes of `w` to `out`.
pub fn push_u16_le(out: &mut Vec<u8>, w: u16)
    ensures
        final(out)@ == old(out)@ + u16_le_bytes(w),
{
    out.push((w % 256) as u8);
    out.push(((w / 256) % 256) as u8);
    assert(out@ =~= old(out)@ + u16_le_bytes(w));
}

/// The little-endian byte image of a list of 32-bit words.
pub fn words_to_bytes(ws: &Vec<u32>) -> (out: Vec<u8>)
    ensures
        out@ == words_le_bytes(ws@),
{
    let mut out: Vec<u8> = Vec::new();
    let mut i: usize = 0;
    while i < ws.len()
        invariant
            i <= ws@.len(),
            out@ == words_le_bytes(ws@.take(i as int)),
        decreases ws@.len() - i,
    {
        proof {
            lemma_words_le_bytes_push(ws@.take(i as int), ws@[i as int]);
            assert(ws@.take(i as int).push(ws@[i as int]) =~= ws@.take(i as int + 1));
        }
        push_u32_le(&mut out, ws[i]);
        i += 1;
    }
    proof {
        assert(ws@.take(ws@.len() as int) =~= ws@);
    }
    out
}

/// The little-endian byte image of a matrix's sixteen words.
pub fn matrix_to_bytes(m: &[u32; 16]) -> (out: Vec<u8>)
    ensures
        out@ == words_le_bytes(m@),
{
    let mut out: Vec<u8> = Vec::new();
    let mut i: usize = 0;
    while i < 16
        invariant
            i <= 16,
            m@.len() == 16,
            out@ == words_le_bytes(m@.take(i as int)),
        decreases 16 - i,
    {
        proof {
            lemma_words_le_bytes_push(m@.take(i as int), m@[i as int]);
            assert(m@.take(i as int).push(m@[i as int]) =~= m@.take(i as int + 1));
        }
        push_u32_le(&mut out, m[i]);
        i += 1;
    }
    proof {
        assert(m@.take(16) =~= m@);
    }
    out
}

/// The little-endian byte image of a list of 16-bit words.
pub fn words16_to_bytes(ws: &Vec<u16>) -> (out: Vec<u8>)
    ensures
        out@ == words16_le_bytes(ws@),
{
    let mut out: Vec<u8> = Vec::new();
    let mut i: usize = 0;
    while i < ws.len()
        invariant
            i <= ws@.len(),
            out@ == words16_le_bytes(ws@.take(i as int)),
        decreases ws@.len() - i,
    {
        proof {
            lemma_words16_le_bytes_push(ws@.take(i as int), ws@[i as int]);
            assert(ws@.take(i as int).push(ws@[i as int]) =~= ws@.take(i as int + 1));
        }
        push_u16_le(&mut out, ws[i]);
        i += 1;
    }
    proof {
        assert(ws@.take(ws@.len() as int) =~= ws@);
    }
    out
}

} // verus!
