//! Pixel-block interleaving.
//!
//! A pixel buffer is a flattened sequence of RGBA pixels, four bytes per
//! pixel. Two equal-length, 4-aligned buffers are merged by copying one
//! 4-byte pixel block at a time, taking the block from the first buffer
//! whenever its byte offset is a multiple of 8 (equivalently, whenever its
//! pixel index is even) and from the second buffer otherwise.

use vstd::prelude::*;

verus! {

/// The byte at offset `i` of the interleaving of `a` and `b`: it comes from
/// `a` when the pixel index `i / 4` is even, and from `b` when it is odd.
pub open spec fn interleaved_byte(a: Seq<u8>, b: Seq<u8>, i: int) -> u8 {
    if (i / 4) % 2 == 0 {
        a[i]
    } else {
        b[i]
    }
}

/// The interleaving of two equal-length pixel buffers: a buffer of the same
/// length whose pixel block at even pixel index `p` is block `p` of `a`, and
/// at odd `p` is block `p` of `b`.
pub open spec fn interleaved(a: Seq<u8>, b: Seq<u8>) -> Seq<u8> {
    Seq::new(a.len(), |i: int| interleaved_byte(a, b, i))
}

/// At a byte offset that starts a pixel block, selecting by the offset
/// modulo 8 agrees with selecting by the parity of the pixel index.
proof fn lemma_block_selector(i: u64)
    requires
        i % 4 == 0,
    ensures
        (i % 8 == 0) <==> ((i / 4) % 2 == 0),
{
    assert((i % 8 == 0) <==> ((i / 4) % 2 == 0)) by (bit_vector)
        requires
            i % 4 == 0,
    ;
}

/// Copies the bytes of `vec` at offsets `start` through `end`, inclusive,
/// into a fresh buffer. Visiting an offset out of bounds is a caller error.
pub fn set_rgba(vec: &Vec<u8>, start: usize, end: usize) -> (rgba: Vec<u8>)
    requires
        start <= end < vec@.len(),
    ensures
        rgba@ == vec@.subrange(start as int, end + 1),
{
    let mut rgba: Vec<u8> = Vec::new();
    let mut i: usize = start;
    while i <= end
        invariant
            start <= i <= end + 1,
            end < vec.len(),
            rgba@ == vec@.subrange(start as int, i as int),
        decreases end + 1 - i,
    {
        rgba.push(vec[i]);
        i = i + 1;
        assert(rgba@ =~= vec@.subrange(start as int, i as int));
    }
    rgba
}

/// Merges two equal-length, 4-aligned pixel buffers into a fresh buffer of
/// the same length by copying 4-byte pixel blocks alternately: the block at
/// byte offset `i` comes from `vec_1` when `i % 8 == 0` and from `vec_2`
/// otherwise.
pub fn alternate_pixels(vec_1: Vec<u8>, vec_2: Vec<u8>) -> (combined_data: Vec<u8>)
    requires
        vec_1@.len() == vec_2@.len(),
        vec_1@.len() % 4 == 0,
    ensures
        combined_data@.len() == vec_1@.len(),
        combined_data@ == interleaved(vec_1@, vec_2@),
{
    let mut combined_data: Vec<u8> = Vec::new();
    let mut i: usize = 0;
    while i < vec_1.len()
        invariant
            vec_1@.len() == vec_2@.len(),
            vec_1@.len() % 4 == 0,
            i % 4 == 0,
            i <= vec_1@.len(),
            combined_data@ == interleaved(vec_1@, vec_2@).subrange(0, i as int),
        decreases vec_1@.len() - i,
    {
        assert(i + 4 <= vec_1@.len());

        let rgba = if i % 8 == 0 {
            set_rgba(&vec_1, i, i + 3)
        } else {
            set_rgba(&vec_2, i, i + 3)
        };

        combined_data.push(rgba[0]);
        combined_data.push(rgba[1]);
        combined_data.push(rgba[2]);
        combined_data.push(rgba[3]);

        proof {
            lemma_block_selector(i as u64);
            assert(forall|j: int| i <= j < i + 4 ==> #[trigger] (j / 4) == i as int / 4);
            assert(combined_data@ =~= interleaved(vec_1@, vec_2@).subrange(0, i + 4));
        }

        i = i + 4;
    }
    assert(combined_data@ =~= interleaved(vec_1@, vec_2@));
    combined_data
}

/// For every pixel index `p` in range, the `p`-th 4-byte block of the
/// interleaving is the `p`-th block of `a` when `p` is even and the `p`-th
/// block of `b` when `p` is odd.
pub proof fn lemma_interleaved_block(a: Seq<u8>, b: Seq<u8>, p: int)
    requires
        a.len() == b.len(),
        a.len() % 4 == 0,
        0 <= p,
        4 * p + 4 <= a.len(),
    ensures
        p % 2 == 0 ==> interleaved(a, b).subrange(4 * p, 4 * p + 4) == a.subrange(4 * p, 4 * p + 4),
        p % 2 != 0 ==> interleaved(a, b).subrange(4 * p, 4 * p + 4) == b.subrange(4 * p, 4 * p + 4),
{
    assert(forall|j: int| 4 * p <= j < 4 * p + 4 ==> #[trigger] (j / 4) == p);
    if p % 2 == 0 {
        assert(interleaved(a, b).subrange(4 * p, 4 * p + 4) =~= a.subrange(4 * p, 4 * p + 4));
    } else {
        assert(interleaved(a, b).subrange(4 * p, 4 * p + 4) =~= b.subrange(4 * p, 4 * p + 4));
    }
}

/// Interleaving is order-sensitive: for equal-length, 4-aligned buffers,
/// swapping the two sources changes the result whenever the sources differ.
pub proof fn lemma_interleaved_asymmetric(a: Seq<u8>, b: Seq<u8>)
    requires
        a.len() == b.len(),
        a.len() % 4 == 0,
        a != b,
    ensures
        interleaved(a, b) != interleaved(b, a),
{
    assert(exists|i: int| 0 <= i < a.len() && a[i] != b[i]) by {
        if forall|i: int| 0 <= i < a.len() ==> a[i] == b[i] {
            assert(a =~= b);
        }
    }
    let i = choose|i: int| 0 <= i < a.len() && a[i] != b[i];
    if interleaved(a, b) == interleaved(b, a) {
        assert(interleaved(a, b)[i] == interleaved(b, a)[i]);
        assert(false);
    }
}

} // verus!
