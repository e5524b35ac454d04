//! Interleaving of two RGBA byte buffers, pixel by pixel.

use vstd::prelude::*;

verus! {

/// The bytes of pixel `k` of `bytes`: the four bytes from offset `4 * k` on.
pub open spec fn pixel_group(bytes: Seq<u8>, k: int) -> Seq<u8> {
    bytes.subrange(4 * k, 4 * k + 4)
}

/// The interleaving of `a` and `b`: as long as `a`, with every byte of an
/// even-numbered pixel taken from `a` and every byte of an odd-numbered pixel
/// taken from `b`, each at its own offset.
pub open spec fn interleave(a: Seq<u8>, b: Seq<u8>) -> Seq<u8> {
    Seq::new(a.len(), |i: int| if (i / 4) % 2 == 0 { a[i] } else { b[i] })
}

/// Each whole pixel of the interleaving is the pixel at the same place in `a`
/// where its number is even, and in `b` where it is odd.
pub proof fn lemma_interleave_pixel_groups(a: Seq<u8>, b: Seq<u8>)
    requires
        a.len() == b.len(),
    ensures
        interleave(a, b).len() == a.len(),
        forall|k: int|
            0 <= k && 4 * k + 4 <= a.len() ==> #[trigger] pixel_group(interleave(a, b), k) == (if k
                % 2 == 0 {
                pixel_group(a, k)
            } else {
                pixel_group(b, k)
            }),
{
    assert forall|k: int| 0 <= k && 4 * k + 4 <= a.len() implies #[trigger] pixel_group(
        interleave(a, b),
        k,
    ) == (if k % 2 == 0 {
        pixel_group(a, k)
    } else {
        pixel_group(b, k)
    }) by {
        let source = if k % 2 == 0 { a } else { b };
        assert forall|j: int| 0 <= j < 4 implies pixel_group(interleave(a, b), k)[j]
            == pixel_group(source, k)[j] by {
            assert((4 * k + j) / 4 == k);
        }
        assert(pixel_group(interleave(a, b), k) =~= pixel_group(source, k));
    }
}

/// The order of the two buffers matters: swapping two buffers of one length
/// that differ anywhere changes the interleaving.
pub proof fn lemma_interleave_not_commutative(a: Seq<u8>, b: Seq<u8>)
    requires
        a.len() == b.len(),
        a != b,
    ensures
        interleave(a, b) != interleave(b, a),
{
    if interleave(a, b) == interleave(b, a) {
        assert forall|i: int| 0 <= i < a.len() implies a[i] == b[i] by {
            assert(interleave(a, b)[i] == interleave(b, a)[i]);
        }
        assert(a =~= b);
    }
}

/// Copies the bytes of `vec` from index `start` up to and including index
/// `end`; nothing where `start` lies behind `end`.
pub fn set_rgba(vec: &Vec<u8>, start: usize, end: usize) -> (rgba: Vec<u8>)
    requires
        start <= end ==> end < vec.len(),
    ensures
        rgba@ == (if start <= end {
            vec@.subrange(start as int, end + 1)
        } else {
            Seq::<u8>::empty()
        }),
{
    let mut rgba: Vec<u8> = Vec::new();
    let mut i: usize = start;
    while i <= end
        invariant
            start <= end ==> end < vec.len(),
            start <= i,
            start <= end ==> i <= end + 1,
            rgba@ == (if start <= end {
                vec@.subrange(start as int, i as int)
            } else {
                Seq::<u8>::empty()
            }),
        decreases end + 1 - i,
    {
        rgba.push(vec[i]);
        i += 1;
    }
    rgba
}

/// Interleaves two buffers of whole RGBA pixels: pixel 0 from `vec_1`, pixel 1
/// from `vec_2`, pixel 2 from `vec_1` again, and so on, each pixel at the
/// offset it had in its source.
pub fn alternate_pixels(vec_1: Vec<u8>, vec_2: Vec<u8>) -> (combined_data: Vec<u8>)
    requires
        vec_1.len() == vec_2.len(),
        vec_1.len() % 4 == 0,
    ensures
        combined_data@ == interleave(vec_1@, vec_2@),
        combined_data@.len() == vec_1@.len(),
        forall|k: int|
            0 <= k && 4 * k + 4 <= vec_1@.len() ==> #[trigger] pixel_group(combined_data@, k) == (
            if k % 2 == 0 {
                pixel_group(vec_1@, k)
            } else {
                pixel_group(vec_2@, k)
            }),
{
    let mut combined_data: Vec<u8> = Vec::new();
    let mut i: usize = 0;
    while i < vec_1.len()
        invariant
            vec_1.len() == vec_2.len(),
            vec_1.len() % 4 == 0,
            i % 4 == 0,
            i <= vec_1.len(),
            combined_data@ == interleave(vec_1@, vec_2@).subrange(0, i as int),
        decreases vec_1.len() - i,
    {
        let mut rgba = if i % 8 == 0 {
            set_rgba(&vec_1, i, i + 3)
        } else {
            set_rgba(&vec_2, i, i + 3)
        };
        proof {
            let whole = interleave(vec_1@, vec_2@);
            assert forall|j: int| i <= j < i + 4 implies rgba@[j - i] == whole[j] by {
                assert(j / 4 == i / 4);
            }
            assert(whole.subrange(0, i as int) + rgba@ =~= whole.subrange(0, i + 4));
        }
        combined_data.append(&mut rgba);
        i += 4;
    }
    proof {
        assert(combined_data@ =~= interleave(vec_1@, vec_2@));
        lemma_interleave_pixel_groups(vec_1@, vec_2@);
    }
    combined_data
}

} // verus!
