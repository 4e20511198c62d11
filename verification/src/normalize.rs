//! Full-range linear normalization of 16-bit sample buffers.
//!
//! A decoded disparity map is a non-empty sequence of 16-bit samples.
//! Normalization stretches the occupied value range to the full 8-bit
//! range: the global minimum maps to 0, the global maximum to 255, and
//! everything between is rescaled linearly with truncating division.

use vstd::arithmetic::div_mod::{lemma_div_is_ordered, lemma_div_multiples_vanish};
use vstd::prelude::*;

verus! {

/// Smallest element of a non-empty sequence of samples.
pub open spec fn seq_min(s: Seq<u16>) -> u16
    recommends
        s.len() > 0,
    decreases s.len(),
{
    if s.len() <= 1 {
        s[0]
    } else if s.last() < seq_min(s.drop_last()) {
        s.last()
    } else {
        seq_min(s.drop_last())
    }
}

/// Largest element of a non-empty sequence of samples.
pub open spec fn seq_max(s: Seq<u16>) -> u16
    recommends
        s.len() > 0,
    decreases s.len(),
{
    if s.len() <= 1 {
        s[0]
    } else if s.last() > seq_max(s.drop_last()) {
        s.last()
    } else {
        seq_max(s.drop_last())
    }
}

/// The minimum is a lower bound for every element.
pub proof fn lemma_seq_min_le(s: Seq<u16>, i: int)
    requires
        0 <= i < s.len(),
    ensures
        seq_min(s) <= s[i],
    decreases s.len(),
{
    if s.len() > 1 && i < s.len() - 1 {
        lemma_seq_min_le(s.drop_last(), i);
    }
}

/// The maximum is an upper bound for every element.
pub proof fn lemma_seq_max_ge(s: Seq<u16>, i: int)
    requires
        0 <= i < s.len(),
    ensures
        seq_max(s) >= s[i],
    decreases s.len(),
{
    if s.len() > 1 && i < s.len() - 1 {
        lemma_seq_max_ge(s.drop_last(), i);
    }
}

/// Smallest and largest sample of a non-empty buffer, in one pass.
pub fn sample_extrema(samples: &[u16]) -> (r: (u16, u16))
    requires
        samples@.len() > 0,
    ensures
        r.0 == seq_min(samples@),
        r.1 == seq_max(samples@),
{
    let mut mn = samples[0];
    let mut mx = samples[0];
    let mut i: usize = 1;
    while i < samples.len()
        invariant
            1 <= i <= samples@.len(),
            mn == seq_min(samples@.take(i as int)),
            mx == seq_max(samples@.take(i as int)),
        decreases samples@.len() - i,
    {
        let v = samples[i];
        proof {
            assert(samples@.take(i + 1).drop_last() =~= samples@.take(i as int));
            assert(samples@.take(i + 1).last() == samples@[i as int]);
        }
        if v < mn {
            mn = v;
        }
        if v > mx {
            mx = v;
        }
        i = i + 1;
    }
    proof {
        assert(samples@.take(samples@.len() as int) =~= samples@);
    }
    (mn, mx)
}

/// Divisor of the linear stretch: the sample range, forced to at least 1
/// so that a flat buffer (minimum equal to maximum) divides by 1 instead
/// of 0 and maps everywhere to 0.
pub open spec fn norm_range(mn: u16, mx: u16) -> int {
    if mx > mn {
        mx - mn
    } else {
        1
    }
}

/// One normalized sample: the offset from the global minimum, stretched
/// over the occupied range to the full 8-bit range, with truncating
/// division.
pub open spec fn norm_sample(v: u16, mn: u16, mx: u16) -> int
    recommends
        mn <= v <= mx,
{
    ((v - mn) * 255) / norm_range(mn, mx)
}

/// A normalized sample of an in-range value fits in a byte.
pub proof fn lemma_norm_sample_bounds(v: u16, mn: u16, mx: u16)
    requires
        mn <= v <= mx,
    ensures
        0 <= norm_sample(v, mn, mx) <= 255,
{
    let range = norm_range(mn, mx);
    lemma_div_is_ordered((v - mn) * 255, range * 255, range);
    lemma_div_multiples_vanish(255, range);
}

/// The whole normalized buffer, element by element, against the global
/// extrema of the input.
pub open spec fn normalize_spec(s: Seq<u16>) -> Seq<u8>
    recommends
        s.len() > 0,
{
    Seq::new(s.len(), |i: int| norm_sample(s[i], seq_min(s), seq_max(s)) as u8)
}

/// Full-range linear rescale of a decoded 16-bit buffer to 8-bit bytes.
///
/// The output has one byte per input sample; the smallest sample maps to
/// 0 and, when the buffer is not flat, the largest maps to 255.
pub fn decoded_png_u16_to_grayscale_u8(buffer_u16: &[u16]) -> (r: Vec<u8>)
    requires
        buffer_u16@.len() > 0,
    ensures
        r@ == normalize_spec(buffer_u16@),
        r@.len() == buffer_u16@.len(),
{
    let (mn, mx) = sample_extrema(buffer_u16);
    let range: u32 = if mx > mn {
        (mx - mn) as u32
    } else {
        1
    };
    let mut out: Vec<u8> = Vec::new();
    let mut i: usize = 0;
    while i < buffer_u16.len()
        invariant
            0 <= i <= buffer_u16@.len(),
            mn == seq_min(buffer_u16@),
            mx == seq_max(buffer_u16@),
            range == norm_range(mn, mx),
            out@.len() == i,
            forall|j: int|
                0 <= j < i ==> out@[j] == norm_sample(buffer_u16@[j], mn, mx) as u8,
        decreases buffer_u16@.len() - i,
    {
        let v = buffer_u16[i];
        proof {
            lemma_seq_min_le(buffer_u16@, i as int);
            lemma_seq_max_ge(buffer_u16@, i as int);
            lemma_norm_sample_bounds(v, mn, mx);
        }
        let scaled: u32 = ((v - mn) as u32) * 255 / range;
        out.push(scaled as u8);
        i = i + 1;
    }
    proof {
        assert(out@ =~= normalize_spec(buffer_u16@));
    }
    out
}

/// Law of the extrema: normalization maps the global minimum to 0 and,
/// when the buffer is not flat, the global maximum to 255; a flat buffer
/// maps every sample to 0.
pub proof fn lemma_normalize_extremes(s: Seq<u16>)
    requires
        s.len() > 0,
    ensures
        forall|i: int|
            0 <= i < s.len() && s[i] == seq_min(s) ==> normalize_spec(s)[i] == 0,
        seq_max(s) > seq_min(s) ==> forall|i: int|
            0 <= i < s.len() && s[i] == seq_max(s) ==> normalize_spec(s)[i] == 255,
        seq_max(s) == seq_min(s) ==> forall|i: int|
            0 <= i < s.len() ==> normalize_spec(s)[i] == 0,
{
    let mn = seq_min(s);
    let mx = seq_max(s);
    let range = norm_range(mn, mx);
    assert forall|i: int| 0 <= i < s.len() && s[i] == mn implies normalize_spec(s)[i] == 0 by {
        assert(norm_sample(mn, mn, mx) == 0);
    }
    if mx > mn {
        assert forall|i: int| 0 <= i < s.len() && s[i] == mx implies normalize_spec(s)[i]
            == 255 by {
            lemma_div_multiples_vanish(255, range);
            assert((mx - mn) * 255 == range * 255);
        }
    }
    if mx == mn {
        assert forall|i: int| 0 <= i < s.len() implies normalize_spec(s)[i] == 0 by {
            lemma_seq_min_le(s, i);
            lemma_seq_max_ge(s, i);
            assert(s[i] == mn);
            assert(norm_sample(mn, mn, mx) == 0);
        }
    }
}

} // verus!
