//! Linear rescaling of 16-bit samples onto the full 8-bit range.

use crate::raster::Raster;
use vstd::prelude::*;

verus! {

/// The smallest sample of `s`; the largest 16-bit value when `s` is empty.
pub open spec fn lowest(s: Seq<u16>) -> int
    decreases s.len(),
{
    if s.len() == 0 {
        u16::MAX as int
    } else {
        let rest = lowest(s.drop_last());
        if s.last() < rest {
            s.last() as int
        } else {
            rest
        }
    }
}

/// The largest sample of `s`; zero when `s` is empty.
pub open spec fn highest(s: Seq<u16>) -> int
    decreases s.len(),
{
    if s.len() == 0 {
        0
    } else {
        let rest = highest(s.drop_last());
        if s.last() > rest {
            s.last() as int
        } else {
            rest
        }
    }
}

/// All samples carry the same magnitude: there is no contrast to show.
pub open spec fn is_flat(s: Seq<u16>) -> bool {
    lowest(s) == highest(s)
}

/// Where `v` lands when `lo..=hi` is stretched onto `0..=255`, fractions
/// cut off. Without contrast (`lo >= hi`) everything lands on black.
pub open spec fn rescale(v: int, lo: int, hi: int) -> int {
    if lo < hi {
        (v - lo) * 255 / (hi - lo)
    } else {
        0
    }
}

/// The samples of `s`, each rescaled by the range that `s` itself spans.
pub open spec fn normalized(s: Seq<u16>) -> Seq<u8> {
    Seq::new(s.len(), |i: int| rescale(s[i] as int, lowest(s), highest(s)) as u8)
}

/// `lowest` is a lower bound of every sample, and one of the samples
/// unless there are none.
pub proof fn lemma_lowest_is_minimum(s: Seq<u16>)
    ensures
        0 <= lowest(s) <= u16::MAX,
        forall|i: int| 0 <= i < s.len() ==> lowest(s) <= #[trigger] s[i],
        s.len() > 0 ==> exists|i: int| 0 <= i < s.len() && #[trigger] s[i] == lowest(s),
    decreases s.len(),
{
    if s.len() > 0 {
        let front = s.drop_last();
        lemma_lowest_is_minimum(front);
        assert forall|i: int| 0 <= i < s.len() implies lowest(s) <= #[trigger] s[i] by {
            if i < front.len() {
                assert(front[i] == s[i]);
            }
        }
        if s.last() < lowest(front) {
            assert(s[s.len() - 1] == lowest(s));
        } else if front.len() > 0 {
            let k = choose|k: int| 0 <= k < front.len() && #[trigger] front[k] == lowest(front);
            assert(s[k] == lowest(s));
        } else {
            assert(s[0] == lowest(s));
        }
    }
}

/// `highest` is an upper bound of every sample, and one of the samples
/// unless there are none.
pub proof fn lemma_highest_is_maximum(s: Seq<u16>)
    ensures
        0 <= highest(s) <= u16::MAX,
        forall|i: int| 0 <= i < s.len() ==> #[trigger] s[i] <= highest(s),
        s.len() > 0 ==> exists|i: int| 0 <= i < s.len() && #[trigger] s[i] == highest(s),
    decreases s.len(),
{
    if s.len() > 0 {
        let front = s.drop_last();
        lemma_highest_is_maximum(front);
        assert forall|i: int| 0 <= i < s.len() implies #[trigger] s[i] <= highest(s) by {
            if i < front.len() {
                assert(front[i] == s[i]);
            }
        }
        if s.last() > highest(front) {
            assert(s[s.len() - 1] == highest(s));
        } else if front.len() > 0 {
            let k = choose|k: int| 0 <= k < front.len() && #[trigger] front[k] == highest(front);
            assert(s[k] == highest(s));
        } else {
            assert(s[0] == highest(s));
        }
    }
}

/// A value inside the range lands inside `0..=255`; the ends of a proper
/// range land on the ends.
pub proof fn lemma_rescale_bounds(v: int, lo: int, hi: int)
    requires
        lo <= v <= hi,
    ensures
        0 <= rescale(v, lo, hi) <= 255,
        rescale(lo, lo, hi) == 0,
        lo < hi ==> rescale(hi, lo, hi) == 255,
{
    if lo < hi {
        let d = hi - lo;
        assert(0 <= (v - lo) * 255 / d <= 255) by (nonlinear_arith)
            requires
                0 <= v - lo <= d,
                d > 0,
        ;
        assert((lo - lo) * 255 / d == 0) by (nonlinear_arith)
            requires
                d > 0,
        ;
        assert(d * 255 / d == 255) by (nonlinear_arith)
            requires
                d > 0,
        ;
    }
}

/// Rescaling keeps the order of the samples: a brighter input is never
/// darker in the output.
pub proof fn lemma_rescale_monotonic(v: int, w: int, lo: int, hi: int)
    requires
        v <= w,
    ensures
        rescale(v, lo, hi) <= rescale(w, lo, hi),
{
    if lo < hi {
        let d = hi - lo;
        assert((v - lo) * 255 / d <= (w - lo) * 255 / d) by (nonlinear_arith)
            requires
                v <= w,
                d > 0,
        ;
    }
}

/// A raster with contrast uses the whole output range: some sample
/// becomes 0 and some sample becomes 255.
pub proof fn lemma_normalized_spans_full_range(s: Seq<u16>)
    requires
        s.len() > 0,
        lowest(s) != highest(s),
    ensures
        normalized(s).contains(0u8),
        normalized(s).contains(255u8),
{
    lemma_lowest_is_minimum(s);
    lemma_highest_is_maximum(s);
    let lo = lowest(s);
    let hi = highest(s);
    let i = choose|i: int| 0 <= i < s.len() && #[trigger] s[i] == lo;
    let j = choose|j: int| 0 <= j < s.len() && #[trigger] s[j] == hi;
    lemma_rescale_bounds(lo, lo, hi);
    assert(normalized(s)[i] == 0);
    assert(normalized(s)[j] == 255);
}

/// A raster whose samples all equal `k` is flat, and comes out entirely
/// black, whatever `k` is.
pub proof fn lemma_constant_is_black(s: Seq<u16>, k: u16)
    requires
        forall|i: int| 0 <= i < s.len() ==> #[trigger] s[i] == k,
    ensures
        s.len() > 0 ==> is_flat(s) && lowest(s) == k,
        forall|i: int| 0 <= i < s.len() ==> #[trigger] normalized(s)[i] == 0,
{
    lemma_lowest_is_minimum(s);
    lemma_highest_is_maximum(s);
}

/// A raster is flat exactly when it has a sample and all samples agree.
pub proof fn lemma_flat_iff_constant(s: Seq<u16>)
    ensures
        is_flat(s) <==> s.len() > 0 && forall|i: int| 0 <= i < s.len() ==> #[trigger] s[i] == s[0],
{
    lemma_lowest_is_minimum(s);
    lemma_highest_is_maximum(s);
    if s.len() > 0 && (forall|i: int| 0 <= i < s.len() ==> #[trigger] s[i] == s[0]) {
        lemma_constant_is_black(s, s[0]);
    }
}

/// Normalizing keeps the order of the samples: where one input sample is
/// no brighter than another, neither is its output.
pub proof fn lemma_normalized_keeps_order(s: Seq<u16>, i: int, j: int)
    requires
        0 <= i < s.len(),
        0 <= j < s.len(),
        s[i] <= s[j],
    ensures
        normalized(s)[i] <= normalized(s)[j],
{
    lemma_lowest_is_minimum(s);
    lemma_highest_is_maximum(s);
    lemma_rescale_bounds(s[i] as int, lowest(s), highest(s));
    lemma_rescale_bounds(s[j] as int, lowest(s), highest(s));
    lemma_rescale_monotonic(s[i] as int, s[j] as int, lowest(s), highest(s));
}

/// Scans the samples once for the smallest and the largest value.
pub fn value_range(pixels: &Vec<u16>) -> (range: (u16, u16))
    ensures
        range.0 == lowest(pixels@),
        range.1 == highest(pixels@),
{
    let mut lo: u16 = u16::MAX;
    let mut hi: u16 = 0;
    let mut i: usize = 0;
    while i < pixels.len()
        invariant
            i <= pixels.len(),
            lo == lowest(pixels@.take(i as int)),
            hi == highest(pixels@.take(i as int)),
        decreases pixels.len() - i,
    {
        let v = pixels[i];
        assert(pixels@.take(i + 1).drop_last() == pixels@.take(i as int));
        if v < lo {
            lo = v;
        }
        if v > hi {
            hi = v;
        }
        i += 1;
    }
    assert(pixels@.take(i as int) == pixels@);
    (lo, hi)
}

/// Rescales one sample of a raster whose values span `lo..=hi`.
pub fn scale_pixel(v: u16, lo: u16, hi: u16) -> (scaled: u8)
    requires
        lo <= v <= hi,
    ensures
        scaled == rescale(v as int, lo as int, hi as int),
{
    proof {
        lemma_rescale_bounds(v as int, lo as int, hi as int);
    }
    if lo < hi {
        let offset: u32 = (v - lo) as u32;
        let span: u32 = (hi - lo) as u32;
        (offset * 255 / span) as u8
    } else {
        0
    }
}

/// Maps a 16-bit raster onto the full 8-bit range by its own minimum and
/// maximum. The flag tells that the raster was flat, in which case every
/// output sample is 0.
pub fn normalize_u16_to_u8(img: &Raster<u16>) -> (out: (Raster<u8>, bool))
    ensures
        out.0@.width == img@.width,
        out.0@.height == img@.height,
        out.0@.cells == normalized(img@.cells),
        out.1 == is_flat(img@.cells),
        img.wf() ==> out.0.wf(),
        out.1 ==> forall|i: int| 0 <= i < out.0@.cells.len() ==> #[trigger] out.0@.cells[i] == 0,
        img@.cells.len() > 0 && !out.1 ==> out.0@.cells.contains(0u8) && out.0@.cells.contains(
            255u8,
        ),
{
    let (lo, hi) = value_range(&img.pixels);
    let mut pixels: Vec<u8> = Vec::new();
    let mut i: usize = 0;
    proof {
        lemma_lowest_is_minimum(img.pixels@);
        lemma_highest_is_maximum(img.pixels@);
    }
    while i < img.pixels.len()
        invariant
            i <= img.pixels.len(),
            pixels@.len() == i,
            lo == lowest(img.pixels@),
            hi == highest(img.pixels@),
            forall|k: int| 0 <= k < img.pixels@.len() ==> lo <= #[trigger] img.pixels@[k] <= hi,
            forall|k: int| 0 <= k < i ==> pixels@[k] == normalized(img.pixels@)[k],
        decreases img.pixels.len() - i,
    {
        let scaled = scale_pixel(img.pixels[i], lo, hi);
        pixels.push(scaled);
        i += 1;
    }
    let gray = Raster { width: img.width, height: img.height, pixels };
    proof {
        assert(gray@.cells =~= normalized(img.pixels@));
        if lo == hi {
            lemma_flat_iff_constant(img.pixels@);
            lemma_constant_is_black(img.pixels@, img.pixels@[0]);
        } else if img.pixels@.len() > 0 {
            lemma_normalized_spans_full_range(img.pixels@);
        }
    }
    (gray, lo == hi)
}

} // verus!
