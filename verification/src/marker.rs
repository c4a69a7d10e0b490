//! How large a body's marker is drawn.
//!
//! A marker's radius in pixels is `2 + scale * ln(size + 1)`, where `size` is
//! the body's apparent size and `scale` grows in proportion to the chart's
//! width. The logarithm is the host's to compute; the scale is exact, and so
//! is what this module states of the radius for every value that the
//! logarithm may take.

use vstd::prelude::*;
use crate::ratio::{Fraction, Ratio};

verus! {

/// The radius in pixels of the marker of a body of no apparent size: no
/// marker is drawn smaller.
pub const MARKER_BASE_RADIUS: u32 = 2;

/// The factor by which the logarithm of a body's apparent size enters the
/// radius of its marker: one and a half at the baseline width, and in
/// proportion to the chart's width elsewhere.
pub open spec fn marker_scale_spec(chart_width: int, baseline_width: int) -> Fraction {
    Fraction { num: 3 * chart_width, den: 2 * baseline_width }
}

/// The radius of a marker in pixels: the base radius and, on top of it, the
/// scale times `log`, which stands for the natural logarithm of the body's
/// apparent size plus one.
pub open spec fn marker_radius_spec(scale: Fraction, log: Fraction) -> Fraction {
    Fraction {
        num: MARKER_BASE_RADIUS * (scale.den * log.den) + scale.num * log.num,
        den: scale.den * log.den,
    }
}

/// The scale of the markers in a chart of the given width, relative to the
/// given baseline width. There is no scale relative to a baseline of zero.
pub fn marker_scale(chart_width: usize, baseline_width: usize) -> (scale: Option<Ratio>)
    ensures
        scale is Some <==> baseline_width > 0,
        scale matches Some(ratio) ==> ratio@ == marker_scale_spec(
            chart_width as int,
            baseline_width as int,
        ) && ratio@.wf(),
{
    if baseline_width == 0 {
        None
    } else {
        Some(Ratio { num: 3 * (chart_width as i128), den: 2 * (baseline_width as i128) })
    }
}

/// Markers are never scaled by a negative factor, so that none is drawn
/// smaller than the base radius; and at the baseline width the factor is one
/// and a half.
pub proof fn lemma_marker_scale_not_negative(chart_width: int, baseline_width: int)
    requires
        0 <= chart_width,
        0 < baseline_width,
    ensures
        marker_scale_spec(chart_width, baseline_width).wf(),
        Fraction::whole(0).le(marker_scale_spec(chart_width, baseline_width)),
        marker_scale_spec(baseline_width, baseline_width).same(Fraction { num: 3, den: 2 }),
{
    assert(3 * baseline_width * 2 == 3 * (2 * baseline_width)) by (nonlinear_arith);
}

/// Markers grow with the chart: in a wider chart the scale is larger.
pub proof fn lemma_marker_scale_grows_with_width(narrow: int, wide: int, baseline_width: int)
    requires
        0 <= narrow < wide,
        0 < baseline_width,
    ensures
        marker_scale_spec(narrow, baseline_width).lt(marker_scale_spec(wide, baseline_width)),
{
    assert((3 * narrow) * (2 * baseline_width) < (3 * wide) * (2 * baseline_width))
        by (nonlinear_arith)
        requires
            0 <= narrow < wide,
            0 < baseline_width,
    ;
}

/// No marker is drawn smaller than the base radius, whatever the width of
/// the chart, as long as the logarithm is not negative: that is, as long as
/// the body's apparent size is not.
pub proof fn lemma_marker_radius_at_least_base(
    chart_width: int,
    baseline_width: int,
    log: Fraction,
)
    requires
        0 <= chart_width,
        0 < baseline_width,
        log.wf(),
        0 <= log.num,
    ensures
        marker_radius_spec(marker_scale_spec(chart_width, baseline_width), log).wf(),
        Fraction::whole(MARKER_BASE_RADIUS as int).le(
            marker_radius_spec(marker_scale_spec(chart_width, baseline_width), log),
        ),
{
    let scale = marker_scale_spec(chart_width, baseline_width);
    let radius = marker_radius_spec(scale, log);
    let den = scale.den * log.den;
    assert(den > 0) by (nonlinear_arith)
        requires
            den == scale.den * log.den,
            scale.den > 0,
            log.den > 0,
    ;
    assert(scale.num * log.num >= 0) by (nonlinear_arith)
        requires
            scale.num >= 0,
            log.num >= 0,
    ;
    assert(radius.den == den);
    assert(radius.num == 2 * den + scale.num * log.num);
    assert(2 * radius.den <= radius.num * 1) by (nonlinear_arith)
        requires
            radius.num >= 2 * radius.den,
    ;
}

/// A marker grows with the chart: in a wider chart its radius is larger, as
/// long as the logarithm is positive, that is, as long as the body has any
/// apparent size at all.
pub proof fn lemma_marker_radius_grows_with_width(
    narrow: int,
    wide: int,
    baseline_width: int,
    log: Fraction,
)
    requires
        0 <= narrow < wide,
        0 < baseline_width,
        log.wf(),
        0 < log.num,
    ensures
        marker_radius_spec(marker_scale_spec(narrow, baseline_width), log).lt(
            marker_radius_spec(marker_scale_spec(wide, baseline_width), log),
        ),
{
    let small = marker_radius_spec(marker_scale_spec(narrow, baseline_width), log);
    let large = marker_radius_spec(marker_scale_spec(wide, baseline_width), log);
    let den = (2 * baseline_width) * log.den;
    assert(den > 0) by (nonlinear_arith)
        requires
            den == (2 * baseline_width) * log.den,
            baseline_width > 0,
            log.den > 0,
    ;
    assert(small.den == den && large.den == den);
    assert(small.num == 2 * den + (3 * narrow) * log.num);
    assert(large.num == 2 * den + (3 * wide) * log.num);
    assert((3 * narrow) * log.num < (3 * wide) * log.num) by (nonlinear_arith)
        requires
            narrow < wide,
            0 < log.num,
    ;
    assert(small.num * large.den < large.num * small.den) by (nonlinear_arith)
        requires
            small.num < large.num,
            small.den == large.den,
            small.den > 0,
    ;
}

/// A marker grows with the body: a larger logarithm, which is that of a
/// larger apparent size, gives a larger radius in every chart that has any
/// width at all.
pub proof fn lemma_marker_radius_grows_with_size(
    chart_width: int,
    baseline_width: int,
    smaller: Fraction,
    larger: Fraction,
)
    requires
        0 < chart_width,
        0 < baseline_width,
        smaller.wf(),
        larger.wf(),
        smaller.lt(larger),
    ensures
        marker_radius_spec(marker_scale_spec(chart_width, baseline_width), smaller).lt(
            marker_radius_spec(marker_scale_spec(chart_width, baseline_width), larger),
        ),
{
    let scale = marker_scale_spec(chart_width, baseline_width);
    let small = marker_radius_spec(scale, smaller);
    let large = marker_radius_spec(scale, larger);
    let sn = scale.num;
    let sd = scale.den;
    assert(sn > 0 && sd > 0);
    assert(small.num == 2 * (sd * smaller.den) + sn * smaller.num);
    assert(small.den == sd * smaller.den);
    assert(large.num == 2 * (sd * larger.den) + sn * larger.num);
    assert(large.den == sd * larger.den);
    assert(smaller.num * larger.den < larger.num * smaller.den);
    assert((2 * (sd * smaller.den) + sn * smaller.num) * (sd * larger.den) < (2 * (sd
        * larger.den) + sn * larger.num) * (sd * smaller.den)) by (nonlinear_arith)
        requires
            sn > 0,
            sd > 0,
            smaller.num * larger.den < larger.num * smaller.den,
    ;
}

} // verus!
