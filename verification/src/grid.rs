//! The chart's grid: the rings of equal elevation, the spokes of equal
//! azimuth, and the labels that go with them.
//!
//! The grid depends on the chart's width only. Each mark is given by its
//! angles in whole degrees and its distance from the zenith as an exact
//! fraction of the horizon circle's radius.

use vstd::prelude::*;
use vstd::string::*;
use crate::projection::{squared_distance, RelativeRadius};
use crate::ratio::{Fraction, Ratio};

verus! {

/// The rings stand this many degrees of elevation apart.
pub const ELEVATION_STEP: u32 = 15;

/// The spokes stand this many degrees of azimuth apart.
pub const AZIMUTH_STEP: u32 = 30;

/// The number of rings: one for each step from the horizon up to, but not
/// including, the zenith.
pub const RING_COUNT: usize = 6;

/// The number of spokes: one for each step around the full circle.
pub const SPOKE_COUNT: usize = 12;

/// The narrower of the two chart widths at which the labels of the lower
/// spokes were placed by eye.
pub const NARROW_WIDTH: usize = 360;

/// The wider of the two chart widths at which the labels of the lower spokes
/// were placed by eye.
pub const WIDE_WIDTH: usize = 768;

/// Where the labels of the lower spokes stand in a chart of the narrower
/// width, in hundredths of the radius.
pub const NARROW_PLACEMENT: u32 = 114;

/// Where the labels of the lower spokes stand in a chart of the wider width,
/// in hundredths of the radius.
pub const WIDE_PLACEMENT: u32 = 107;

/// A label of the grid: a number of degrees, written at a point of the chart
/// and turned about that point.
#[derive(Debug, Clone, Copy, PartialEq, Eq, Structural)]
pub struct GridLabel {
    /// The number that the label shows, in degrees.
    pub degrees: u32,
    /// The azimuth of the point at which the label is written, in degrees.
    pub azimuth: u32,
    /// The distance of that point from the zenith.
    pub radius: RelativeRadius,
    /// The angle by which the text is turned clockwise, in degrees.
    pub rotation: i32,
}

/// A ring of equal elevation.
#[derive(Debug, Clone, Copy, PartialEq, Eq, Structural)]
pub struct ElevationRing {
    /// The elevation of the ring in degrees.
    pub elevation: u32,
    /// The radius of the ring.
    pub radius: RelativeRadius,
    /// The label of the ring.
    pub label: GridLabel,
}

/// A spoke of equal azimuth: a line from the zenith to the horizon circle.
#[derive(Debug, Clone, Copy, PartialEq, Eq, Structural)]
pub struct AzimuthSpoke {
    /// The azimuth of the spoke in degrees, which is also the angle by
    /// which its line is turned about the zenith.
    pub azimuth: u32,
    /// The label of the spoke.
    pub label: GridLabel,
}

/// The distance just outside the horizon circle at which the labels of the
/// horizon ring and of the upper spokes stand: 1.01 radii.
pub open spec fn rim_placement() -> Ratio {
    Ratio { num: 101, den: 100 }
}

/// The distance at which the labels of the lower spokes stand in a chart of
/// the given width: the straight line through the two placements made by
/// eye, 1.14 radii at the narrower width and 1.07 radii at the wider one.
pub open spec fn lower_placement(width: int) -> Ratio {
    Ratio {
        num: (NARROW_PLACEMENT * (WIDE_WIDTH - width) + WIDE_PLACEMENT * (width
            - NARROW_WIDTH)) as i128,
        den: (100 * (WIDE_WIDTH - NARROW_WIDTH)) as i128,
    }
}

/// The ring with the given index, counted from the horizon.
///
/// Its label is written near azimuth 10°, just outside the ring, and tilted
/// by 10° so that it runs along the ring. The label of the horizon ring
/// stands clear of the horizon circle.
pub open spec fn ring_at(index: int) -> ElevationRing {
    let elevation = ELEVATION_STEP * index;
    ElevationRing {
        elevation: elevation as u32,
        radius: RelativeRadius::Root(Ratio { num: (90 - elevation) as i128, den: 90 }),
        label: GridLabel {
            degrees: elevation as u32,
            azimuth: if elevation == 0 {
                11
            } else {
                10
            },
            radius: if elevation == 0 {
                RelativeRadius::Linear(rim_placement())
            } else {
                RelativeRadius::Root(Ratio { num: (90 - (elevation - 1)) as i128, den: 90 })
            },
            rotation: 10,
        },
    }
}

/// The spoke with the given index, counted clockwise from north, in a chart
/// of the given width.
///
/// Its label is written just outside the horizon circle, one degree past the
/// spoke in the upper half of the circle and one degree before it in the
/// lower half, and turned so that it stays upright.
pub open spec fn spoke_at(index: int, width: int) -> AzimuthSpoke {
    let azimuth = AZIMUTH_STEP * index;
    AzimuthSpoke {
        azimuth: azimuth as u32,
        label: if azimuth <= 180 {
            GridLabel {
                degrees: azimuth as u32,
                azimuth: (azimuth + 1) as u32,
                radius: RelativeRadius::Linear(rim_placement()),
                rotation: (azimuth - 90) as i32,
            }
        } else {
            GridLabel {
                degrees: azimuth as u32,
                azimuth: (azimuth - 1) as u32,
                radius: RelativeRadius::Linear(lower_placement(width)),
                rotation: (azimuth - 270) as i32,
            }
        },
    }
}

/// The distance at which the labels of the lower spokes stand in a chart of
/// the given width.
pub fn lower_label_placement(width: usize) -> (placement: Ratio)
    ensures
        placement == lower_placement(width as int),
        placement@.wf(),
{
    let w: i128 = width as i128;
    let narrow: i128 = NARROW_WIDTH as i128;
    let wide: i128 = WIDE_WIDTH as i128;
    Ratio {
        num: (NARROW_PLACEMENT as i128) * (wide - w) + (WIDE_PLACEMENT as i128) * (w - narrow),
        den: 100 * (wide - narrow),
    }
}

fn elevation_ring(index: usize) -> (ring: ElevationRing)
    requires
        index < RING_COUNT,
    ensures
        ring == ring_at(index as int),
{
    let elevation: u32 = ELEVATION_STEP * (index as u32);
    let label = if elevation == 0 {
        GridLabel {
            degrees: elevation,
            azimuth: 11,
            radius: RelativeRadius::Linear(Ratio { num: 101, den: 100 }),
            rotation: 10,
        }
    } else {
        GridLabel {
            degrees: elevation,
            azimuth: 10,
            radius: RelativeRadius::Root(Ratio { num: (90 - (elevation - 1)) as i128, den: 90 }),
            rotation: 10,
        }
    };
    ElevationRing {
        elevation,
        radius: RelativeRadius::Root(Ratio { num: (90 - elevation) as i128, den: 90 }),
        label,
    }
}

fn azimuth_spoke(index: usize, width: usize) -> (spoke: AzimuthSpoke)
    requires
        index < SPOKE_COUNT,
    ensures
        spoke == spoke_at(index as int, width as int),
{
    let azimuth: u32 = AZIMUTH_STEP * (index as u32);
    let label = if azimuth <= 180 {
        GridLabel {
            degrees: azimuth,
            azimuth: azimuth + 1,
            radius: RelativeRadius::Linear(Ratio { num: 101, den: 100 }),
            rotation: azimuth as i32 - 90,
        }
    } else {
        GridLabel {
            degrees: azimuth,
            azimuth: azimuth - 1,
            radius: RelativeRadius::Linear(lower_label_placement(width)),
            rotation: azimuth as i32 - 270,
        }
    };
    AzimuthSpoke { azimuth, label }
}

/// The rings of the chart, from the horizon inwards.
pub fn elevation_rings() -> (rings: Vec<ElevationRing>)
    ensures
        rings@.len() == RING_COUNT,
        forall|i: int| 0 <= i < RING_COUNT ==> #[trigger] rings@[i] == ring_at(i),
{
    let mut rings: Vec<ElevationRing> = Vec::new();
    let mut index: usize = 0;
    while index < RING_COUNT
        invariant
            index <= RING_COUNT,
            rings@.len() == index,
            forall|i: int| 0 <= i < index ==> #[trigger] rings@[i] == ring_at(i),
        decreases RING_COUNT - index,
    {
        rings.push(elevation_ring(index));
        index = index + 1;
    }
    rings
}

/// The spokes of a chart of the given width, clockwise from north.
pub fn azimuth_spokes(width: usize) -> (spokes: Vec<AzimuthSpoke>)
    ensures
        spokes@.len() == SPOKE_COUNT,
        forall|i: int|
            0 <= i < SPOKE_COUNT ==> #[trigger] spokes@[i] == spoke_at(i, width as int),
{
    let mut spokes: Vec<AzimuthSpoke> = Vec::new();
    let mut index: usize = 0;
    while index < SPOKE_COUNT
        invariant
            index <= SPOKE_COUNT,
            spokes@.len() == index,
            forall|i: int| 0 <= i < index ==> #[trigger] spokes@[i] == spoke_at(i, width as int),
        decreases SPOKE_COUNT - index,
    {
        spokes.push(azimuth_spoke(index, width));
        index = index + 1;
    }
    spokes
}

/// The character that stands for a digit.
pub open spec fn digit_char(digit: int) -> char {
    if digit == 0 {
        '0'
    } else if digit == 1 {
        '1'
    } else if digit == 2 {
        '2'
    } else if digit == 3 {
        '3'
    } else if digit == 4 {
        '4'
    } else if digit == 5 {
        '5'
    } else if digit == 6 {
        '6'
    } else if digit == 7 {
        '7'
    } else if digit == 8 {
        '8'
    } else {
        '9'
    }
}

/// A natural number written in decimal, without leading zeros.
pub open spec fn decimal(n: nat) -> Seq<char>
    decreases n,
{
    if n < 10 {
        seq![digit_char(n as int)]
    } else {
        decimal(n / 10).push(digit_char((n % 10) as int))
    }
}

/// The text of a label that shows the given number of degrees: the number in
/// decimal, followed by the degree sign.
pub open spec fn degree_text_spec(degrees: nat) -> Seq<char> {
    decimal(degrees).push('°')
}

fn digit_text(digit: u32) -> (text: &'static str)
    requires
        digit < 10,
    ensures
        text@ == seq![digit_char(digit as int)],
{
    proof {
        reveal_strlit("0");
        reveal_strlit("1");
        reveal_strlit("2");
        reveal_strlit("3");
        reveal_strlit("4");
        reveal_strlit("5");
        reveal_strlit("6");
        reveal_strlit("7");
        reveal_strlit("8");
        reveal_strlit("9");
    }
    let text = match digit {
        0 => "0",
        1 => "1",
        2 => "2",
        3 => "3",
        4 => "4",
        5 => "5",
        6 => "6",
        7 => "7",
        8 => "8",
        _ => "9",
    };
    assert(text@ =~= seq![digit_char(digit as int)]);
    text
}

fn append_decimal(text: &mut String, n: u32)
    ensures
        final(text)@ == old(text)@ + decimal(n as nat),
    decreases n,
{
    if n >= 10 {
        append_decimal(text, n / 10);
    }
    text.append(digit_text(n % 10));
    assert(text@ =~= old(text)@ + decimal(n as nat));
}

/// The text of a label that shows the given number of degrees.
pub fn degree_text(degrees: u32) -> (text: String)
    ensures
        text@ == degree_text_spec(degrees as nat),
{
    let mut text = String::new();
    append_decimal(&mut text, degrees);
    proof {
        reveal_strlit("°");
    }
    text.append("°");
    assert(text@ =~= degree_text_spec(degrees as nat));
    text
}

impl GridLabel {
    /// The text of the label.
    pub fn text(&self) -> (text: String)
        ensures
            text@ == degree_text_spec(self.degrees as nat),
    {
        degree_text(self.degrees)
    }
}

/// The rings stand at 0°, 15°, ..., 75°, and each is drawn where a point of
/// its elevation is drawn.
pub proof fn lemma_rings_follow_elevation(index: int)
    requires
        0 <= index < RING_COUNT,
    ensures
        ring_at(index).elevation == ELEVATION_STEP * index,
        ring_at(index).elevation < 90,
        ring_at(index).radius.wf(),
        ring_at(index).radius.squared() == squared_distance(ELEVATION_STEP * index),
        ring_at(index).label.degrees == ring_at(index).elevation,
{
}

/// The rings shrink from the horizon inwards: a ring of higher elevation has
/// a strictly smaller radius. The outermost ring is the horizon circle, and
/// no ring shrinks to a point. Radii are compared by their squares.
pub proof fn lemma_rings_shrink_inwards(outer: int, inner: int)
    requires
        0 <= outer < inner < RING_COUNT,
    ensures
        ring_at(inner).radius.squared().lt(ring_at(outer).radius.squared()),
        ring_at(0).radius.squared().same(Fraction::whole(1)),
        Fraction::whole(0).lt(ring_at(inner).radius.squared()),
{
    let near = ring_at(outer).radius.squared();
    let far = ring_at(inner).radius.squared();
    assert(near == Fraction { num: 90 - ELEVATION_STEP * outer, den: 90 });
    assert(far == Fraction { num: 90 - ELEVATION_STEP * inner, den: 90 });
    assert(far.num * near.den < near.num * far.den) by (nonlinear_arith)
        requires
            far.num < near.num,
            far.den == 90,
            near.den == 90,
    ;
    assert(far.lt(near));
    assert(ring_at(0).radius.squared() == Fraction { num: 90, den: 90 });
    assert(0 * far.den < far.num * 1) by (nonlinear_arith)
        requires
            far.num > 0,
    ;
}

/// The label of a ring stands outside its ring: the square of its distance
/// from the zenith is larger than the square of the ring's radius.
pub proof fn lemma_ring_label_outside_ring(index: int)
    requires
        0 <= index < RING_COUNT,
    ensures
        ring_at(index).label.radius.wf(),
        ring_at(index).radius.squared().lt(ring_at(index).label.radius.squared()),
{
    let ring = ring_at(index).radius.squared();
    let label = ring_at(index).label.radius.squared();
    if index == 0 {
        assert(ring == Fraction { num: 90, den: 90 });
        assert(label == Fraction { num: 10201, den: 10000 });
        assert(ring.num * label.den < label.num * ring.den) by (nonlinear_arith)
            requires
                ring.num == 90,
                ring.den == 90,
                label.num == 10201,
                label.den == 10000,
        ;
        assert(ring.lt(label));
    } else {
        let elevation = ELEVATION_STEP * index;
        assert(ring == Fraction { num: 90 - elevation, den: 90 });
        assert(label == Fraction { num: 91 - elevation, den: 90 });
        assert(ring.num * label.den < label.num * ring.den) by (nonlinear_arith)
            requires
                ring.num == 90 - elevation,
                ring.den == 90,
                label.num == 91 - elevation,
                label.den == 90,
        ;
        assert(ring.lt(label));
    }
}

/// The spokes stand at 0°, 30°, ..., 330°, and each label shows the azimuth
/// of its spoke.
pub proof fn lemma_spokes_go_round(index: int, width: int)
    requires
        0 <= index < SPOKE_COUNT,
    ensures
        spoke_at(index, width).azimuth == AZIMUTH_STEP * index,
        spoke_at(index, width).azimuth < 360,
        spoke_at(index, width).label.degrees == spoke_at(index, width).azimuth,
        -90 <= spoke_at(index, width).label.rotation <= 90,
{
}

/// The placement of the lower labels passes through both placements made
/// by eye, and moves inwards as the chart grows wider.
pub proof fn lemma_lower_placement_is_calibrated(narrower: int, wider: int)
    requires
        0 <= narrower < wider <= usize::MAX,
    ensures
        lower_placement(NARROW_WIDTH as int)@.same(Fraction::hundredths(114)),
        lower_placement(WIDE_WIDTH as int)@.same(Fraction::hundredths(107)),
        lower_placement(wider)@.lt(lower_placement(narrower)@),
{
    assert(lower_placement(wider)@ == Fraction { num: 49032 - 7 * wider, den: 40800 });
    assert(lower_placement(narrower)@ == Fraction { num: 49032 - 7 * narrower, den: 40800 });
    assert((49032 - 7 * wider) * 40800 < (49032 - 7 * narrower) * 40800) by (nonlinear_arith)
        requires
            narrower < wider,
    ;
}

/// Between the two widths at which they were placed by eye, the lower labels
/// stand between the two placements, outside the horizon circle.
pub proof fn lemma_lower_placement_in_calibrated_range(width: int)
    requires
        NARROW_WIDTH <= width <= WIDE_WIDTH,
    ensures
        Fraction::hundredths(107).le(lower_placement(width)@),
        lower_placement(width)@.le(Fraction::hundredths(114)),
        Fraction::whole(1).lt(lower_placement(width)@),
{
    let placement = lower_placement(width)@;
    assert(placement == Fraction { num: 49032 - 7 * width, den: 40800 });
    assert(107 * placement.den <= placement.num * 100) by (nonlinear_arith)
        requires
            placement.num >= 43656,
            placement.den == 40800,
    ;
    assert(placement.num * 100 <= 114 * placement.den) by (nonlinear_arith)
        requires
            placement.num <= 46512,
            placement.den == 40800,
    ;
    assert(1 * placement.den < placement.num * 1) by (nonlinear_arith)
        requires
            placement.num >= 43656,
            placement.den == 40800,
    ;
}

} // verus!
