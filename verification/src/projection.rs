//! How far from the zenith a point of the sky is drawn.
//!
//! The chart compresses the sky towards the horizon: a point at elevation `e`
//! is drawn at the fraction `sqrt(1 - |e| / 90°)` of the horizon circle's
//! radius. This module keeps that distance exact by giving its square. What
//! it states holds for an elevation in any unit of angle in which a quarter
//! turn is a whole number; what it computes takes whole degrees. Turning the
//! distance into a pixel position takes a square root, a sine and a cosine,
//! which are the host's to compute.

use vstd::prelude::*;
use crate::ratio::{Fraction, Ratio};

verus! {

/// The elevation of the zenith in degrees: a quarter turn.
pub const ZENITH: i32 = 90;

/// The absolute value of an integer.
pub open spec fn magnitude(n: int) -> int {
    if n < 0 {
        -n
    } else {
        n
    }
}

/// The square of the distance from the zenith at which a point at the given
/// elevation is drawn, as a fraction of the horizon circle's radius:
/// `1 - |elevation| / quarter_turn`, where the elevation is measured in a
/// unit of which `quarter_turn` make a quarter turn. Points below the horizon
/// are drawn where their mirror images above it are.
pub open spec fn squared_distance_in(elevation: int, quarter_turn: int) -> Fraction {
    Fraction { num: quarter_turn - magnitude(elevation), den: quarter_turn }
}

/// The square of the distance from the zenith at which a point at the given
/// elevation in degrees is drawn: `1 - |elevation| / 90`.
pub open spec fn squared_distance(elevation: int) -> Fraction {
    squared_distance_in(elevation, 90)
}

/// A distance from the zenith as a fraction of the horizon circle's radius:
/// 0 is the zenith, 1 the horizon circle.
#[derive(Debug, Clone, Copy, PartialEq, Eq, Structural)]
pub enum RelativeRadius {
    /// The fraction itself.
    Linear(Ratio),
    /// The square root of the fraction.
    Root(Ratio),
}

impl RelativeRadius {
    /// The square of the distance.
    pub open spec fn squared(self) -> Fraction {
        match self {
            RelativeRadius::Linear(ratio) => ratio@.squared(),
            RelativeRadius::Root(ratio) => ratio@,
        }
    }

    /// The distance is a real number: its fraction has a positive
    /// denominator, and under a square root it is not negative.
    pub open spec fn wf(self) -> bool {
        match self {
            RelativeRadius::Linear(ratio) => ratio@.wf(),
            RelativeRadius::Root(ratio) => ratio@.wf() && ratio.num >= 0,
        }
    }
}

/// The distance from the zenith at which a point at the given elevation, in
/// whole degrees, is drawn. An elevation beyond a quarter turn has no place
/// on the chart and yields `None`.
pub fn elevation_radius(elevation: i32) -> (radius: Option<RelativeRadius>)
    ensures
        radius is Some <==> -90 <= elevation <= 90,
        radius matches Some(r) ==> r is Root && r.wf() && r.squared() == squared_distance(
            elevation as int,
        ),
{
    if elevation < -ZENITH || elevation > ZENITH {
        return None;
    }
    let above: i32 = if elevation < 0 {
        -elevation
    } else {
        elevation
    };
    Some(RelativeRadius::Root(Ratio { num: (ZENITH - above) as i128, den: ZENITH as i128 }))
}

/// Every point of the sky is drawn within the horizon circle, and on the
/// circle only if it stands on the horizon: the square of its distance from
/// the zenith lies between 0 and 1, and is 1 only at elevation 0.
pub proof fn lemma_drawn_within_horizon_circle(elevation: int, quarter_turn: int)
    requires
        0 < quarter_turn,
        -quarter_turn <= elevation <= quarter_turn,
    ensures
        squared_distance_in(elevation, quarter_turn).wf(),
        Fraction::whole(0).le(squared_distance_in(elevation, quarter_turn)),
        squared_distance_in(elevation, quarter_turn).le(Fraction::whole(1)),
        squared_distance_in(elevation, quarter_turn).same(Fraction::whole(1)) <==> elevation
            == 0,
{
    let d = squared_distance_in(elevation, quarter_turn);
    assert(d.num == quarter_turn - magnitude(elevation));
    assert(d.den == quarter_turn);
    assert(0 * d.den == 0 && d.num * 1 == d.num && 1 * d.den == d.den) by (nonlinear_arith);
}

/// A point on the horizon is drawn on the horizon circle: the square of its
/// distance from the zenith is 1.
pub proof fn lemma_horizon_drawn_on_circle(quarter_turn: int)
    requires
        0 < quarter_turn,
    ensures
        squared_distance_in(0, quarter_turn).same(Fraction::whole(1)),
{
    let d = squared_distance_in(0, quarter_turn);
    assert(d.num == quarter_turn && d.den == quarter_turn);
    assert(d.num * 1 == 1 * d.den) by (nonlinear_arith)
        requires
            d.num == d.den,
    ;
}

/// The zenith is drawn at the centre, and nothing else is but its mirror
/// image below the horizon: the square of the distance is 0 exactly a
/// quarter turn from the horizon.
pub proof fn lemma_zenith_drawn_at_centre(elevation: int, quarter_turn: int)
    requires
        0 < quarter_turn,
        -quarter_turn <= elevation <= quarter_turn,
    ensures
        squared_distance_in(quarter_turn, quarter_turn).same(Fraction::whole(0)),
        squared_distance_in(elevation, quarter_turn).same(Fraction::whole(0)) <==> magnitude(
            elevation,
        ) == quarter_turn,
{
    let d = squared_distance_in(elevation, quarter_turn);
    let z = squared_distance_in(quarter_turn, quarter_turn);
    assert(d.num == quarter_turn - magnitude(elevation));
    assert(z.num == 0);
    assert(d.num * 1 == d.num && 0 * d.den == 0 && z.num * 1 == 0 && 0 * z.den == 0)
        by (nonlinear_arith)
        requires
            z.num == 0,
    ;
}

/// A point below the horizon is drawn where its mirror image above the
/// horizon is.
pub proof fn lemma_mirrored_below_horizon(elevation: int, quarter_turn: int)
    ensures
        squared_distance_in(-elevation, quarter_turn) == squared_distance_in(
            elevation,
            quarter_turn,
        ),
{
}

/// The higher a point stands, the closer to the centre it is drawn:
/// distances are compared by their squares.
pub proof fn lemma_higher_is_closer(lower: int, higher: int, quarter_turn: int)
    requires
        0 < quarter_turn,
        magnitude(lower) < magnitude(higher),
    ensures
        squared_distance_in(higher, quarter_turn).lt(squared_distance_in(lower, quarter_turn)),
{
    let near = squared_distance_in(higher, quarter_turn);
    let far = squared_distance_in(lower, quarter_turn);
    assert(near.num * far.den < far.num * near.den) by (nonlinear_arith)
        requires
            near.num < far.num,
            near.den == far.den,
            0 < near.den,
    ;
}

} // verus!
