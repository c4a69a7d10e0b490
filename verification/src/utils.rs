//! From an azimuth to the compass point that names it.
//!
//! The compass is cut into eight sectors of 45°, each centred on its compass
//! point, so the sectors meet at odd multiples of 22.5°. Azimuths are
//! therefore taken in half degrees, in which those bounds are whole numbers:
//! an azimuth of `a` degrees is handed in as the least whole number of half
//! degrees that is not below it, which falls into the same sector as `a`.

use vstd::prelude::*;
use crate::models::CardinalDirection;

verus! {

/// The number of the sector in which an azimuth lies, 1 being north and the
/// numbers running clockwise. The azimuth is moved on by half a sector, so
/// that north's sector starts at zero; what then lies beyond a full turn is
/// taken back by one turn; and the sectors are counted off, each including
/// its upper bound.
pub open spec fn sector_of(half_degrees: int) -> int {
    let shifted = half_degrees + 45;
    let wrapped = if shifted > 720 {
        shifted - 720
    } else {
        shifted
    };
    (wrapped + 89) / 90
}

/// Whether an azimuth lies in one of the eight sectors: it does if it is
/// more than -22.5° and at most 697.5°.
pub open spec fn names_direction(half_degrees: int) -> bool {
    1 <= sector_of(half_degrees) <= 8
}

/// The compass point that names an azimuth given in half degrees, if the
/// azimuth lies in one of the eight sectors.
pub fn cardinal_of(half_degrees: i64) -> (direction: Option<CardinalDirection>)
    ensures
        direction is Some <==> names_direction(half_degrees as int),
        direction matches Some(d) ==> d == CardinalDirection::of_sector(
            sector_of(half_degrees as int),
        ),
{
    if half_degrees <= -45 || half_degrees > 1395 {
        return None;
    }
    let shifted: i64 = half_degrees + 45;
    let wrapped: i64 = if shifted > 720 {
        shifted - 720
    } else {
        shifted
    };
    let sector: i64 = (wrapped + 89) / 90;
    CardinalDirection::from_sector(sector as u8)
}

/// The compass point that names an azimuth given in half degrees.
pub fn deg2cardinal(half_degrees: i64) -> (direction: CardinalDirection)
    requires
        names_direction(half_degrees as int),
    ensures
        direction == CardinalDirection::of_sector(sector_of(half_degrees as int)),
{
    let shifted: i64 = half_degrees + 45;
    let wrapped: i64 = if shifted > 720 {
        shifted - 720
    } else {
        shifted
    };
    let sector: i64 = (wrapped + 89) / 90;
    CardinalDirection::from(sector as u8)
}

/// Exactly the azimuths above -22.5° and up to 697.5° are named.
pub proof fn lemma_named_azimuths(half_degrees: int)
    ensures
        names_direction(half_degrees) <==> -45 < half_degrees <= 1395,
{
}

/// Every azimuth of the full circle is named by the compass point nearest to
/// it: the azimuth lies no more than 22.5° from the bearing of its compass
/// point, where north bears both 0° and 360°. An azimuth halfway between two
/// compass points is named by the one before it.
pub proof fn lemma_nearest_compass_point(half_degrees: int)
    requires
        0 <= half_degrees <= 720,
    ensures
        names_direction(half_degrees),
        half_degrees <= 675 ==> 90 * (sector_of(half_degrees) - 1) - 45 < half_degrees <= 90 * (
            sector_of(half_degrees) - 1) + 45,
        half_degrees > 675 ==> sector_of(half_degrees) == 1,
{
}

} // verus!
