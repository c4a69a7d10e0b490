//! The size of the chart: everything that follows from the width of the
//! container it is drawn in.

use vstd::prelude::*;

verus! {

/// The chart width against which the size of markers is scaled, and the
/// width assumed until the container has been measured.
pub const MIN_POLAR_PLOT_WIDTH: usize = 300;

/// The radius of the horizon circle in a chart of the given width: two
/// fifths of the width, rounded down.
pub open spec fn radius_of(width: int) -> int {
    2 * width / 5
}

/// The gap between the horizon circle and the edge of the chart: what half
/// the width leaves of the radius.
pub open spec fn padding_of(width: int) -> int {
    width / 2 - radius_of(width)
}

/// The measures of a chart. All of them follow from the width.
#[derive(Debug, Clone, Copy, PartialEq, Eq, Structural)]
pub struct ChartGeometry {
    /// Width of the chart in pixels.
    pub width: usize,
    /// Height of the chart in pixels: the chart is square.
    pub height: usize,
    /// Radius of the horizon circle.
    pub radius: usize,
    /// Gap between the horizon circle and the edge of the chart.
    pub padding: usize,
    /// Horizontal position of the zenith.
    pub center_x: usize,
    /// Vertical position of the zenith. It stands half a padding higher than
    /// the middle, which leaves room below the chart.
    pub center_y: usize,
}

impl ChartGeometry {
    /// The measures are those of a chart of the given width.
    pub open spec fn derived_from(self, width: int) -> bool {
        &&& self.width == width
        &&& self.height == width
        &&& self.radius == radius_of(width)
        &&& self.padding == padding_of(width)
        &&& self.center_x == radius_of(width) + padding_of(width)
        &&& self.center_y == radius_of(width) + padding_of(width) / 2
    }

    /// The measures agree with each other: they are those of a chart of
    /// their own width.
    pub open spec fn wf(self) -> bool {
        self.derived_from(self.width as int)
    }

    /// The measures of a chart of the given width.
    pub fn from_width(width: usize) -> (geometry: ChartGeometry)
        ensures
            geometry.derived_from(width as int),
            geometry.wf(),
    {
        let radius = plot_radius(width);
        let padding = width / 2 - radius;
        ChartGeometry {
            width,
            height: width,
            radius,
            padding,
            center_x: radius + padding,
            center_y: radius + padding / 2,
        }
    }

    /// Takes note of a width observed at the container. The measures
    /// afterwards are those of the observed width, whatever they were before;
    /// `changed` says whether the width differs from the one held so far.
    pub fn observe(self, width: usize) -> (outcome: (ChartGeometry, bool))
        ensures
            outcome.0.derived_from(width as int),
            outcome.1 <==> width != self.width,
            self.wf() && !outcome.1 ==> outcome.0 == self,
    {
        let changed = width != self.width;
        (ChartGeometry::from_width(width), changed)
    }
}

impl Default for ChartGeometry {
    /// The measures of a chart whose container has not been measured yet.
    fn default() -> (geometry: ChartGeometry)
        ensures
            geometry.derived_from(MIN_POLAR_PLOT_WIDTH as int),
    {
        ChartGeometry::from_width(MIN_POLAR_PLOT_WIDTH)
    }
}

/// The radius of the horizon circle in a chart of the given width.
pub fn plot_radius(width: usize) -> (radius: usize)
    ensures
        radius == radius_of(width as int),
        radius <= width / 2,
{
    let fifths = width / 5;
    let rest = width % 5;
    fifths * 2 + rest * 2 / 5
}

/// The horizon circle lies within the chart: it reaches neither beyond the
/// left and right edges nor beyond the top and bottom edges, and the zenith
/// stands in the middle of the width.
pub proof fn lemma_circle_fits_chart(geometry: ChartGeometry)
    requires
        geometry.wf(),
    ensures
        geometry.center_x == geometry.width / 2,
        geometry.radius <= geometry.center_x,
        geometry.center_x + geometry.radius <= geometry.width,
        geometry.radius <= geometry.center_y,
        geometry.center_y + geometry.radius <= geometry.height,
        geometry.center_y <= geometry.center_x,
{
}

/// A wider chart has no smaller horizon circle.
pub proof fn lemma_radius_grows_with_width(narrow: int, wide: int)
    requires
        0 <= narrow <= wide,
    ensures
        radius_of(narrow) <= radius_of(wide),
{
}

} // verus!
