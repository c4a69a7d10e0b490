use planet_tracker::geometry::{plot_radius, ChartGeometry, MIN_POLAR_PLOT_WIDTH};

#[test]
fn measures_of_the_default_width() {
    let g = ChartGeometry::from_width(300);
    assert_eq!(g.width, 300);
    assert_eq!(g.height, 300);
    assert_eq!(g.radius, 120);
    assert_eq!(g.padding, 30);
    assert_eq!(g.center_x, 150);
    assert_eq!(g.center_y, 135);
}

#[test]
fn default_geometry_is_that_of_the_minimum_width() {
    assert_eq!(MIN_POLAR_PLOT_WIDTH, 300);
    assert_eq!(ChartGeometry::default(), ChartGeometry::from_width(MIN_POLAR_PLOT_WIDTH));
}

#[test]
fn radius_is_two_fifths_rounded_down() {
    assert_eq!(plot_radius(0), 0);
    assert_eq!(plot_radius(1), 0);
    assert_eq!(plot_radius(2), 0);
    assert_eq!(plot_radius(3), 1);
    assert_eq!(plot_radius(4), 1);
    assert_eq!(plot_radius(5), 2);
    assert_eq!(plot_radius(7), 2);
    assert_eq!(plot_radius(8), 3);
    assert_eq!(plot_radius(360), 144);
    assert_eq!(plot_radius(768), 307);
    assert_eq!(plot_radius(500), 200);
}

#[test]
fn radius_of_the_widest_chart_does_not_overflow() {
    let expected = (2 * (usize::MAX as u128) / 5) as usize;
    assert_eq!(plot_radius(usize::MAX), expected);
    let g = ChartGeometry::from_width(usize::MAX);
    assert_eq!(g.radius, expected);
    assert_eq!(g.center_x, usize::MAX / 2);
}

#[test]
fn measures_of_an_odd_width() {
    let g = ChartGeometry::from_width(769);
    assert_eq!(g.radius, 307);
    assert_eq!(g.padding, 384 - 307);
    assert_eq!(g.center_x, 384);
    assert_eq!(g.center_y, 307 + 38);
}

#[test]
fn measures_of_an_empty_chart() {
    let g = ChartGeometry::from_width(0);
    assert_eq!(g, ChartGeometry { width: 0, height: 0, radius: 0, padding: 0, center_x: 0, center_y: 0 });
}

#[test]
fn circle_fits_the_chart_for_many_widths() {
    for width in 0..2000usize {
        let g = ChartGeometry::from_width(width);
        assert_eq!(g.height, g.width);
        assert_eq!(g.center_x, width / 2);
        assert!(g.center_x + g.radius <= g.width);
        assert!(g.center_y + g.radius <= g.height);
        assert!(g.radius <= g.center_y);
        assert!(g.center_y <= g.center_x);
    }
}

#[test]
fn latest_observed_width_wins() {
    let g = ChartGeometry::from_width(300);
    let (g, changed) = g.observe(640);
    assert!(changed);
    assert_eq!(g, ChartGeometry::from_width(640));
    let (g, changed) = g.observe(480);
    assert!(changed);
    assert_eq!(g, ChartGeometry::from_width(480));
    let (same, changed) = g.observe(480);
    assert!(!changed);
    assert_eq!(same, g);
}
