use planet_tracker::geometry::MIN_POLAR_PLOT_WIDTH;
use planet_tracker::marker::{marker_scale, MARKER_BASE_RADIUS};
use planet_tracker::ratio::Ratio;

fn marker_radius(apparent_size: f64, chart_width: usize) -> f64 {
    let scale = marker_scale(chart_width, MIN_POLAR_PLOT_WIDTH).unwrap();
    MARKER_BASE_RADIUS as f64 + (scale.num as f64 / scale.den as f64) * (apparent_size + 1.0).ln()
}

#[test]
fn scale_is_one_and_a_half_at_the_baseline() {
    assert_eq!(marker_scale(300, 300), Some(Ratio { num: 900, den: 600 }));
    assert_eq!(marker_scale(600, 300), Some(Ratio { num: 1800, den: 600 }));
    assert_eq!(marker_scale(0, 300), Some(Ratio { num: 0, den: 600 }));
    assert_eq!(marker_scale(450, 300), Some(Ratio { num: 1350, den: 600 }));
}

#[test]
fn no_scale_against_a_baseline_of_zero() {
    assert_eq!(marker_scale(300, 0), None);
    assert_eq!(marker_scale(0, 0), None);
}

#[test]
fn scale_of_the_widest_chart_does_not_overflow() {
    assert_eq!(
        marker_scale(usize::MAX, usize::MAX),
        Some(Ratio { num: 3 * usize::MAX as i128, den: 2 * usize::MAX as i128 })
    );
}

#[test]
fn marker_radius_formula() {
    assert_eq!(MARKER_BASE_RADIUS, 2);
    assert_eq!(marker_radius(0.0, 300), 2.0);
    assert!((marker_radius(10.0, 300) - (2.0 + 1.5 * 11.0f64.ln())).abs() < 1e-12);
    assert!((marker_radius(10.0, 300) - 5.596842909197558).abs() < 1e-9);
    assert!((marker_radius(4.0, 600) - (2.0 + 3.0 * 5.0f64.ln())).abs() < 1e-12);
}

#[test]
fn sun_and_moon_markers_at_two_widths() {
    let sun = 10.0;
    let moon = 4.0;
    assert!(marker_radius(sun, 600) > marker_radius(sun, 300));
    assert!(marker_radius(sun, 300) > marker_radius(moon, 300));
    assert!(marker_radius(sun, 600) > marker_radius(moon, 600));
}

#[test]
fn markers_grow_with_size_and_width_and_never_shrink_below_the_base() {
    let mut last_by_width = 0.0;
    for width in (0..2000usize).step_by(50) {
        let mut last_by_size = 0.0;
        for size in 0..50 {
            let r = marker_radius(size as f64, width);
            assert!(r >= 2.0);
            assert!(r >= last_by_size);
            last_by_size = r;
        }
        let r = marker_radius(10.0, width);
        assert!(r > last_by_width);
        last_by_width = r;
    }
}
