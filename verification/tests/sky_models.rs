use planet_tracker::errors::AppError;
use planet_tracker::models::{AstronObject, CardinalDirection};
use planet_tracker::utils::{cardinal_of, deg2cardinal};

#[test]
fn colours_of_the_bodies() {
    assert_eq!(AstronObject::Sun.get_color(), "rgb(255,204,0)");
    assert_eq!(AstronObject::Mercury.get_color(), "rgb(215,179,119)");
    assert_eq!(AstronObject::Venus.get_color(), "rgb(171,99,19)");
    assert_eq!(AstronObject::Mars.get_color(), "rgb(114,47,18)");
    assert_eq!(AstronObject::Moon.get_color(), "rgba(128,128,128)");
    assert_eq!(AstronObject::Jupiter.get_color(), "rgb(150,81,46)");
    assert_eq!(AstronObject::Saturn.get_color(), "rgb(234,214,184)");
}

#[test]
fn no_two_bodies_share_a_colour() {
    let bodies = [
        AstronObject::Sun,
        AstronObject::Mercury,
        AstronObject::Venus,
        AstronObject::Mars,
        AstronObject::Moon,
        AstronObject::Jupiter,
        AstronObject::Saturn,
    ];
    for a in bodies {
        assert_eq!(a.get_color(), a.get_color());
        for b in bodies {
            assert_eq!(a == b, a.get_color() == b.get_color());
        }
    }
}

#[test]
fn names_of_the_bodies() {
    assert_eq!(AstronObject::Sun.to_string(), "Sun");
    assert_eq!(AstronObject::Mercury.to_string(), "Mercury");
    assert_eq!(AstronObject::Venus.to_string(), "Venus");
    assert_eq!(AstronObject::Mars.to_string(), "Mars");
    assert_eq!(AstronObject::Moon.to_string(), "Moon");
    assert_eq!(AstronObject::Jupiter.to_string(), "Jupiter");
    assert_eq!(AstronObject::Saturn.to_string(), "Saturn");
}

#[test]
fn bodies_serve_as_keys() {
    let mut seen = std::collections::HashSet::new();
    assert!(seen.insert(AstronObject::Mars));
    assert!(!seen.insert(AstronObject::Mars));
    assert!(seen.insert(AstronObject::Moon));
    assert_ne!(AstronObject::Mercury, AstronObject::Saturn);
    assert_eq!(AstronObject::Venus, AstronObject::Venus.clone());
}

#[test]
fn compass_points_by_sector_number() {
    assert_eq!(CardinalDirection::from(1), CardinalDirection::North);
    assert_eq!(CardinalDirection::from(2), CardinalDirection::NorthEast);
    assert_eq!(CardinalDirection::from(3), CardinalDirection::East);
    assert_eq!(CardinalDirection::from(4), CardinalDirection::SouthEast);
    assert_eq!(CardinalDirection::from(5), CardinalDirection::South);
    assert_eq!(CardinalDirection::from(6), CardinalDirection::SouthWest);
    assert_eq!(CardinalDirection::from(7), CardinalDirection::West);
    assert_eq!(CardinalDirection::from(8), CardinalDirection::NorthWest);
}

#[test]
fn sector_numbers_outside_the_compass() {
    assert_eq!(CardinalDirection::from_sector(0), None);
    assert_eq!(CardinalDirection::from_sector(9), None);
    assert_eq!(CardinalDirection::from_sector(255), None);
    for sector in 1..=8u8 {
        assert_eq!(CardinalDirection::from_sector(sector), Some(CardinalDirection::from(sector)));
    }
}

#[test]
fn names_of_the_compass_points() {
    let expected = [
        (CardinalDirection::North, "North", "N"),
        (CardinalDirection::NorthEast, "Northeast", "NE"),
        (CardinalDirection::East, "East", "E"),
        (CardinalDirection::SouthEast, "Southeast", "SE"),
        (CardinalDirection::South, "South", "S"),
        (CardinalDirection::SouthWest, "Southwest", "SW"),
        (CardinalDirection::West, "West", "W"),
        (CardinalDirection::NorthWest, "Northwest", "NW"),
    ];
    for (direction, name, short) in expected {
        assert_eq!(direction.to_string(), name);
        assert_eq!(direction.abbreviation(), short);
    }
}

#[test]
fn compass_points_of_the_principal_bearings() {
    assert_eq!(deg2cardinal(0), CardinalDirection::North);
    assert_eq!(deg2cardinal(90), CardinalDirection::NorthEast);
    assert_eq!(deg2cardinal(180), CardinalDirection::East);
    assert_eq!(deg2cardinal(270), CardinalDirection::SouthEast);
    assert_eq!(deg2cardinal(360), CardinalDirection::South);
    assert_eq!(deg2cardinal(450), CardinalDirection::SouthWest);
    assert_eq!(deg2cardinal(540), CardinalDirection::West);
    assert_eq!(deg2cardinal(630), CardinalDirection::NorthWest);
    assert_eq!(deg2cardinal(720), CardinalDirection::North);
}

#[test]
fn sector_bounds_belong_to_the_sector_before() {
    assert_eq!(deg2cardinal(45), CardinalDirection::North);
    assert_eq!(deg2cardinal(46), CardinalDirection::NorthEast);
    assert_eq!(deg2cardinal(135), CardinalDirection::NorthEast);
    assert_eq!(deg2cardinal(136), CardinalDirection::East);
    assert_eq!(deg2cardinal(675), CardinalDirection::NorthWest);
    assert_eq!(deg2cardinal(676), CardinalDirection::North);
    assert_eq!(deg2cardinal(-44), CardinalDirection::North);
    assert_eq!(deg2cardinal(1395), CardinalDirection::NorthWest);
    assert_eq!(deg2cardinal(765), CardinalDirection::North);
    assert_eq!(deg2cardinal(766), CardinalDirection::NorthEast);
}

#[test]
fn azimuths_outside_the_sectors_have_no_compass_point() {
    assert_eq!(cardinal_of(-45), None);
    assert_eq!(cardinal_of(-46), None);
    assert_eq!(cardinal_of(1396), None);
    assert_eq!(cardinal_of(i64::MIN), None);
    assert_eq!(cardinal_of(i64::MAX), None);
    assert_eq!(cardinal_of(-44), Some(CardinalDirection::North));
    assert_eq!(cardinal_of(1395), Some(CardinalDirection::NorthWest));
}

#[test]
fn compass_point_agrees_with_rounding_up_in_degrees() {
    for half_degrees in -44..=1395i64 {
        let mut shifted = half_degrees as f64 / 2.0 + 22.5;
        if shifted > 360.0 {
            shifted -= 360.0;
        }
        let sector = (shifted / 45.0).ceil() as u8;
        assert_eq!(cardinal_of(half_degrees), Some(CardinalDirection::from(sector)));
        assert_eq!(deg2cardinal(half_degrees), CardinalDirection::from(sector));
    }
}

#[test]
fn errors_read_as_their_message() {
    assert_eq!(AppError::FetchError(String::from("no route")).to_string(), "no route");
    assert_eq!(AppError::JsonError(String::from("bad json")).to_string(), "bad json");
    assert_eq!(AppError::DomError(String::from("no window")).to_string(), "no window");
    assert_eq!(AppError::FetchError(String::new()).to_string(), "");
}
