//! The bodies that can be tracked, and the compass points used to say where
//! they stand.

use vstd::prelude::*;
use vstd::string::*;

verus! {

/// A body whose position in the sky is tracked.
#[derive(Debug, Clone, Copy, PartialEq, Eq, Hash, Structural)]
pub enum AstronObject {
    Sun,
    Mercury,
    Venus,
    Mars,
    Moon,
    Jupiter,
    Saturn,
}

impl AstronObject {
    /// The CSS colour in which the body's marker is filled. Each body has a
    /// colour of its own.
    pub open spec fn color_spec(self) -> Seq<char> {
        match self {
            AstronObject::Sun => "rgb(255,204,0)"@,
            AstronObject::Mercury => "rgb(215,179,119)"@,
            AstronObject::Venus => "rgb(171,99,19)"@,
            AstronObject::Mars => "rgb(114,47,18)"@,
            AstronObject::Moon => "rgba(128,128,128)"@,
            AstronObject::Jupiter => "rgb(150,81,46)"@,
            AstronObject::Saturn => "rgb(234,214,184)"@,
        }
    }

    /// The body's name in English.
    pub open spec fn name_spec(self) -> Seq<char> {
        match self {
            AstronObject::Sun => "Sun"@,
            AstronObject::Mercury => "Mercury"@,
            AstronObject::Venus => "Venus"@,
            AstronObject::Mars => "Mars"@,
            AstronObject::Moon => "Moon"@,
            AstronObject::Jupiter => "Jupiter"@,
            AstronObject::Saturn => "Saturn"@,
        }
    }

    /// The body's name as text.
    pub fn to_string(&self) -> (name: String)
        ensures
            name@ == self.name_spec(),
    {
        match self {
            AstronObject::Sun => String::from_str("Sun"),
            AstronObject::Mercury => String::from_str("Mercury"),
            AstronObject::Venus => String::from_str("Venus"),
            AstronObject::Mars => String::from_str("Mars"),
            AstronObject::Moon => String::from_str("Moon"),
            AstronObject::Jupiter => String::from_str("Jupiter"),
            AstronObject::Saturn => String::from_str("Saturn"),
        }
    }

    /// The colour associated with this body, as a CSS colour.
    pub fn get_color(&self) -> (color: &'static str)
        ensures
            color@ == self.color_spec(),
    {
        match self {
            AstronObject::Sun => "rgb(255,204,0)",
            AstronObject::Mercury => "rgb(215,179,119)",
            AstronObject::Venus => "rgb(171,99,19)",
            AstronObject::Mars => "rgb(114,47,18)",
            AstronObject::Moon => "rgba(128,128,128)",
            AstronObject::Jupiter => "rgb(150,81,46)",
            AstronObject::Saturn => "rgb(234,214,184)",
        }
    }
}

/// No two bodies share a colour: a marker's colour tells which body it
/// stands for.
pub proof fn lemma_colours_differ(a: AstronObject, b: AstronObject)
    requires
        a != b,
    ensures
        a.color_spec() != b.color_spec(),
{
    reveal_strlit("rgb(255,204,0)");
    reveal_strlit("rgb(215,179,119)");
    reveal_strlit("rgb(171,99,19)");
    reveal_strlit("rgb(114,47,18)");
    reveal_strlit("rgba(128,128,128)");
    reveal_strlit("rgb(150,81,46)");
    reveal_strlit("rgb(234,214,184)");
    let sun = AstronObject::Sun.color_spec();
    let mercury = AstronObject::Mercury.color_spec();
    let venus = AstronObject::Venus.color_spec();
    let mars = AstronObject::Mars.color_spec();
    let moon = AstronObject::Moon.color_spec();
    let jupiter = AstronObject::Jupiter.color_spec();
    let saturn = AstronObject::Saturn.color_spec();
    assert(sun.len() == 14 && sun[4] == '2' && sun[5] == '5');
    assert(mercury.len() == 16 && mercury[5] == '1');
    assert(venus.len() == 14 && venus[4] == '1' && venus[5] == '7');
    assert(mars.len() == 14 && mars[4] == '1' && mars[5] == '1');
    assert(moon.len() == 17);
    assert(jupiter.len() == 14 && jupiter[4] == '1' && jupiter[5] == '5');
    assert(saturn.len() == 16 && saturn[5] == '3');
}

/// One of the eight principal compass points.
#[derive(Debug, Clone, Copy, PartialEq, Eq, Structural)]
pub enum CardinalDirection {
    North,
    NorthEast,
    East,
    SouthEast,
    South,
    SouthWest,
    West,
    NorthWest,
}

impl CardinalDirection {
    /// The compass point of the sector with the given number: the sectors are
    /// numbered clockwise from 1, which is north.
    pub open spec fn of_sector(sector: int) -> CardinalDirection {
        if sector == 1 {
            CardinalDirection::North
        } else if sector == 2 {
            CardinalDirection::NorthEast
        } else if sector == 3 {
            CardinalDirection::East
        } else if sector == 4 {
            CardinalDirection::SouthEast
        } else if sector == 5 {
            CardinalDirection::South
        } else if sector == 6 {
            CardinalDirection::SouthWest
        } else if sector == 7 {
            CardinalDirection::West
        } else {
            CardinalDirection::NorthWest
        }
    }

    /// The number of the sector that this compass point names.
    pub open spec fn sector(self) -> int {
        match self {
            CardinalDirection::North => 1,
            CardinalDirection::NorthEast => 2,
            CardinalDirection::East => 3,
            CardinalDirection::SouthEast => 4,
            CardinalDirection::South => 5,
            CardinalDirection::SouthWest => 6,
            CardinalDirection::West => 7,
            CardinalDirection::NorthWest => 8,
        }
    }

    /// The full English name of the compass point.
    pub open spec fn name_spec(self) -> Seq<char> {
        match self {
            CardinalDirection::North => "North"@,
            CardinalDirection::NorthEast => "Northeast"@,
            CardinalDirection::East => "East"@,
            CardinalDirection::SouthEast => "Southeast"@,
            CardinalDirection::South => "South"@,
            CardinalDirection::SouthWest => "Southwest"@,
            CardinalDirection::West => "West"@,
            CardinalDirection::NorthWest => "Northwest"@,
        }
    }

    /// The one- or two-letter abbreviation of the compass point.
    pub open spec fn abbreviation_spec(self) -> Seq<char> {
        match self {
            CardinalDirection::North => "N"@,
            CardinalDirection::NorthEast => "NE"@,
            CardinalDirection::East => "E"@,
            CardinalDirection::SouthEast => "SE"@,
            CardinalDirection::South => "S"@,
            CardinalDirection::SouthWest => "SW"@,
            CardinalDirection::West => "W"@,
            CardinalDirection::NorthWest => "NW"@,
        }
    }

    /// The compass point of a sector number between 1 and 8.
    pub fn from(value: u8) -> (direction: CardinalDirection)
        requires
            1 <= value <= 8,
        ensures
            direction == Self::of_sector(value as int),
            direction.sector() == value,
    {
        match value {
            1 => CardinalDirection::North,
            2 => CardinalDirection::NorthEast,
            3 => CardinalDirection::East,
            4 => CardinalDirection::SouthEast,
            5 => CardinalDirection::South,
            6 => CardinalDirection::SouthWest,
            7 => CardinalDirection::West,
            _ => CardinalDirection::NorthWest,
        }
    }

    /// The compass point of a sector number, if the number names one.
    pub fn from_sector(value: u8) -> (direction: Option<CardinalDirection>)
        ensures
            direction.is_some() <==> 1 <= value <= 8,
            direction matches Some(d) ==> d == Self::of_sector(value as int) && d.sector() == value,
    {
        if 1 <= value && value <= 8 {
            Some(CardinalDirection::from(value))
        } else {
            None
        }
    }

    /// The compass point as text: its full name.
    pub fn to_string(&self) -> (name: String)
        ensures
            name@ == self.name_spec(),
    {
        match self {
            CardinalDirection::North => String::from_str("North"),
            CardinalDirection::NorthEast => String::from_str("Northeast"),
            CardinalDirection::East => String::from_str("East"),
            CardinalDirection::SouthEast => String::from_str("Southeast"),
            CardinalDirection::South => String::from_str("South"),
            CardinalDirection::SouthWest => String::from_str("Southwest"),
            CardinalDirection::West => String::from_str("West"),
            CardinalDirection::NorthWest => String::from_str("Northwest"),
        }
    }

    /// The compass point as text in its short form.
    pub fn abbreviation(&self) -> (name: String)
        ensures
            name@ == self.abbreviation_spec(),
    {
        match self {
            CardinalDirection::North => String::from_str("N"),
            CardinalDirection::NorthEast => String::from_str("NE"),
            CardinalDirection::East => String::from_str("E"),
            CardinalDirection::SouthEast => String::from_str("SE"),
            CardinalDirection::South => String::from_str("S"),
            CardinalDirection::SouthWest => String::from_str("SW"),
            CardinalDirection::West => String::from_str("W"),
            CardinalDirection::NorthWest => String::from_str("NW"),
        }
    }
}

} // verus!
