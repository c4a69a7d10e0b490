//! Choices that depend on the order of points in time: which of a body's
//! horizon crossings comes next, and which moments the observer is offered to
//! look at.

use vstd::prelude::*;

verus! {

/// A point in time: whole seconds since some fixed moment, and the
/// nanoseconds that have passed of the second after.
#[derive(Debug, Clone, Copy, PartialEq, Eq, Structural)]
pub struct Moment {
    /// Whole seconds.
    pub seconds: i64,
    /// Nanoseconds into the following second.
    pub nanos: u32,
}

impl Moment {
    /// This moment comes after `other`.
    pub open spec fn later_than(self, other: Moment) -> bool {
        self.seconds > other.seconds || (self.seconds == other.seconds && self.nanos
            > other.nanos)
    }

    /// Whether this moment comes after `other`.
    pub fn is_later_than(&self, other: &Moment) -> (later: bool)
        ensures
            later == self.later_than(*other),
    {
        self.seconds > other.seconds || (self.seconds == other.seconds && self.nanos
            > other.nanos)
    }
}

/// A crossing of the horizon.
#[derive(Debug, Clone, Copy, PartialEq, Eq, Structural)]
pub enum HorizonEvent {
    /// The body comes up.
    Rising,
    /// The body goes down.
    Setting,
}

/// The crossing that comes next, given a body's next setting and its next
/// rising: the earlier of the two, and the setting if they coincide.
pub open spec fn next_horizon_event_spec(setting: Moment, rising: Moment) -> HorizonEvent {
    if setting.later_than(rising) {
        HorizonEvent::Rising
    } else {
        HorizonEvent::Setting
    }
}

/// The crossing of the horizon that a body makes next, given the time of its
/// next setting and of its next rising. Only this one is shown with its
/// time.
pub fn next_horizon_event(setting: Moment, rising: Moment) -> (event: HorizonEvent)
    ensures
        event == next_horizon_event_spec(setting, rising),
{
    if setting.is_later_than(&rising) {
        HorizonEvent::Rising
    } else {
        HorizonEvent::Setting
    }
}

/// A moment that the observer can choose to look at.
#[derive(Debug, Clone, Copy, PartialEq, Eq, Structural)]
pub enum TimeChoice {
    /// The present.
    Now,
    /// The sunset that is still to come today.
    TodayAtSunset,
    /// The next sunrise.
    TomorrowAtDawn,
    /// The sunset after the next sunrise.
    TomorrowAtSunset,
}

impl TimeChoice {
    /// The words in which the choice is offered.
    pub open spec fn label_spec(self) -> Seq<char> {
        match self {
            TimeChoice::Now => "Now"@,
            TimeChoice::TodayAtSunset => "Today at sunset"@,
            TimeChoice::TomorrowAtDawn => "Tomorrow at dawn"@,
            TimeChoice::TomorrowAtSunset => "Tomorrow at sunset"@,
        }
    }

    /// The moment that the choice stands for, given the present and the
    /// sun's next setting and rising.
    pub open spec fn moment_spec(self, now: Moment, sunset: Moment, dawn: Moment) -> Moment {
        match self {
            TimeChoice::Now => now,
            TimeChoice::TodayAtSunset => sunset,
            TimeChoice::TomorrowAtDawn => dawn,
            TimeChoice::TomorrowAtSunset => sunset,
        }
    }

    /// The words in which the choice is offered.
    pub fn label(&self) -> (label: &'static str)
        ensures
            label@ == self.label_spec(),
    {
        match self {
            TimeChoice::Now => "Now",
            TimeChoice::TodayAtSunset => "Today at sunset",
            TimeChoice::TomorrowAtDawn => "Tomorrow at dawn",
            TimeChoice::TomorrowAtSunset => "Tomorrow at sunset",
        }
    }

    /// The moment that the choice stands for, given the present and the
    /// sun's next setting and rising.
    pub fn moment(&self, now: Moment, sunset: Moment, dawn: Moment) -> (moment: Moment)
        ensures
            moment == self.moment_spec(now, sunset, dawn),
    {
        match self {
            TimeChoice::Now => now,
            TimeChoice::TodayAtSunset => sunset,
            TimeChoice::TomorrowAtDawn => dawn,
            TimeChoice::TomorrowAtSunset => sunset,
        }
    }
}

/// What the observer is offered for choosing the moment to look at.
#[derive(Debug, Clone, Copy, PartialEq, Eq, Structural)]
pub enum TimeSelector {
    /// Nothing but the way back to the present.
    ReturnToNow,
    /// The present, followed by the sun's next two horizon crossings.
    Upcoming { first: TimeChoice, second: TimeChoice },
}

/// What is offered while the chart shows the moment `shown`: while it shows
/// a moment yet to come, the way back to the present; otherwise the present
/// and the sun's next setting and rising, whichever comes first before the
/// other.
pub open spec fn time_selector_spec(
    shown: Moment,
    now: Moment,
    sunset: Moment,
    dawn: Moment,
) -> TimeSelector {
    if shown.later_than(now) {
        TimeSelector::ReturnToNow
    } else if dawn.later_than(sunset) {
        TimeSelector::Upcoming {
            first: TimeChoice::TodayAtSunset,
            second: TimeChoice::TomorrowAtDawn,
        }
    } else {
        TimeSelector::Upcoming {
            first: TimeChoice::TomorrowAtDawn,
            second: TimeChoice::TomorrowAtSunset,
        }
    }
}

/// What the observer is offered for choosing the moment to look at, while
/// the chart shows the moment `shown`, the present is `now`, and the sun next
/// sets at `sunset` and next rises at `dawn`.
pub fn time_selector(shown: Moment, now: Moment, sunset: Moment, dawn: Moment) -> (selector:
    TimeSelector)
    ensures
        selector == time_selector_spec(shown, now, sunset, dawn),
{
    if shown.is_later_than(&now) {
        TimeSelector::ReturnToNow
    } else if dawn.is_later_than(&sunset) {
        TimeSelector::Upcoming {
            first: TimeChoice::TodayAtSunset,
            second: TimeChoice::TomorrowAtDawn,
        }
    } else {
        TimeSelector::Upcoming {
            first: TimeChoice::TomorrowAtDawn,
            second: TimeChoice::TomorrowAtSunset,
        }
    }
}

/// The two horizon crossings are offered in the order in which they happen:
/// the second does not come before the first.
pub proof fn lemma_crossings_offered_in_order(
    shown: Moment,
    now: Moment,
    sunset: Moment,
    dawn: Moment,
)
    ensures
        time_selector_spec(shown, now, sunset, dawn) matches TimeSelector::Upcoming {
            first,
            second,
        } ==> !first.moment_spec(now, sunset, dawn).later_than(
            second.moment_spec(now, sunset, dawn),
        ),
{
}

/// Of two moments at most one comes after the other, and none comes after
/// itself.
pub proof fn lemma_later_than_is_strict(a: Moment, b: Moment)
    ensures
        !a.later_than(a),
        a.later_than(b) ==> !b.later_than(a),
        a != b ==> a.later_than(b) || b.later_than(a),
{
}

} // verus!
