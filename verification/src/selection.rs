//! Which body is selected, and where its tooltip stands.
//!
//! At most one body is selected at a time. The tooltip belongs to the selected
//! body: it is shown exactly while a body is selected, and it names that body.
//! Where the tooltip stands is not computed here. The host measures the
//! rendered marker and hands the measured position in; the coordinate type `C`
//! is the host's own.

use vstd::prelude::*;
use vstd::string::*;
use crate::models::AstronObject;

verus! {

/// The selection: nothing, or exactly one body.
#[derive(Debug, Clone, Copy, PartialEq, Eq, Structural)]
pub enum SelectionState {
    /// Nothing is selected.
    Idle,
    /// The given body is selected.
    Selected(AstronObject),
}

impl SelectionState {
    /// The selected body, if there is one.
    pub open spec fn selected_spec(&self) -> Option<AstronObject> {
        match *self {
            SelectionState::Idle => None,
            SelectionState::Selected(object) => Some(object),
        }
    }

    /// The selection that holds the given body, or nothing.
    pub open spec fn of(selected: Option<AstronObject>) -> SelectionState {
        match selected {
            None => SelectionState::Idle,
            Some(object) => SelectionState::Selected(object),
        }
    }

    /// The selection after a click on the marker of `object`: a click on the
    /// selected body clears the selection, a click on any other body selects it.
    pub open spec fn toggled(self, object: AstronObject) -> SelectionState {
        if self == SelectionState::Selected(object) {
            SelectionState::Idle
        } else {
            SelectionState::Selected(object)
        }
    }

    /// The selected body, if there is one.
    #[verifier::when_used_as_spec(selected_spec)]
    pub fn selected(&self) -> (selected: Option<AstronObject>)
        ensures
            selected == self.selected_spec(),
    {
        match self {
            SelectionState::Idle => None,
            SelectionState::Selected(object) => Some(*object),
        }
    }

    /// The selection that holds the given body, or nothing.
    pub fn from_selected(selected: Option<AstronObject>) -> (state: SelectionState)
        ensures
            state == Self::of(selected),
            state.selected_spec() == selected,
    {
        match selected {
            None => SelectionState::Idle,
            Some(object) => SelectionState::Selected(object),
        }
    }

    /// Whether `object` is the selected body.
    pub fn is_selected(&self, object: AstronObject) -> (yes: bool)
        ensures
            yes <==> *self == SelectionState::Selected(object),
    {
        match self {
            SelectionState::Idle => false,
            SelectionState::Selected(current) => *current == object,
        }
    }

    /// The selection after a click on the marker of `object`.
    pub fn toggle(self, object: AstronObject) -> (next: SelectionState)
        ensures
            next == self.toggled(object),
    {
        if self.is_selected(object) {
            SelectionState::Idle
        } else {
            SelectionState::Selected(object)
        }
    }
}

/// A tooltip: a position on the page and the body it describes. A tooltip
/// without a body is not shown.
#[derive(Debug, Clone)]
pub struct Tooltip<C> {
    /// Horizontal position, in the host's page coordinates.
    pub x: C,
    /// Vertical position, in the host's page coordinates.
    pub y: C,
    /// The body that the tooltip describes.
    pub obj: Option<AstronObject>,
}

impl<C> Tooltip<C> {
    /// The text that the tooltip shows: the name of its body, or nothing.
    pub open spec fn text_spec(self) -> Seq<char> {
        match self.obj {
            Some(object) => object.name_spec(),
            None => Seq::empty(),
        }
    }

    /// A tooltip at the given position that describes no body.
    pub fn hidden(x: C, y: C) -> (tooltip: Self)
        ensures
            tooltip == (Tooltip { x, y, obj: None }),
    {
        Tooltip { x, y, obj: None }
    }

    /// The text that the tooltip shows: the name of its body, or nothing.
    pub fn text(&self) -> (text: String)
        ensures
            text@ == self.text_spec(),
    {
        match self.obj {
            Some(object) => object.to_string(),
            None => String::new(),
        }
    }
}

impl<C: Default> Default for Tooltip<C> {
    /// A tooltip at the coordinate type's origin that describes no body.
    fn default() -> (tooltip: Self)
        ensures
            tooltip.obj is None,
            call_ensures(C::default, (), tooltip.x),
            call_ensures(C::default, (), tooltip.y),
    {
        Tooltip { x: C::default(), y: C::default(), obj: None }
    }
}

/// How the tooltip is to be drawn.
#[derive(Debug, Clone, Copy)]
pub enum TooltipPlacement<C> {
    /// The tooltip is not drawn.
    Hidden,
    /// The tooltip is drawn at the given page position.
    At { x: C, y: C },
}

/// The selection together with the tooltip that follows it.
#[derive(Debug, Clone)]
pub struct Interaction<C> {
    /// Which body is selected.
    pub selection: SelectionState,
    /// The tooltip of the selected body.
    pub tooltip: Tooltip<C>,
}

impl<C> Interaction<C> {
    /// The tooltip names the selected body, and names nothing while nothing
    /// is selected.
    pub open spec fn wf(self) -> bool {
        self.tooltip.obj == self.selection.selected_spec()
    }

    /// Whether the tooltip is shown.
    pub open spec fn tooltip_visible_spec(&self) -> bool {
        self.selection is Selected
    }

    /// The state in which nothing is selected and the hidden tooltip rests at
    /// the given position.
    pub open spec fn idle_at(x: C, y: C) -> Self {
        Interaction { selection: SelectionState::Idle, tooltip: Tooltip { x, y, obj: None } }
    }

    /// The state in which `object` is selected and its tooltip stands at the
    /// given position.
    pub open spec fn selected_at(object: AstronObject, x: C, y: C) -> Self {
        Interaction {
            selection: SelectionState::Selected(object),
            tooltip: Tooltip { x, y, obj: Some(object) },
        }
    }

    /// The state after a click on the marker of `object`, measured at `(x, y)`.
    pub open spec fn clicked(self, object: AstronObject, x: C, y: C) -> Self {
        if self.selection == SelectionState::Selected(object) {
            Self::idle_at(x, y)
        } else {
            Self::selected_at(object, x, y)
        }
    }

    /// The state after `object` was chosen outright. Without a measurement of
    /// its marker there is nothing to anchor a tooltip to, and nothing is
    /// selected.
    pub open spec fn chosen(self, object: AstronObject, measurement: Option<(C, C)>) -> Self {
        match measurement {
            Some((x, y)) => Self::selected_at(object, x, y),
            None => Self::idle_at(self.tooltip.x, self.tooltip.y),
        }
    }

    /// The state after the list of bodies was replaced by `objects` and the
    /// marker of the selected body measured anew. The selection survives if
    /// its body is still listed and its marker could be measured; the tooltip
    /// then moves to the measured position.
    pub open spec fn refreshed(
        self,
        objects: Seq<AstronObject>,
        measurement: Option<(C, C)>,
    ) -> Self {
        match (self.selection, measurement) {
            (SelectionState::Selected(object), Some((x, y))) => {
                if objects.contains(object) {
                    Self::selected_at(object, x, y)
                } else {
                    Self::idle_at(self.tooltip.x, self.tooltip.y)
                }
            },
            _ => Self::idle_at(self.tooltip.x, self.tooltip.y),
        }
    }

    /// The initial state: nothing is selected, and the hidden tooltip rests
    /// at the given position.
    pub fn new(x: C, y: C) -> (state: Self)
        ensures
            state == Self::idle_at(x, y),
            state.wf(),
    {
        Interaction { selection: SelectionState::Idle, tooltip: Tooltip { x, y, obj: None } }
    }

    /// Handles a click on the rendered marker of `object`, whose tooltip
    /// position the host measured as `(x, y)`.
    pub fn pointer_down(self, object: AstronObject, x: C, y: C) -> (next: Self)
        ensures
            next == self.clicked(object, x, y),
            next.selection == self.selection.toggled(object),
            next.wf(),
    {
        if self.selection.is_selected(object) {
            Interaction { selection: SelectionState::Idle, tooltip: Tooltip { x, y, obj: None } }
        } else {
            Interaction {
                selection: SelectionState::Selected(object),
                tooltip: Tooltip { x, y, obj: Some(object) },
            }
        }
    }

    /// Selects `object` outright, as a click on its row among the listed
    /// bodies does. `measurement` is the tooltip position measured at the
    /// body's marker, or `None` if the marker is not rendered.
    pub fn select(self, object: AstronObject, measurement: Option<(C, C)>) -> (next: Self)
        ensures
            next == self.chosen(object, measurement),
            next.wf(),
    {
        match measurement {
            Some((x, y)) => Interaction {
                selection: SelectionState::Selected(object),
                tooltip: Tooltip { x, y, obj: Some(object) },
            },
            None => Interaction {
                selection: SelectionState::Idle,
                tooltip: Tooltip { x: self.tooltip.x, y: self.tooltip.y, obj: None },
            },
        }
    }

    /// Handles a refresh of the list of bodies. `objects` are the bodies now
    /// listed; `measurement` is the tooltip position measured at the marker of
    /// the selected body once it was rendered again, or `None` if there is no
    /// such marker.
    pub fn refresh(self, objects: &[AstronObject], measurement: Option<(C, C)>) -> (next:
        Self)
        ensures
            next == self.refreshed(objects@, measurement),
            next.wf(),
    {
        match (self.selection, measurement) {
            (SelectionState::Selected(object), Some((x, y))) => {
                if contains_object(objects, object) {
                    Interaction {
                        selection: SelectionState::Selected(object),
                        tooltip: Tooltip { x, y, obj: Some(object) },
                    }
                } else {
                    Interaction {
                        selection: SelectionState::Idle,
                        tooltip: Tooltip { x: self.tooltip.x, y: self.tooltip.y, obj: None },
                    }
                }
            },
            _ => Interaction {
                selection: SelectionState::Idle,
                tooltip: Tooltip { x: self.tooltip.x, y: self.tooltip.y, obj: None },
            },
        }
    }

    /// Whether the tooltip is shown: exactly while a body is selected.
    #[verifier::when_used_as_spec(tooltip_visible_spec)]
    pub fn tooltip_visible(&self) -> (visible: bool)
        ensures
            visible == self.tooltip_visible_spec(),
    {
        match self.selection {
            SelectionState::Idle => false,
            SelectionState::Selected(_) => true,
        }
    }

    /// The text of the tooltip: the name of the body it describes, or nothing.
    pub fn tooltip_text(&self) -> (text: String)
        ensures
            text@ == self.tooltip.text_spec(),
    {
        self.tooltip.text()
    }
}

impl<C: Copy> Interaction<C> {
    /// How the tooltip is to be drawn: at its position while a body is
    /// selected, and not at all otherwise.
    pub fn tooltip_placement(&self) -> (placement: TooltipPlacement<C>)
        ensures
            placement == if self.selection is Selected {
                TooltipPlacement::At { x: self.tooltip.x, y: self.tooltip.y }
            } else {
                TooltipPlacement::Hidden
            },
    {
        match self.selection {
            SelectionState::Idle => TooltipPlacement::Hidden,
            SelectionState::Selected(_) => TooltipPlacement::At {
                x: self.tooltip.x,
                y: self.tooltip.y,
            },
        }
    }
}

/// A state in which the tooltip names the selected body shows the tooltip
/// exactly while a body is selected, and the body that a shown tooltip names
/// is the selected one.
pub proof fn lemma_tooltip_follows_selection<C>(state: Interaction<C>)
    requires
        state.wf(),
    ensures
        state.tooltip_visible_spec() <==> state.selection is Selected,
        state.tooltip_visible_spec() <==> state.tooltip.obj is Some,
        state.tooltip_visible_spec() ==> state.tooltip.obj == state.selection.selected_spec(),
        forall|object: AstronObject|
            state.tooltip.obj == Some(object) ==> state.selection == SelectionState::Selected(
                object,
            ),
{
}

/// The initial state and the state after any event have the tooltip name the
/// selected body, whatever the state before the event was.
pub proof fn lemma_every_step_keeps_tooltip_in_step<C>(
    state: Interaction<C>,
    object: AstronObject,
    objects: Seq<AstronObject>,
    x: C,
    y: C,
    measurement: Option<(C, C)>,
)
    ensures
        Interaction::idle_at(x, y).wf(),
        state.clicked(object, x, y).wf(),
        state.chosen(object, measurement).wf(),
        state.refreshed(objects, measurement).wf(),
{
}

/// Two clicks in a row on the marker of a body that was not selected before
/// leave nothing selected.
pub proof fn lemma_second_click_deselects<C>(
    state: Interaction<C>,
    object: AstronObject,
    x1: C,
    y1: C,
    x2: C,
    y2: C,
)
    requires
        state.selection != SelectionState::Selected(object),
    ensures
        state.clicked(object, x1, y1).selection == SelectionState::Selected(object),
        state.clicked(object, x1, y1).clicked(object, x2, y2).selection == SelectionState::Idle,
        !state.clicked(object, x1, y1).clicked(object, x2, y2).tooltip_visible_spec(),
{
}

/// Two clicks in a row on the marker of the selected body select it again.
pub proof fn lemma_two_clicks_on_selected_restore<C>(
    state: Interaction<C>,
    object: AstronObject,
    x1: C,
    y1: C,
    x2: C,
    y2: C,
)
    requires
        state.selection == SelectionState::Selected(object),
    ensures
        state.clicked(object, x1, y1).selection == SelectionState::Idle,
        state.clicked(object, x1, y1).clicked(object, x2, y2) == Interaction::selected_at(
            object,
            x2,
            y2,
        ),
{
}

/// A click on one body followed by a click on another leaves the second one
/// selected, with the tooltip at the second measurement, whatever was selected
/// before.
pub proof fn lemma_click_on_another_moves_selection<C>(
    state: Interaction<C>,
    first: AstronObject,
    second: AstronObject,
    x1: C,
    y1: C,
    x2: C,
    y2: C,
)
    requires
        first != second,
    ensures
        state.clicked(first, x1, y1).clicked(second, x2, y2) == Interaction::selected_at(
            second,
            x2,
            y2,
        ),
{
}

/// A click leaves at most the clicked body selected: the selection afterwards
/// is either empty or the clicked body, and it is empty exactly if that body
/// was selected before.
pub proof fn lemma_click_selects_one<C>(state: Interaction<C>, object: AstronObject, x: C, y: C)
    ensures
        state.clicked(object, x, y).selection == state.selection.toggled(object),
        state.clicked(object, x, y).selection == SelectionState::Idle <==> state.selection
            == SelectionState::Selected(object),
        state.clicked(object, x, y).selection != SelectionState::Idle ==> state.clicked(
            object,
            x,
            y,
        ).selection == SelectionState::Selected(object),
{
}

/// A refresh keeps the selection exactly if the selected body is still listed
/// and its marker was measured; the tooltip then stands at the measurement.
/// In every other case nothing is selected afterwards and the tooltip is
/// hidden.
pub proof fn lemma_refresh_keeps_listed_selection<C>(
    state: Interaction<C>,
    objects: Seq<AstronObject>,
    measurement: Option<(C, C)>,
)
    ensures
        state.refreshed(objects, measurement).tooltip_visible_spec() <==> (state.selection
            matches SelectionState::Selected(object) && objects.contains(object) && measurement
            is Some),
        state.refreshed(objects, measurement).tooltip_visible_spec() ==> state.refreshed(
            objects,
            measurement,
        ).selection == state.selection && measurement == Some(
            (
                state.refreshed(objects, measurement).tooltip.x,
                state.refreshed(objects, measurement).tooltip.y,
            ),
        ),
{
}

/// Finds a body among those listed by its identity: the index of its first
/// entry, or `None` if it is not listed.
pub fn find_object(objects: &[AstronObject], target: AstronObject) -> (found: Option<usize>)
    ensures
        found is Some <==> objects@.contains(target),
        found matches Some(i) ==> i < objects@.len() && objects@[i as int] == target && forall|
            j: int,
        | 0 <= j < i ==> objects@[j] != target,
{
    let mut i: usize = 0;
    while i < objects.len()
        invariant
            i <= objects@.len(),
            forall|j: int| 0 <= j < i ==> objects@[j] != target,
        decreases objects@.len() - i,
    {
        if objects[i] == target {
            return Some(i);
        }
        i = i + 1;
    }
    None
}

/// Whether a body is among those listed.
pub fn contains_object(objects: &[AstronObject], target: AstronObject) -> (yes: bool)
    ensures
        yes <==> objects@.contains(target),
{
    find_object(objects, target).is_some()
}

} // verus!
