use planet_tracker::models::AstronObject;
use planet_tracker::selection::{
    contains_object, find_object, Interaction, SelectionState, Tooltip, TooltipPlacement,
};

fn consistent(state: &Interaction<f64>) -> bool {
    state.tooltip.obj == state.selection.selected()
        && state.tooltip_visible() == state.tooltip.obj.is_some()
}

#[test]
fn starts_idle_with_a_hidden_tooltip() {
    let state: Interaction<f64> = Interaction::new(0.0, 0.0);
    assert_eq!(state.selection, SelectionState::Idle);
    assert_eq!(state.selection.selected(), None);
    assert_eq!(state.tooltip.obj, None);
    assert!(!state.tooltip_visible());
    assert_eq!(state.tooltip_text(), "");
    assert!(matches!(state.tooltip_placement(), TooltipPlacement::Hidden));
}

#[test]
fn default_tooltip_is_hidden_at_the_origin() {
    let tooltip: Tooltip<f64> = Tooltip::default();
    assert_eq!(tooltip.x, 0.0);
    assert_eq!(tooltip.y, 0.0);
    assert_eq!(tooltip.obj, None);
    assert_eq!(tooltip.text(), "");
    let hidden = Tooltip::hidden(3.5, 4.5);
    assert_eq!((hidden.x, hidden.y, hidden.obj), (3.5, 4.5, None));
}

#[test]
fn click_selects_and_places_the_tooltip() {
    let state = Interaction::new(0.0, 0.0).pointer_down(AstronObject::Venus, 120.5, 80.25);
    assert_eq!(state.selection, SelectionState::Selected(AstronObject::Venus));
    assert_eq!(state.tooltip.obj, Some(AstronObject::Venus));
    assert_eq!((state.tooltip.x, state.tooltip.y), (120.5, 80.25));
    assert!(state.tooltip_visible());
    assert_eq!(state.tooltip_text(), "Venus");
    assert!(matches!(
        state.tooltip_placement(),
        TooltipPlacement::At { x, y } if x == 120.5 && y == 80.25
    ));
}

#[test]
fn clicking_twice_returns_to_idle() {
    for object in [AstronObject::Sun, AstronObject::Moon, AstronObject::Saturn] {
        let state = Interaction::new(0.0, 0.0)
            .pointer_down(object, 1.0, 2.0)
            .pointer_down(object, 1.0, 2.0);
        assert_eq!(state.selection, SelectionState::Idle);
        assert_eq!(state.tooltip.obj, None);
        assert!(!state.tooltip_visible());
        assert_eq!(state.tooltip_text(), "");
        assert!(matches!(state.tooltip_placement(), TooltipPlacement::Hidden));
    }
}

#[test]
fn clicking_twice_after_another_selection_returns_to_idle() {
    let state = Interaction::new(0.0, 0.0)
        .pointer_down(AstronObject::Mars, 1.0, 2.0)
        .pointer_down(AstronObject::Moon, 3.0, 4.0)
        .pointer_down(AstronObject::Moon, 3.0, 4.0);
    assert_eq!(state.selection, SelectionState::Idle);
}

#[test]
fn clicking_another_body_moves_the_selection() {
    let state = Interaction::new(0.0, 0.0)
        .pointer_down(AstronObject::Jupiter, 1.0, 2.0)
        .pointer_down(AstronObject::Mercury, 30.0, 40.0);
    assert_eq!(state.selection, SelectionState::Selected(AstronObject::Mercury));
    assert_eq!(state.tooltip.obj, Some(AstronObject::Mercury));
    assert_eq!((state.tooltip.x, state.tooltip.y), (30.0, 40.0));
    assert_eq!(state.tooltip_text(), "Mercury");
}

#[test]
fn three_clicks_select_again() {
    let state = Interaction::new(0.0, 0.0)
        .pointer_down(AstronObject::Sun, 1.0, 1.0)
        .pointer_down(AstronObject::Sun, 2.0, 2.0)
        .pointer_down(AstronObject::Sun, 3.0, 3.0);
    assert_eq!(state.selection, SelectionState::Selected(AstronObject::Sun));
    assert_eq!((state.tooltip.x, state.tooltip.y), (3.0, 3.0));
}

#[test]
fn tooltip_follows_selection_through_every_click_sequence() {
    let bodies = [AstronObject::Sun, AstronObject::Mars, AstronObject::Moon];
    for a in bodies {
        for b in bodies {
            for c in bodies {
                let mut state: Interaction<f64> = Interaction::new(0.0, 0.0);
                assert!(consistent(&state));
                for (i, object) in [a, b, c].into_iter().enumerate() {
                    let before = state.selection;
                    state = state.pointer_down(object, i as f64, 0.0);
                    assert!(consistent(&state));
                    assert_eq!(state.selection, before.toggle(object));
                    if before == SelectionState::Selected(object) {
                        assert_eq!(state.selection, SelectionState::Idle);
                    } else {
                        assert_eq!(state.selection, SelectionState::Selected(object));
                    }
                }
            }
        }
    }
}

#[test]
fn refresh_keeps_a_listed_selection_and_moves_the_tooltip() {
    let state = Interaction::new(0.0, 0.0).pointer_down(AstronObject::Mars, 10.0, 20.0);
    let listed = [AstronObject::Sun, AstronObject::Moon, AstronObject::Mars];
    let state = state.refresh(&listed, Some((55.0, 66.0)));
    assert_eq!(state.selection, SelectionState::Selected(AstronObject::Mars));
    assert_eq!(state.tooltip.obj, Some(AstronObject::Mars));
    assert_eq!((state.tooltip.x, state.tooltip.y), (55.0, 66.0));
    assert!(state.tooltip_visible());
    let reordered = [AstronObject::Mars, AstronObject::Sun];
    let state = state.refresh(&reordered, Some((5.0, 6.0)));
    assert_eq!(state.selection, SelectionState::Selected(AstronObject::Mars));
    assert_eq!((state.tooltip.x, state.tooltip.y), (5.0, 6.0));
}

#[test]
fn refresh_without_the_selected_body_hides_the_tooltip() {
    let state = Interaction::new(0.0, 0.0).pointer_down(AstronObject::Mars, 10.0, 20.0);
    let listed = [AstronObject::Sun, AstronObject::Moon];
    let state = state.refresh(&listed, Some((55.0, 66.0)));
    assert!(!state.tooltip_visible());
    assert_eq!(state.tooltip.obj, None);
    assert_eq!(state.selection, SelectionState::Idle);
    assert!(matches!(state.tooltip_placement(), TooltipPlacement::Hidden));
    assert_eq!(state.tooltip_text(), "");
    assert_eq!((state.tooltip.x, state.tooltip.y), (10.0, 20.0));
}

#[test]
fn refresh_without_a_measurement_hides_the_tooltip() {
    let state = Interaction::new(0.0, 0.0).pointer_down(AstronObject::Mars, 10.0, 20.0);
    let listed = [AstronObject::Mars];
    let state = state.refresh(&listed, None);
    assert!(!state.tooltip_visible());
    assert_eq!(state.tooltip.obj, None);
    assert_eq!(state.selection, SelectionState::Idle);
}

#[test]
fn refresh_while_idle_stays_idle() {
    let state: Interaction<f64> = Interaction::new(1.0, 2.0);
    let state = state.refresh(&[AstronObject::Mars], Some((9.0, 9.0)));
    assert_eq!(state.selection, SelectionState::Idle);
    assert_eq!(state.tooltip.obj, None);
    assert_eq!((state.tooltip.x, state.tooltip.y), (1.0, 2.0));
    let state = state.refresh(&[], None);
    assert_eq!(state.selection, SelectionState::Idle);
}

#[test]
fn choosing_outright_selects_without_toggling() {
    let state = Interaction::new(0.0, 0.0).select(AstronObject::Saturn, Some((7.0, 8.0)));
    assert_eq!(state.selection, SelectionState::Selected(AstronObject::Saturn));
    let state = state.select(AstronObject::Saturn, Some((9.0, 10.0)));
    assert_eq!(state.selection, SelectionState::Selected(AstronObject::Saturn));
    assert_eq!(state.tooltip.obj, Some(AstronObject::Saturn));
    assert_eq!((state.tooltip.x, state.tooltip.y), (9.0, 10.0));
    let state = state.select(AstronObject::Venus, None);
    assert_eq!(state.selection, SelectionState::Idle);
    assert_eq!(state.tooltip.obj, None);
    assert_eq!((state.tooltip.x, state.tooltip.y), (9.0, 10.0));
}

#[test]
fn a_state_put_together_by_hand_is_put_right_by_the_next_event() {
    let broken = Interaction {
        selection: SelectionState::Idle,
        tooltip: Tooltip { x: 1.0, y: 2.0, obj: Some(AstronObject::Sun) },
    };
    assert!(consistent(&broken.clone().pointer_down(AstronObject::Moon, 0.0, 0.0)));
    assert!(consistent(&broken.clone().refresh(&[AstronObject::Sun], Some((0.0, 0.0)))));
    assert!(consistent(&broken.select(AstronObject::Sun, None)));
}

#[test]
fn selection_state_conversions() {
    assert_eq!(SelectionState::from_selected(None), SelectionState::Idle);
    assert_eq!(
        SelectionState::from_selected(Some(AstronObject::Moon)),
        SelectionState::Selected(AstronObject::Moon)
    );
    assert_eq!(SelectionState::Selected(AstronObject::Moon).selected(), Some(AstronObject::Moon));
    assert!(SelectionState::Selected(AstronObject::Moon).is_selected(AstronObject::Moon));
    assert!(!SelectionState::Selected(AstronObject::Moon).is_selected(AstronObject::Sun));
    assert!(!SelectionState::Idle.is_selected(AstronObject::Sun));
    assert_eq!(
        SelectionState::Idle.toggle(AstronObject::Sun),
        SelectionState::Selected(AstronObject::Sun)
    );
    assert_eq!(
        SelectionState::Selected(AstronObject::Sun).toggle(AstronObject::Sun),
        SelectionState::Idle
    );
    assert_eq!(
        SelectionState::Selected(AstronObject::Sun).toggle(AstronObject::Mars),
        SelectionState::Selected(AstronObject::Mars)
    );
}

#[test]
fn bodies_are_found_by_identity() {
    let listed = [
        AstronObject::Sun,
        AstronObject::Mars,
        AstronObject::Moon,
        AstronObject::Mars,
    ];
    assert_eq!(find_object(&listed, AstronObject::Sun), Some(0));
    assert_eq!(find_object(&listed, AstronObject::Mars), Some(1));
    assert_eq!(find_object(&listed, AstronObject::Moon), Some(2));
    assert_eq!(find_object(&listed, AstronObject::Venus), None);
    assert_eq!(find_object(&[], AstronObject::Sun), None);
    assert!(contains_object(&listed, AstronObject::Moon));
    assert!(!contains_object(&listed, AstronObject::Jupiter));
    assert!(!contains_object(&[], AstronObject::Jupiter));
}

#[test]
fn coordinates_of_any_type_are_carried_through() {
    let state = Interaction::new(String::new(), String::new()).pointer_down(
        AstronObject::Sun,
        String::from("12px"),
        String::from("34px"),
    );
    assert_eq!(state.tooltip.x, "12px");
    assert_eq!(state.tooltip.y, "34px");
    let state = Interaction::new(0i64, 0i64).pointer_down(AstronObject::Sun, -5, 7);
    assert!(matches!(state.tooltip_placement(), TooltipPlacement::At { x: -5, y: 7 }));
}
