use iced_interaction::event::{
    Button, Event, Interaction, Key, KeyboardEvent, Modifiers, MouseEvent, Named, TouchEvent,
    WindowEvent,
};
use iced_interaction::accessible::Role;
use iced_interaction::operation::Focusable;
use iced_interaction::radio_group::{update_state, RadioGroup, RadioStatus, State};

type TestState = State;

fn key(named: Named) -> Event {
    Event::Keyboard(KeyboardEvent::KeyPressed {
        key: Key::Named(named),
        modifiers: Modifiers::empty(),
    })
}

fn click() -> Event {
    Event::Mouse(MouseEvent::ButtonPressed(Button::Left))
}

fn group(selected: Option<u32>) -> RadioGroup<u32> {
    RadioGroup::new(
        vec![
            ("One".to_string(), 10),
            ("Two".to_string(), 20),
            ("Three".to_string(), 30),
        ],
        selected,
    )
}

#[test]
fn radio_group_focusable_trait() {
    let mut state = TestState::default();
    assert!(!state.is_focused());
    assert!(!state.focus_visible);
    state.focus();
    assert!(state.is_focused());
    assert!(state.focus_visible);
    state.unfocus();
    assert!(!state.is_focused());
    assert!(!state.focus_visible);
}

#[test]
fn default_state_starts_at_zero() {
    let state = TestState::default();
    assert_eq!(state.active_index, 0);
    assert!(!state.is_focused());
}

#[test]
fn arrows_wrap_around_the_ends() {
    let group = group(None);
    let mut state = TestState::default();
    state.focus();
    let up = group.update(&mut state, &key(Named::ArrowUp), None, true);
    assert_eq!(state.active_index, 2);
    assert_eq!(up.published, Some(30));
    assert!(up.captured);
    assert!(up.redraw_requested);
    let down = group.update(&mut state, &key(Named::ArrowDown), None, true);
    assert_eq!(state.active_index, 0);
    assert_eq!(down.published, Some(10));
    let right = group.update(&mut state, &key(Named::ArrowRight), None, true);
    assert_eq!(state.active_index, 1);
    assert_eq!(right.published, Some(20));
    let left = group.update(&mut state, &key(Named::ArrowLeft), None, true);
    assert_eq!(state.active_index, 0);
    assert_eq!(left.published, Some(10));
}

#[test]
fn arrow_down_then_up_returns_to_the_same_option() {
    let group = group(None);
    for start in 0..3 {
        let mut state = State { active_index: start, is_focused: true, focus_visible: true };
        group.update(&mut state, &key(Named::ArrowDown), None, true);
        let back = group.update(&mut state, &key(Named::ArrowUp), None, true);
        assert_eq!(state.active_index, start);
        assert_eq!(back.published, Some(group.value(start)));
    }
}

#[test]
fn keys_do_nothing_without_focus() {
    let group = group(None);
    let mut state = TestState::default();
    let r = group.update(&mut state, &key(Named::ArrowDown), None, false);
    assert_eq!(state, TestState::default());
    assert_eq!(r.published, None);
    assert!(!r.captured);
    assert!(r.redraw_requested);
}

#[test]
fn active_option_follows_external_selection() {
    let group = group(Some(30));
    let mut state = TestState::default();
    state.focus();
    let r = group.update(&mut state, &key(Named::Space), None, true);
    assert_eq!(state.active_index, 2);
    assert_eq!(r.published, Some(30));
    assert!(r.captured);
}

#[test]
fn click_on_option_selects_and_focuses_without_ring() {
    let group = group(None);
    let mut state = TestState::default();
    let r = group.update(&mut state, &click(), Some(1), true);
    assert_eq!(
        state,
        State { active_index: 1, is_focused: true, focus_visible: false }
    );
    assert_eq!(r.published, Some(20));
    assert!(r.captured);
    assert!(!r.redraw_requested);
    let touch = group.update(&mut state, &Event::Touch(TouchEvent::FingerPressed), Some(2), true);
    assert_eq!(touch.published, Some(30));
    assert_eq!(state.active_index, 2);
}

#[test]
fn click_outside_unfocuses_and_inside_keeps_focus() {
    let group = group(None);
    let mut state = TestState::default();
    state.focus();
    let r = group.update(&mut state, &click(), None, true);
    assert!(state.is_focused());
    assert!(!r.captured);
    group.update(&mut state, &click(), None, false);
    assert!(!state.is_focused());
    assert!(!state.focus_visible);
}

#[test]
fn escape_gives_up_focus() {
    let group = group(None);
    let mut state = TestState::default();
    state.focus();
    let r = group.update(&mut state, &key(Named::Escape), None, true);
    assert!(!state.is_focused());
    assert!(!state.focus_visible);
    assert!(r.captured);
    assert_eq!(r.published, None);
}

#[test]
fn redraw_request_is_not_answered_with_another() {
    let group = group(None);
    let mut state = TestState::default();
    let r = group.update(&mut state, &Event::Window(WindowEvent::RedrawRequested), None, false);
    assert!(!r.redraw_requested);
}

#[test]
fn empty_group_ignores_everything() {
    let group: RadioGroup<u32> = RadioGroup::new(vec![], None);
    let mut state = TestState::default();
    state.focus();
    let r = update_state(&mut state, 0, None, &key(Named::ArrowDown), None, true);
    assert_eq!(r.published, None);
    assert!(!r.redraw_requested);
    let tree = group.accessibility::<f64>(&mut state);
    assert!(!tree.focusable);
    assert!(tree.options.is_empty());
    assert!(!state.is_focused());
}

#[test]
fn accessibility_describes_each_option() {
    let group = group(Some(20));
    let mut state = TestState::default();
    let tree = group.accessibility::<f64>(&mut state);
    assert_eq!(tree.group.role, Role::Group);
    assert!(tree.focusable);
    assert_eq!(tree.options.len(), 3);
    for (i, node) in tree.options.iter().enumerate() {
        assert_eq!(node.role, Role::RadioButton);
        assert_eq!(node.position_in_set, Some(i + 1));
        assert_eq!(node.size_of_set, Some(3));
        assert_eq!(node.selected, Some(i == 1));
    }
    assert_eq!(tree.options[2].label.as_deref(), Some("Three"));
    assert_eq!(tree.texts, vec!["One".to_string(), "Two".to_string(), "Three".to_string()]);
}

#[test]
fn option_status_prefers_focus_ring_then_hover() {
    let group = group(Some(10));
    let state = State { active_index: 0, is_focused: true, focus_visible: true };
    assert_eq!(group.option_status(&state, 0, true), RadioStatus::Focused { is_selected: true });
    assert_eq!(group.option_status(&state, 1, true), RadioStatus::Hovered { is_selected: false });
    assert_eq!(group.option_status(&state, 2, false), RadioStatus::Active { is_selected: false });
    let quiet = State { active_index: 0, is_focused: true, focus_visible: false };
    assert_eq!(group.option_status(&quiet, 0, false), RadioStatus::Active { is_selected: true });
}

#[test]
fn pointer_over_options_only() {
    let group = group(None);
    assert_eq!(group.mouse_interaction(Some(0)), Interaction::Pointer);
    assert_eq!(group.mouse_interaction(None), Interaction::Idle);
}

#[test]
fn position_of_selected_finds_first_match() {
    let group = RadioGroup::new(
        vec![("a".to_string(), 1u8), ("b".to_string(), 2), ("c".to_string(), 2)],
        Some(2),
    );
    assert_eq!(group.position_of_selected(), Some(1));
    assert_eq!(group.len(), 3);
    assert!(group.is_selected(2));
    let missing = RadioGroup::new(vec![("a".to_string(), 1u8)], Some(9));
    assert_eq!(missing.position_of_selected(), None);
}

#[test]
fn stale_active_index_follows_found_selection() {
    let group = group(Some(10));
    let mut state = State { active_index: 5, is_focused: true, focus_visible: true };
    let r = group.update(&mut state, &key(Named::Space), None, true);
    assert_eq!(state.active_index, 0);
    assert_eq!(r.published, Some(10));
    assert!(r.captured);
}
