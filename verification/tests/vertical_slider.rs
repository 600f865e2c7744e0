use iced_interaction::accessible::{Orientation, Role, Value};
use iced_interaction::event::{
    Button, Event, Interaction, Key, KeyboardEvent, Modifiers, MouseEvent, Named, Platform,
    TouchEvent, WindowEvent,
};
use iced_interaction::operation::Focusable;
use iced_interaction::vertical_slider::{
    mouse_interaction, status_name, Catalog, DefaultClass, HandleShape, Paint, Palette,
    Shadow, State, Status, Swatch, ValueChange, VerticalSlider,
};

fn key(named: Named) -> Event {
    Event::Keyboard(KeyboardEvent::KeyPressed { key: Key::Named(named), modifiers: Modifiers::empty() })
}

fn press() -> Event {
    Event::Mouse(MouseEvent::ButtonPressed(Button::Left))
}

fn release() -> Event {
    Event::Mouse(MouseEvent::ButtonReleased(Button::Left))
}

fn with(modifiers: Modifiers) -> Event {
    Event::Keyboard(KeyboardEvent::ModifiersChanged(modifiers))
}

fn palette() -> Palette<u32> {
    Palette {
        primary: Swatch { base: 1, weak: 2, strong: 3 },
        background: Swatch { base: 4, weak: 5, strong: 6 },
    }
}

#[test]
fn vertical_slider_focusable_trait() {
    let mut state = State::default();
    assert!(!state.is_focused());
    assert!(!state.focus_visible);
    state.focus();
    assert!(state.is_focused());
    assert!(state.focus_visible);
    state.unfocus();
    assert!(!state.is_focused());
    assert!(!state.focus_visible);
}

#[test]
fn default_state_not_focused() {
    let state = State::default();
    assert!(!state.is_focused);
    assert!(!state.is_dragging);
    assert!(!state.focus_visible);
}

#[test]
fn focus_independent_of_drag() {
    let mut state = State::default();

    state.focus();
    assert!(!state.is_dragging);

    state.is_dragging = true;
    assert!(state.is_focused());

    state.unfocus();
    assert!(state.is_dragging);
}

#[test]
fn new_clamps_the_value_into_the_range() {
    assert_eq!(VerticalSlider::new(0..=100, 50).value(), 50);
    assert_eq!(VerticalSlider::new(0..=100, 150).value(), 100);
    assert_eq!(VerticalSlider::new(10..=100, 3).value(), 10);
    assert_eq!(VerticalSlider::new(0.0f32..=1.0, 2.5).value(), 1.0);
    assert_eq!(VerticalSlider::new(5..=1, 3).value(), 1);
}

#[test]
fn status_names() {
    assert_eq!(status_name(&Status::Active), "active");
    assert_eq!(status_name(&Status::Hovered), "hovered");
    assert_eq!(status_name(&Status::Dragged), "dragged");
    assert_eq!(status_name(&Status::Focused), "focused");
}

#[test]
fn default_style_follows_status() {
    let p = palette();
    let active = iced_interaction::vertical_slider::default(&p, Status::Active);
    assert_eq!(active.rail.filled, 1);
    assert_eq!(active.rail.unfilled, 6);
    assert_eq!(active.rail.width, 4);
    assert_eq!(active.rail.border.radius, 2);
    assert_eq!(active.rail.border.color, Paint::Transparent);
    assert_eq!(active.handle.shape, HandleShape::Circle { radius: 7 });
    assert_eq!(active.handle.border_width, 0);
    assert_eq!(active.handle.shadow, Shadow::Plain);
    assert_eq!(iced_interaction::vertical_slider::default(&p, Status::Hovered).handle.background, 3);
    assert_eq!(iced_interaction::vertical_slider::default(&p, Status::Dragged).handle.background, 2);
    let focused = iced_interaction::vertical_slider::default(&p, Status::Focused);
    assert_eq!(focused.handle.background, 3);
    assert_eq!(focused.handle.border_width, 2);
    assert_eq!(focused.handle.border_color, Paint::FocusRing { color: 3, accent: 3, page: 4 });
    assert_eq!(focused.handle.shadow, Shadow::Focus { accent: 3, page: 4 });
    assert_eq!(p.style(&DefaultClass, Status::Focused), focused);
    let _class: DefaultClass = <Palette<u32> as Catalog<u32>>::default();
}

#[test]
fn press_starts_a_drag_and_release_ends_it() {
    let mut slider = VerticalSlider::new(0..=10, 5);
    let mut state = State::default();
    let r = slider.update(&mut state, &press(), true, true, Platform::Other);
    assert!(state.is_dragging);
    assert!(state.is_focused);
    assert!(!state.focus_visible);
    assert_eq!(r.change, Some(ValueChange::Locate { step: 1 }));
    assert!(r.captured);
    assert_eq!(r.status, Status::Dragged);
    assert!(r.status_changed);
    assert!(r.redraw_requested);
    let moved = slider.update(&mut state, &Event::Mouse(MouseEvent::CursorMoved), false, true, Platform::Other);
    assert_eq!(moved.change, Some(ValueChange::Locate { step: 1 }));
    assert!(moved.captured);
    assert!(!moved.status_changed);
    let r = slider.update(&mut state, &release(), false, true, Platform::Other);
    assert!(r.released);
    assert!(!state.is_dragging);
    assert_eq!(r.status, Status::Active);
    assert!(r.status_changed);
    let again = slider.update(&mut state, &Event::Touch(TouchEvent::FingerLifted), false, true, Platform::Other);
    assert!(!again.released);
}

#[test]
fn control_click_resets_to_the_default() {
    let mut slider = VerticalSlider::new(0..=10, 5).default(3);
    let mut state = State::default();
    let control = Modifiers { shift: false, control: true, alt: false, logo: false };
    slider.update(&mut state, &with(control), false, true, Platform::Other);
    let r = slider.update(&mut state, &press(), true, true, Platform::Other);
    assert_eq!(r.change, Some(ValueChange::Jump(3)));
    assert!(!state.is_dragging);
    assert!(state.is_focused);
    let mut plain = VerticalSlider::new(0..=10, 5);
    let mut state = State::default();
    let logo = Modifiers { shift: false, control: false, alt: false, logo: true };
    plain.update(&mut state, &with(logo), false, true, Platform::MacOs);
    let r = plain.update(&mut state, &press(), true, true, Platform::MacOs);
    assert_eq!(r.change, None);
    assert!(r.captured);
}

#[test]
fn keys_step_the_value_when_focused_or_hovered() {
    let mut slider = VerticalSlider::new(0..=100, 50).step(5).shift_step(20);
    let mut state = State::default();
    let r = slider.update(&mut state, &key(Named::ArrowUp), false, true, Platform::Other);
    assert_eq!(r.change, None);
    assert!(!r.captured);
    let r = slider.update(&mut state, &key(Named::ArrowUp), true, true, Platform::Other);
    assert_eq!(r.change, Some(ValueChange::Increment { step: 5 }));
    state.focus();
    let r = slider.update(&mut state, &key(Named::ArrowLeft), false, true, Platform::Other);
    assert_eq!(r.change, Some(ValueChange::Decrement { step: 5 }));
    let shift = Modifiers { shift: true, control: false, alt: false, logo: false };
    slider.update(&mut state, &with(shift), false, true, Platform::Other);
    let r = slider.update(&mut state, &key(Named::ArrowRight), false, true, Platform::Other);
    assert_eq!(r.change, Some(ValueChange::Increment { step: 20 }));
    let r = slider.update(&mut state, &key(Named::PageUp), false, true, Platform::Other);
    assert_eq!(r.change, Some(ValueChange::PageIncrement { step: 5 }));
    let r = slider.update(&mut state, &key(Named::PageDown), false, true, Platform::Other);
    assert_eq!(r.change, Some(ValueChange::PageDecrement { step: 5 }));
    let r = slider.update(&mut state, &key(Named::Home), false, true, Platform::Other);
    assert_eq!(r.change, Some(ValueChange::Jump(0)));
    let r = slider.update(&mut state, &key(Named::End), false, true, Platform::Other);
    assert_eq!(r.change, Some(ValueChange::Jump(100)));
    let r = slider.update(&mut state, &key(Named::Escape), false, true, Platform::Other);
    assert!(r.captured);
    assert!(!state.is_focused);
    assert_eq!(r.status, Status::Active);
}

#[test]
fn control_wheel_steps_the_value() {
    let mut slider = VerticalSlider::new(0..=10, 5);
    let mut state = State::default();
    let wheel_down = Event::Mouse(MouseEvent::WheelScrolled { y_negative: true });
    let r = slider.update(&mut state, &wheel_down, true, true, Platform::Other);
    assert_eq!(r.change, None);
    let control = Modifiers { shift: false, control: true, alt: false, logo: false };
    slider.update(&mut state, &with(control), true, true, Platform::Other);
    let r = slider.update(&mut state, &wheel_down, true, true, Platform::Other);
    assert_eq!(r.change, Some(ValueChange::Decrement { step: 1 }));
    let up = Event::Mouse(MouseEvent::WheelScrolled { y_negative: false });
    let r = slider.update(&mut state, &up, true, true, Platform::Other);
    assert_eq!(r.change, Some(ValueChange::Increment { step: 1 }));
    assert!(r.captured);
}

#[test]
fn status_change_is_announced_once() {
    let mut slider = VerticalSlider::new(0..=10, 5);
    let mut state = State::default();
    let first = slider.update(&mut state, &Event::Mouse(MouseEvent::CursorEntered), true, true, Platform::Other);
    assert_eq!(first.status, Status::Hovered);
    assert!(first.status_changed);
    let second = slider.update(&mut state, &Event::Mouse(MouseEvent::CursorEntered), true, true, Platform::Other);
    assert!(!second.status_changed);
    assert!(!second.redraw_requested);
    let redraw = slider.update(&mut state, &Event::Window(WindowEvent::RedrawRequested), false, true, Platform::Other);
    assert!(redraw.status_changed);
    assert!(!redraw.redraw_requested);
    assert_eq!(slider.drawn_status(), Status::Active);
}

#[test]
fn accessibility_reports_value_range_and_drag() {
    let slider = VerticalSlider::new(0..=10, 4).step(2).label("Volume".to_string());
    let mut state = State::default();
    state.is_dragging = true;
    let tree = slider.accessibility(&state);
    assert!(tree.focusable);
    let node = tree.node;
    assert_eq!(node.role, Role::Slider);
    assert_eq!(node.label.as_deref(), Some("Volume"));
    assert_eq!(node.value, Some(Value::Numeric { current: 4, min: 0, max: 10, step: Some(2) }));
    assert_eq!(node.orientation, Some(Orientation::Vertical));
    assert!(node.busy);
}

#[test]
fn grab_cursors_depend_on_platform() {
    let mut state = State::default();
    assert_eq!(mouse_interaction(&state, false, Platform::Other), Interaction::Idle);
    assert_eq!(mouse_interaction(&state, true, Platform::Other), Interaction::Grab);
    assert_eq!(mouse_interaction(&state, true, Platform::Windows), Interaction::Pointer);
    state.is_dragging = true;
    assert_eq!(mouse_interaction(&state, false, Platform::MacOs), Interaction::Grabbing);
    assert_eq!(mouse_interaction(&state, false, Platform::Windows), Interaction::Pointer);
}
