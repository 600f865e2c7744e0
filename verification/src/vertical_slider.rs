//! A vertical bar and a handle that selects a single value from a range.
//!
//! The slider's decisions live here: how its state reacts to each event,
//! which value change an event asks for, which status it shows, when it
//! announces a status change, and how its default style follows its status.
//! The arithmetic on the value itself (locating the cursor along the rail,
//! rounding to steps) is done by the caller in the value's own number type.

use crate::accessible::{blank, Accessible, Orientation, Role, Value};
use crate::event::{is_press, is_redraw, is_redraw_event, named_press, Button, Event, Interaction, Key,
    KeyboardEvent, Modifiers, MouseEvent, Named, Platform, TouchEvent};
use crate::operation::Focusable;
use core::ops::RangeInclusive;
use vstd::prelude::*;
use vstd::std_specs::cmp::{PartialOrdIs, PartialOrdSpec};
use vstd::std_specs::convert::FromSpec;

verus! {

/// The state that a slider keeps between events.
#[derive(Debug, Clone, Copy, PartialEq, Eq, Structural)]
pub struct State {
    /// Whether the handle is being dragged.
    pub is_dragging: bool,
    /// Whether the slider holds keyboard focus.
    pub is_focused: bool,
    /// Whether the focus ring is shown (focus came from the keyboard).
    pub focus_visible: bool,
    /// The keyboard modifiers last reported.
    pub keyboard_modifiers: Modifiers,
}

impl Default for State {
    /// Not dragged, not focused, no modifier held.
    fn default() -> (state: State)
        ensures
            !state.is_dragging,
            !state.is_focused,
            !state.focus_visible,
            state.keyboard_modifiers == (Modifiers {
                shift: false,
                control: false,
                alt: false,
                logo: false,
            }),
    {
        State {
            is_dragging: false,
            is_focused: false,
            focus_visible: false,
            keyboard_modifiers: Modifiers::default(),
        }
    }
}

impl Focusable for State {
    fn is_focused(&self) -> (b: bool)
        ensures
            b == self.is_focused,
    {
        self.is_focused
    }

    /// Focus given from outside (e.g. by Tab) shows the focus ring; it
    /// leaves dragging alone.
    fn focus(&mut self)
        ensures
            *final(self) == (State { is_focused: true, focus_visible: true, ..*old(self) }),
    {
        self.is_focused = true;
        self.focus_visible = true;
    }

    /// Losing focus leaves dragging alone.
    fn unfocus(&mut self)
        ensures
            *final(self) == (State { is_focused: false, focus_visible: false, ..*old(self) }),
    {
        self.is_focused = false;
        self.focus_visible = false;
    }
}

/// The possible status of a [`VerticalSlider`].
#[derive(Debug, Clone, Copy, PartialEq, Eq, Structural)]
pub enum Status {
    /// The [`VerticalSlider`] can be interacted with.
    Active,
    /// The [`VerticalSlider`] is being hovered.
    Hovered,
    /// The [`VerticalSlider`] is being dragged.
    Dragged,
    /// The [`VerticalSlider`] has keyboard focus.
    Focused,
}

/// The name under which a status is announced.
pub open spec fn status_name_spec(status: Status) -> Seq<char> {
    match status {
        Status::Active => "active"@,
        Status::Hovered => "hovered"@,
        Status::Dragged => "dragged"@,
        Status::Focused => "focused"@,
    }
}

/// The name under which a status is announced: "active", "hovered",
/// "dragged" or "focused".
pub fn status_name(status: &Status) -> (name: &'static str)
    ensures
        name@ == status_name_spec(*status),
{
    match status {
        Status::Active => "active",
        Status::Hovered => "hovered",
        Status::Dragged => "dragged",
        Status::Focused => "focused",
    }
}

/// The three shades of a palette color.
#[derive(Debug, Clone, Copy, PartialEq, Eq)]
pub struct Swatch<C> {
    /// The base shade.
    pub base: C,
    /// The weak shade.
    pub weak: C,
    /// The strong shade.
    pub strong: C,
}

/// The part of a theme's extended palette that sliders are drawn with.
#[derive(Debug, Clone, Copy, PartialEq, Eq)]
pub struct Palette<C> {
    /// The primary color.
    pub primary: Swatch<C>,
    /// The background color.
    pub background: Swatch<C>,
}

/// A color as a style asks for it.
#[derive(Debug, Clone, Copy, PartialEq, Eq)]
pub enum Paint<C> {
    /// No color at all.
    Transparent,
    /// The given color.
    Solid(C),
    /// The focus ring color that the theme derives from a widget's color,
    /// its accent and the page background, so that the ring stands out on
    /// both.
    FocusRing {
        /// The widget's own color.
        color: C,
        /// The accent color.
        accent: C,
        /// The page background.
        page: C,
    },
}

/// A border; lengths are in logical pixels.
#[derive(Debug, Clone, Copy, PartialEq, Eq)]
pub struct Border<C> {
    /// The corner radius.
    pub radius: u32,
    /// The width.
    pub width: u32,
    /// The color.
    pub color: Paint<C>,
}

/// A shadow as a style asks for it.
#[derive(Debug, Clone, Copy, PartialEq, Eq)]
pub enum Shadow<C> {
    /// The default: no shadow.
    Plain,
    /// The focus shadow that the theme derives from the accent and the
    /// page background.
    Focus {
        /// The accent color.
        accent: C,
        /// The page background.
        page: C,
    },
}

/// The shape of a slider's handle; lengths are in logical pixels.
#[derive(Debug, Clone, Copy, PartialEq, Eq, Structural)]
pub enum HandleShape {
    /// A circle of the given radius.
    Circle {
        /// The radius.
        radius: u32,
    },
    /// A rectangle as wide as the rail is long across.
    Rectangle {
        /// Its extent along the rail.
        width: u16,
        /// The corner radius.
        border_radius: u32,
    },
}

/// The rail of a slider.
#[derive(Debug, Clone, Copy, PartialEq, Eq)]
pub struct Rail<C> {
    /// The background of the rail below the handle.
    pub filled: C,
    /// The background of the rail above the handle.
    pub unfilled: C,
    /// The width of the rail.
    pub width: u32,
    /// The border of the rail.
    pub border: Border<C>,
}

/// The handle of a slider.
#[derive(Debug, Clone, Copy, PartialEq, Eq)]
pub struct Handle<C> {
    /// The shape of the handle.
    pub shape: HandleShape,
    /// The background of the handle.
    pub background: C,
    /// The border color of the handle.
    pub border_color: Paint<C>,
    /// The border width of the handle.
    pub border_width: u32,
    /// The shadow of the handle.
    pub shadow: Shadow<C>,
}

/// The appearance of a slider.
#[derive(Debug, Clone, Copy, PartialEq, Eq)]
pub struct Style<C> {
    /// The rail.
    pub rail: Rail<C>,
    /// The handle.
    pub handle: Handle<C>,
}

/// The color that the default style gives the filled rail and the handle:
/// the base primary shade when active, the strong one when hovered or
/// focused, the weak one while dragged.
pub open spec fn default_color<C>(palette: Palette<C>, status: Status) -> C {
    match status {
        Status::Active => palette.primary.base,
        Status::Hovered => palette.primary.strong,
        Status::Dragged => palette.primary.weak,
        Status::Focused => palette.primary.strong,
    }
}

/// The default style of a slider in a given status: a 4-pixel rail with a
/// 2-pixel corner radius and no border, filled with the status color below
/// the handle and the strong background above it, and a circular handle of
/// radius 7 in the status color. Only a focused slider gets a border on its
/// handle, 2 pixels wide in the focus ring color, and the focus shadow.
pub open spec fn default_style<C>(palette: Palette<C>, status: Status) -> Style<C> {
    let color = default_color(palette, status);
    let focused = status == Status::Focused;
    Style {
        rail: Rail {
            filled: color,
            unfilled: palette.background.strong,
            width: 4,
            border: Border { radius: 2, width: 0, color: Paint::Transparent },
        },
        handle: Handle {
            shape: HandleShape::Circle { radius: 7 },
            background: color,
            border_color: if focused {
                Paint::FocusRing {
                    color,
                    accent: palette.primary.strong,
                    page: palette.background.base,
                }
            } else {
                Paint::Transparent
            },
            border_width: if focused {
                2
            } else {
                0
            },
            shadow: if focused {
                Shadow::Focus { accent: palette.primary.strong, page: palette.background.base }
            } else {
                Shadow::Plain
            },
        },
    }
}

/// The default style of a [`VerticalSlider`].
pub fn default<C: Copy>(palette: &Palette<C>, status: Status) -> (style: Style<C>)
    ensures
        style == default_style(*palette, status),
{
    let color = match status {
        Status::Active => palette.primary.base,
        Status::Hovered => palette.primary.strong,
        Status::Dragged => palette.primary.weak,
        Status::Focused => palette.primary.strong,
    };
    Style {
        rail: Rail {
            filled: color,
            unfilled: palette.background.strong,
            width: 4,
            border: Border { radius: 2, width: 0, color: Paint::Transparent },
        },
        handle: Handle {
            shape: HandleShape::Circle { radius: 7 },
            background: color,
            border_color: match status {
                Status::Focused => Paint::FocusRing {
                    color,
                    accent: palette.primary.strong,
                    page: palette.background.base,
                },
                _ => Paint::Transparent,
            },
            border_width: match status {
                Status::Focused => 2,
                _ => 0,
            },
            shadow: match status {
                Status::Focused => Shadow::Focus {
                    accent: palette.primary.strong,
                    page: palette.background.base,
                },
                _ => Shadow::Plain,
            },
        },
    }
}

/// The theme catalog of a [`VerticalSlider`].
pub trait Catalog<C>: Sized {
    /// The item class of the [`Catalog`].
    type Class<'a>;

    /// The default class produced by the [`Catalog`].
    fn default<'a>() -> Self::Class<'a>;

    /// The [`Style`] of a class with the given status.
    fn style(&self, class: &Self::Class<'_>, status: Status) -> Style<C>;
}

/// The class of the built-in theme: its default style.
#[derive(Debug, Clone, Copy, PartialEq, Eq, Structural)]
pub struct DefaultClass;

impl<C: Copy> Catalog<C> for Palette<C> {
    type Class<'a> = DefaultClass;

    fn default<'a>() -> (class: Self::Class<'a>) {
        DefaultClass
    }

    fn style(&self, class: &DefaultClass, status: Status) -> (style: Style<C>)
        ensures
            style == default_style(*self, status),
    {
        default(self, status)
    }
}

/// The cursor over a slider: a closed hand while dragging and an open hand
/// when hovering, both shown as a pointer on Windows; the default cursor
/// elsewhere.
pub fn mouse_interaction(state: &State, is_over: bool, platform: Platform) -> (i: Interaction)
    ensures
        i == if state.is_dragging {
            if platform == Platform::Windows {
                Interaction::Pointer
            } else {
                Interaction::Grabbing
            }
        } else if is_over {
            if platform == Platform::Windows {
                Interaction::Pointer
            } else {
                Interaction::Grab
            }
        } else {
            Interaction::Idle
        },
{
    let windows = match platform {
        Platform::Windows => true,
        _ => false,
    };
    if state.is_dragging {
        if windows {
            Interaction::Pointer
        } else {
            Interaction::Grabbing
        }
    } else if is_over {
        if windows {
            Interaction::Pointer
        } else {
            Interaction::Grab
        }
    } else {
        Interaction::default()
    }
}

/// `RangeInclusive::start` returns the lower bound of the range, as its
/// documentation says; the range is never iterated here.
pub assume_specification<Idx>[ RangeInclusive::<Idx>::start ](range: &RangeInclusive<Idx>) -> (start: &Idx)
    ensures
        *start == range@.start,
;

/// `RangeInclusive::end` returns the upper bound of the range, as its
/// documentation says; the range is never iterated here.
pub assume_specification<Idx>[ RangeInclusive::<Idx>::end ](range: &RangeInclusive<Idx>) -> (end: &Idx)
    ensures
        *end == range@.end,
;

/// A change of a slider's value that an event asks for. Those that need
/// arithmetic on the value are carried out by the caller in the value's
/// number type, and are dropped when the result does not fit it; a change
/// is published only when the new value differs from the current one.
#[derive(Debug, Clone, Copy, PartialEq, Eq)]
pub enum ValueChange<T> {
    /// Set the value to the one given: the default value, or an end of
    /// the range.
    Jump(T),
    /// Set the value to the one under the cursor: the range start plus the
    /// nearest whole number of steps towards the cursor, at most the range
    /// end. The range end lies at the top of the rail, the start at the
    /// bottom.
    Locate {
        /// The step.
        step: T,
    },
    /// Round the value to a whole number of steps and go one step up,
    /// stopping at the range end.
    Increment {
        /// The step.
        step: T,
    },
    /// Round the value to a whole number of steps and go one step down,
    /// stopping at the range start.
    Decrement {
        /// The step.
        step: T,
    },
    /// Add ten steps to the value, stopping at the range end.
    PageIncrement {
        /// The step.
        step: T,
    },
    /// Subtract ten steps from the value, stopping at the range start.
    PageDecrement {
        /// The step.
        step: T,
    },
}

/// How a slider reacted to an event.
#[derive(Debug, Clone, Copy, PartialEq, Eq)]
pub struct Reaction<T> {
    /// The change of value asked for, if any.
    pub change: Option<ValueChange<T>>,
    /// Whether a drag ended: the release message, if the slider has one,
    /// is to be published.
    pub released: bool,
    /// Whether the event was captured.
    pub captured: bool,
    /// The status of the slider after the event.
    pub status: Status,
    /// Whether the status changed: its name is to be announced, if the
    /// slider has a status callback.
    pub status_changed: bool,
    /// Whether a redraw is requested.
    pub redraw_requested: bool,
}

/// The accessibility metadata of a slider.
#[derive(Debug, Clone)]
pub struct AccessibleNode<T> {
    /// The node of the slider.
    pub node: Accessible<T>,
    /// Whether the slider is a focus stop.
    pub focusable: bool,
}

/// Holds of a left button release and of a finger lifted or lost.
pub open spec fn is_release(event: Event) -> bool {
    ||| event == Event::Mouse(MouseEvent::ButtonReleased(Button::Left))
    ||| event == Event::Touch(TouchEvent::FingerLifted)
    ||| event == Event::Touch(TouchEvent::FingerLost)
}

/// Holds of a cursor or finger movement.
pub open spec fn is_move(event: Event) -> bool {
    event == Event::Mouse(MouseEvent::CursorMoved) || event == Event::Touch(TouchEvent::FingerMoved)
}

/// The status a slider shows: dragged while dragging, else focused while
/// its focus ring shows, else hovered while the cursor is over it, else
/// active.
pub open spec fn status_of(state: State, is_over: bool) -> Status {
    if state.is_dragging {
        Status::Dragged
    } else if state.focus_visible {
        Status::Focused
    } else if is_over {
        Status::Hovered
    } else {
        Status::Active
    }
}

/// An inclusive range of values, a step, and a current value that selects
/// one of them; see the module documentation.
pub struct VerticalSlider<T> {
    range: RangeInclusive<T>,
    step: T,
    shift_step: Option<T>,
    value: T,
    default: Option<T>,
    label: Option<String>,
    status: Option<Status>,
}

/// The value clamped into `[start, end]`: raised to `start` unless it is
/// at least `start`, then lowered to `end` unless it is at most `end`.
pub open spec fn clamp<T: PartialOrd>(value: T, start: T, end: T) -> T {
    let raised = if value.is_ge(&start) {
        value
    } else {
        start
    };
    if raised.is_le(&end) {
        raised
    } else {
        end
    }
}

impl<T: Copy + From<u8> + PartialOrd> VerticalSlider<T> {
    /// The lower end of the range.
    pub closed spec fn start(&self) -> T {
        self.range@.start
    }

    /// The upper end of the range.
    pub closed spec fn end(&self) -> T {
        self.range@.end
    }

    /// The step.
    pub closed spec fn step_view(&self) -> T {
        self.step
    }

    /// The step used while shift is held, if set.
    pub closed spec fn shift_step_view(&self) -> Option<T> {
        self.shift_step
    }

    /// The current value.
    pub closed spec fn value_view(&self) -> T {
        self.value
    }

    /// The value that a ctrl-click (or command-click) resets to, if set.
    pub closed spec fn default_view(&self) -> Option<T> {
        self.default
    }

    /// The accessible label, if set.
    pub closed spec fn label_view(&self) -> Option<String> {
        self.label
    }

    /// The status after the last event, if any event was processed.
    pub closed spec fn status_view(&self) -> Option<Status> {
        self.status
    }

    /// Holds when `other` has the same range as this slider.
    pub open spec fn same_range(&self, other: &Self) -> bool {
        &&& other.start() == self.start()
        &&& other.end() == self.end()
    }

    /// Creates a new [`VerticalSlider`] over an inclusive range, with its
    /// current value clamped into the range (where the range is empty, the
    /// value becomes its upper end) and a step of 1.
    pub fn new(range: RangeInclusive<T>, value: T) -> (slider: Self)
        ensures
            slider.start() == range@.start,
            slider.end() == range@.end,
            T::obeys_partial_cmp_spec() ==> slider.value_view() == clamp(
                value,
                range@.start,
                range@.end,
            ),
            T::obeys_from_spec() ==> slider.step_view() == T::from_spec(1u8),
            slider.shift_step_view() is None,
            slider.default_view() is None,
            slider.label_view() is None,
            slider.status_view() is None,
    {
        let start = *range.start();
        let end = *range.end();
        let value = if value >= start {
            value
        } else {
            start
        };
        let value = if value <= end {
            value
        } else {
            end
        };
        VerticalSlider {
            value,
            default: None,
            range,
            step: T::from(1u8),
            shift_step: None,
            label: None,
            status: None,
        }
    }

    /// The current value.
    pub fn value(&self) -> (v: T)
        ensures
            v == self.value_view(),
    {
        self.value
    }

    /// The lower and upper ends of the range.
    pub fn bounds(&self) -> (r: (T, T))
        ensures
            r == (self.start(), self.end()),
    {
        (*self.range.start(), *self.range.end())
    }

    /// The step.
    pub fn step_size(&self) -> (step: T)
        ensures
            step == self.step_view(),
    {
        self.step
    }

    /// Sets the current value, once the caller has carried out a change.
    pub fn set_value(&mut self, value: T)
        ensures
            final(self).value_view() == value,
            final(self).same_range(old(self)),
            final(self).step_view() == old(self).step_view(),
            final(self).shift_step_view() == old(self).shift_step_view(),
            final(self).default_view() == old(self).default_view(),
            final(self).label_view() == old(self).label_view(),
            final(self).status_view() == old(self).status_view(),
    {
        self.value = value;
    }

    /// The step in force: the shift step while shift is held, if one is
    /// set, else the step.
    pub open spec fn step_for(&self, modifiers: Modifiers) -> T {
        if modifiers.shift {
            match self.shift_step_view() {
                Some(shift_step) => shift_step,
                None => self.step_view(),
            }
        } else {
            self.step_view()
        }
    }

    /// The step in force for the given modifiers.
    pub fn current_step(&self, modifiers: Modifiers) -> (step: T)
        ensures
            step == self.step_for(modifiers),
    {
        if modifiers.shift {
            match self.shift_step {
                Some(shift_step) => shift_step,
                None => self.step,
            }
        } else {
            self.step
        }
    }

    /// How the slider's state reacts to an event, and which value change
    /// and release it asks for and whether it captures the event, given
    /// whether the cursor is over the slider and whether its position is
    /// known at all.
    ///
    /// - A click or touch on the slider focuses it without the focus ring;
    ///   with control (or the platform's command key) held it resets the
    ///   value to the default, if one is set, otherwise it starts a drag
    ///   and moves the value to the cursor. It is captured. A click
    ///   elsewhere takes focus away.
    /// - Releasing ends a drag and asks for the release message.
    /// - Moving while dragging moves the value to the cursor, when its
    ///   position is known, and is captured.
    /// - With control held, the wheel over the slider steps the value down
    ///   when scrolled below zero and up otherwise, and is captured.
    /// - A key pressed while the cursor is over the slider or it holds
    ///   focus: Up/Right step up, Down/Left step down, Page Up/Down move ten
    ///   steps, Home/End go to the range's ends, each captured; Escape gives
    ///   up focus, captured, when the slider holds it.
    /// - A change of modifiers is remembered.
    pub open spec fn event_spec(
        &self,
        state: State,
        event: Event,
        is_over: bool,
        cursor_known: bool,
        platform: Platform,
    ) -> (State, Option<ValueChange<T>>, bool, bool) {
        let modifiers = state.keyboard_modifiers;
        let step = self.step_for(modifiers);
        if is_press(event) {
            if is_over {
                if modifiers.control || modifiers.command_spec(platform) {
                    (
                        State { is_dragging: false, is_focused: true, focus_visible: false, ..state },
                        match self.default_view() {
                            Some(d) => Some(ValueChange::Jump(d)),
                            None => None,
                        },
                        false,
                        true,
                    )
                } else {
                    (
                        State { is_dragging: true, is_focused: true, focus_visible: false, ..state },
                        Some(ValueChange::Locate { step }),
                        false,
                        true,
                    )
                }
            } else {
                (State { is_focused: false, focus_visible: false, ..state }, None, false, false)
            }
        } else if is_release(event) {
            if state.is_dragging {
                (State { is_dragging: false, ..state }, None, true, false)
            } else {
                (state, None, false, false)
            }
        } else if is_move(event) {
            if state.is_dragging {
                (state, if cursor_known {
                    Some(ValueChange::Locate { step })
                } else {
                    None
                }, false, true)
            } else {
                (state, None, false, false)
            }
        } else {
            match event {
                Event::Mouse(MouseEvent::WheelScrolled { y_negative }) => if modifiers.control
                    && is_over {
                    (state, Some(if y_negative {
                        ValueChange::Decrement { step }
                    } else {
                        ValueChange::Increment { step }
                    }), false, true)
                } else {
                    (state, None, false, false)
                },
                Event::Keyboard(KeyboardEvent::KeyPressed { key, .. }) => if is_over
                    || state.is_focused {
                    match key {
                        Key::Named(named) => if named == Named::ArrowUp || named
                            == Named::ArrowRight {
                            (state, Some(ValueChange::Increment { step }), false, true)
                        } else if named == Named::ArrowDown || named == Named::ArrowLeft {
                            (state, Some(ValueChange::Decrement { step }), false, true)
                        } else if named == Named::PageUp {
                            (
                                state,
                                Some(ValueChange::PageIncrement { step: self.step_view() }),
                                false,
                                true,
                            )
                        } else if named == Named::PageDown {
                            (
                                state,
                                Some(ValueChange::PageDecrement { step: self.step_view() }),
                                false,
                                true,
                            )
                        } else if named == Named::Home {
                            (state, Some(ValueChange::Jump(self.start())), false, true)
                        } else if named == Named::End {
                            (state, Some(ValueChange::Jump(self.end())), false, true)
                        } else if named == Named::Escape && state.is_focused {
                            (
                                State { is_focused: false, focus_visible: false, ..state },
                                None,
                                false,
                                true,
                            )
                        } else {
                            (state, None, false, false)
                        },
                        _ => (state, None, false, false),
                    }
                } else {
                    (state, None, false, false)
                },
                Event::Keyboard(KeyboardEvent::ModifiersChanged(modifiers)) => (
                    State { keyboard_modifiers: modifiers, ..state },
                    None,
                    false,
                    false,
                ),
                _ => (state, None, false, false),
            }
        }
    }

    /// Processes an event: updates the state as [`event_spec`] says,
    /// computes the new status, and says whether it changed (it is
    /// announced then) and whether a redraw is due (when the status changed
    /// and the event is no redraw request). The slider remembers the new
    /// status; nothing else of it changes.
    ///
    /// [`event_spec`]: Self::event_spec
    pub fn update(
        &mut self,
        state: &mut State,
        event: &Event,
        is_over: bool,
        cursor_known: bool,
        platform: Platform,
    ) -> (r: Reaction<T>)
        ensures
            ({
                let (new_state, change, released, captured) = old(self).event_spec(
                    *old(state),
                    *event,
                    is_over,
                    cursor_known,
                    platform,
                );
                let status = status_of(new_state, is_over);
                let changed = old(self).status_view() != Some(status);
                &&& *final(state) == new_state
                &&& r == Reaction {
                    change,
                    released,
                    captured,
                    status,
                    status_changed: changed,
                    redraw_requested: changed && !is_redraw(*event),
                }
                &&& final(self).status_view() == Some(status)
            }),
            final(self).same_range(old(self)),
            final(self).value_view() == old(self).value_view(),
            final(self).step_view() == old(self).step_view(),
            final(self).shift_step_view() == old(self).shift_step_view(),
            final(self).default_view() == old(self).default_view(),
            final(self).label_view() == old(self).label_view(),
    {
        let modifiers = state.keyboard_modifiers;
        let step = self.current_step(modifiers);
        let mut change: Option<ValueChange<T>> = None;
        let mut released = false;
        let mut captured = false;
        match event {
            Event::Mouse(MouseEvent::ButtonPressed(Button::Left)) | Event::Touch(
                TouchEvent::FingerPressed,
            ) => {
                if is_over {
                    if modifiers.control() || modifiers.command(platform) {
                        change = match self.default {
                            Some(d) => Some(ValueChange::Jump(d)),
                            None => None,
                        };
                        state.is_dragging = false;
                    } else {
                        change = Some(ValueChange::Locate { step });
                        state.is_dragging = true;
                    }
                    state.is_focused = true;
                    state.focus_visible = false;
                    captured = true;
                } else {
                    state.is_focused = false;
                    state.focus_visible = false;
                }
            },
            Event::Mouse(MouseEvent::ButtonReleased(Button::Left)) | Event::Touch(
                TouchEvent::FingerLifted,
            ) | Event::Touch(TouchEvent::FingerLost) => {
                if state.is_dragging {
                    released = true;
                    state.is_dragging = false;
                }
            },
            Event::Mouse(MouseEvent::CursorMoved) | Event::Touch(TouchEvent::FingerMoved) => {
                if state.is_dragging {
                    if cursor_known {
                        change = Some(ValueChange::Locate { step });
                    }
                    captured = true;
                }
            },
            Event::Mouse(MouseEvent::WheelScrolled { y_negative }) => {
                if modifiers.control() && is_over {
                    if *y_negative {
                        change = Some(ValueChange::Decrement { step });
                    } else {
                        change = Some(ValueChange::Increment { step });
                    }
                    captured = true;
                }
            },
            Event::Keyboard(KeyboardEvent::KeyPressed { key, .. }) => {
                if is_over || state.is_focused {
                    match key {
                        Key::Named(Named::ArrowUp) | Key::Named(Named::ArrowRight) => {
                            change = Some(ValueChange::Increment { step });
                            captured = true;
                        },
                        Key::Named(Named::ArrowDown) | Key::Named(Named::ArrowLeft) => {
                            change = Some(ValueChange::Decrement { step });
                            captured = true;
                        },
                        Key::Named(Named::PageUp) => {
                            change = Some(ValueChange::PageIncrement { step: self.step });
                            captured = true;
                        },
                        Key::Named(Named::PageDown) => {
                            change = Some(ValueChange::PageDecrement { step: self.step });
                            captured = true;
                        },
                        Key::Named(Named::Home) => {
                            change = Some(ValueChange::Jump(*self.range.start()));
                            captured = true;
                        },
                        Key::Named(Named::End) => {
                            change = Some(ValueChange::Jump(*self.range.end()));
                            captured = true;
                        },
                        Key::Named(Named::Escape) => {
                            if state.is_focused {
                                state.is_focused = false;
                                state.focus_visible = false;
                                captured = true;
                            }
                        },
                        _ => {},
                    }
                }
            },
            Event::Keyboard(KeyboardEvent::ModifiersChanged(new_modifiers)) => {
                state.keyboard_modifiers = *new_modifiers;
            },
            _ => {},
        }
        let status = if state.is_dragging {
            Status::Dragged
        } else if state.focus_visible {
            Status::Focused
        } else if is_over {
            Status::Hovered
        } else {
            Status::Active
        };
        let changed = match self.status {
            Some(previous) => previous != status,
            None => true,
        };
        let redraw_requested = changed && !is_redraw_event(event);
        self.status = Some(status);
        Reaction { change, released, captured, status, status_changed: changed, redraw_requested }
    }
    /// Sets the value that a ctrl-click (or command-click) resets to.
    pub fn default(self, default: T) -> (slider: Self)
        ensures
            slider.default_view() == Some(default),
            slider.same_range(&self),
            slider.value_view() == self.value_view(),
            slider.step_view() == self.step_view(),
            slider.shift_step_view() == self.shift_step_view(),
            slider.label_view() == self.label_view(),
            slider.status_view() == self.status_view(),
    {
        let mut slider = self;
        slider.default = Some(default);
        slider
    }

    /// Sets the step.
    pub fn step(self, step: T) -> (slider: Self)
        ensures
            slider.step_view() == step,
            slider.same_range(&self),
            slider.value_view() == self.value_view(),
            slider.shift_step_view() == self.shift_step_view(),
            slider.default_view() == self.default_view(),
            slider.label_view() == self.label_view(),
            slider.status_view() == self.status_view(),
    {
        let mut slider = self;
        slider.step = step;
        slider
    }

    /// Sets the step used while the shift key is held.
    pub fn shift_step(self, shift_step: T) -> (slider: Self)
        ensures
            slider.shift_step_view() == Some(shift_step),
            slider.same_range(&self),
            slider.value_view() == self.value_view(),
            slider.step_view() == self.step_view(),
            slider.default_view() == self.default_view(),
            slider.label_view() == self.label_view(),
            slider.status_view() == self.status_view(),
    {
        let mut slider = self;
        slider.shift_step = Some(shift_step);
        slider
    }

    /// Sets the accessible label, announced by screen readers as the name
    /// of the slider.
    pub fn label(self, label: String) -> (slider: Self)
        ensures
            slider.label_view() == Some(label),
            slider.same_range(&self),
            slider.value_view() == self.value_view(),
            slider.step_view() == self.step_view(),
            slider.shift_step_view() == self.shift_step_view(),
            slider.default_view() == self.default_view(),
            slider.status_view() == self.status_view(),
    {
        let mut slider = self;
        slider.label = Some(label);
        slider
    }

    /// The status the slider is drawn in: the last one, or active before
    /// any event.
    pub fn drawn_status(&self) -> (status: Status)
        ensures
            status == match self.status_view() {
                Some(s) => s,
                None => Status::Active,
            },
    {
        match self.status {
            Some(s) => s,
            None => Status::Active,
        }
    }

    /// The accessibility metadata of the slider: a [`Role::Slider`] with
    /// its label, its value with the range and step, vertical orientation,
    /// and busy while dragged so that assistive technology announces only
    /// the final value. The slider is always a focus stop.
    pub fn accessibility(&self, state: &State) -> (tree: AccessibleNode<T>)
        ensures
            tree.node == (Accessible {
                label: self.label_view(),
                value: Some(
                    Value::Numeric {
                        current: self.value_view(),
                        min: self.start(),
                        max: self.end(),
                        step: Some(self.step_view()),
                    },
                ),
                orientation: Some(Orientation::Vertical),
                busy: state.is_dragging,
                ..blank::<T>(Role::Slider)
            }),
            tree.focusable,
    {
        let label = match &self.label {
            Some(text) => Some(text.clone()),
            None => None,
        };
        let node = Accessible {
            role: Role::Slider,
            label,
            value: Some(
                Value::Numeric {
                    current: self.value,
                    min: *self.range.start(),
                    max: *self.range.end(),
                    step: Some(self.step),
                },
            ),
            orientation: Some(Orientation::Vertical),
            busy: state.is_dragging,
            ..Accessible::default()
        };
        AccessibleNode { node, focusable: true }
    }
}

/// Two statuses have the same name exactly when they are the same status,
/// so a slider announces a status change exactly when the announced name
/// changes.
pub proof fn law_status_names_distinct(a: Status, b: Status)
    ensures
        status_name_spec(a) == status_name_spec(b) <==> a == b,
{
    reveal_strlit("active");
    reveal_strlit("hovered");
    reveal_strlit("dragged");
    reveal_strlit("focused");
    if status_name_spec(a) == status_name_spec(b) {
        assert(status_name_spec(a)[0] == status_name_spec(b)[0]);
    }
}

/// The step that a slider's keys and wheel use with the given modifiers:
/// the shift step when shift is held and a shift step is set, else the
/// plain step.
pub open spec fn step_in_force<T: Copy + From<u8> + PartialOrd>(
    slider: VerticalSlider<T>,
    modifiers: Modifiers,
) -> T {
    if modifiers.shift && slider.shift_step_view() is Some {
        slider.shift_step_view()->Some_0
    } else {
        slider.step_view()
    }
}

/// Keys on a slider that is hovered or focused: Up and Right ask to step
/// the value up by the step in force, Down and Left to step it down by the
/// same step; Page Up and Page Down ask to move ten plain steps up and
/// down; Home and End ask to jump to the start and the end of the range;
/// each of these is captured and leaves the state alone. Escape on a
/// focused slider gives up focus and is captured. On a slider neither
/// hovered nor focused, no key asks for a change, is captured, or changes
/// the state.
pub proof fn law_slider_keys<T: Copy + From<u8> + PartialOrd>(
    slider: VerticalSlider<T>,
    state: State,
    event: Event,
    is_over: bool,
    cursor_known: bool,
    platform: Platform,
)
    requires
        named_press(event) is Some,
    ensures
        ({
            let (named, _) = named_press(event)->Some_0;
            let step = step_in_force(slider, state.keyboard_modifiers);
            let (after, change, released, captured) = slider.event_spec(
                state,
                event,
                is_over,
                cursor_known,
                platform,
            );
            &&& !released
            &&& (is_over || state.is_focused) ==> {
                &&& (named == Named::ArrowUp || named == Named::ArrowRight) ==> (change == Some(
                    ValueChange::Increment { step },
                ) && captured && after == state)
                &&& (named == Named::ArrowDown || named == Named::ArrowLeft) ==> (change == Some(
                    ValueChange::Decrement { step },
                ) && captured && after == state)
                &&& named == Named::PageUp ==> (change == Some(
                    ValueChange::PageIncrement { step: slider.step_view() },
                ) && captured && after == state)
                &&& named == Named::PageDown ==> (change == Some(
                    ValueChange::PageDecrement { step: slider.step_view() },
                ) && captured && after == state)
                &&& named == Named::Home ==> (change == Some(ValueChange::Jump(slider.start()))
                    && captured && after == state)
                &&& named == Named::End ==> (change == Some(ValueChange::Jump(slider.end()))
                    && captured && after == state)
                &&& (named == Named::Escape && state.is_focused) ==> (change is None && captured
                    && !after.is_focused && !after.focus_visible && after.is_dragging
                    == state.is_dragging)
            }
            &&& !(is_over || state.is_focused) ==> (change is None && !captured && after == state)
        }),
{
    assert(!is_press(event));
    assert(!is_release(event));
    assert(!is_move(event));
}

/// With control held, scrolling the wheel over a slider steps the value
/// down by the step in force when scrolled below zero and up otherwise,
/// and is captured; without control, or away from the slider, the wheel
/// asks for nothing.
pub proof fn law_slider_wheel<T: Copy + From<u8> + PartialOrd>(
    slider: VerticalSlider<T>,
    state: State,
    y_negative: bool,
    is_over: bool,
    cursor_known: bool,
    platform: Platform,
)
    ensures
        ({
            let event = Event::Mouse(MouseEvent::WheelScrolled { y_negative });
            let step = step_in_force(slider, state.keyboard_modifiers);
            let (after, change, _, captured) = slider.event_spec(
                state,
                event,
                is_over,
                cursor_known,
                platform,
            );
            &&& after == state
            &&& (state.keyboard_modifiers.control && is_over) ==> (captured && change == Some(
                if y_negative {
                    ValueChange::Decrement { step }
                } else {
                    ValueChange::Increment { step }
                },
            ))
            &&& !(state.keyboard_modifiers.control && is_over) ==> (change is None && !captured)
        }),
{
}

/// With control (or the platform's command key) held, a click on a slider
/// resets its value to the default, if one is set, and asks for nothing
/// otherwise; it focuses the slider without the focus ring, starts no
/// drag, and is captured. A click away from the slider takes focus away.
pub proof fn law_slider_click<T: Copy + From<u8> + PartialOrd>(
    slider: VerticalSlider<T>,
    state: State,
    event: Event,
    is_over: bool,
    cursor_known: bool,
    platform: Platform,
)
    requires
        is_press(event),
    ensures
        ({
            let (after, change, released, captured) = slider.event_spec(
                state,
                event,
                is_over,
                cursor_known,
                platform,
            );
            let modifiers = state.keyboard_modifiers;
            &&& !released
            &&& (is_over && (modifiers.control || modifiers.command_spec(platform))) ==> {
                &&& change == match slider.default_view() {
                    Some(d) => Some(ValueChange::Jump(d)),
                    None => None,
                }
                &&& !after.is_dragging
                &&& after.is_focused
                &&& !after.focus_visible
                &&& captured
            }
            &&& !is_over ==> (change is None && !captured && !after.is_focused
                && !after.focus_visible && after.is_dragging == state.is_dragging)
        }),
{
}

/// A slider shows itself dragged while it is dragged, whatever else holds;
/// otherwise focused while its focus ring shows; otherwise hovered while
/// the cursor is over it; otherwise active.
pub proof fn law_status_priority(state: State, is_over: bool)
    ensures
        state.is_dragging ==> status_of(state, is_over) == Status::Dragged,
        (!state.is_dragging && state.focus_visible) ==> status_of(state, is_over)
            == Status::Focused,
        (!state.is_dragging && !state.focus_visible && is_over) ==> status_of(state, is_over)
            == Status::Hovered,
        (!state.is_dragging && !state.focus_visible && !is_over) ==> status_of(state, is_over)
            == Status::Active,
{
}

/// The default style: the handle and the rail below it share one color,
/// the primary color in a shade that follows the status (the base shade
/// when active, the weak one while dragged, the strong one when hovered or
/// focused); the rail above the handle has the strong background shade;
/// the rail is 4 pixels wide with 2-pixel corners and no border, and the
/// handle is a circle of radius 7. Only a focused slider's handle has a
/// border, 2 pixels wide in the focus ring color, and the focus shadow.
pub proof fn law_default_style<C>(palette: Palette<C>, status: Status)
    ensures
        ({
            let style = default_style(palette, status);
            let color = style.handle.background;
            &&& style.rail.filled == color
            &&& status == Status::Active ==> color == palette.primary.base
            &&& status == Status::Dragged ==> color == palette.primary.weak
            &&& (status == Status::Hovered || status == Status::Focused) ==> color
                == palette.primary.strong
            &&& style.rail.unfilled == palette.background.strong
            &&& style.rail.width == 4
            &&& style.rail.border == (Border::<C> { radius: 2, width: 0, color: Paint::Transparent })
            &&& style.handle.shape == HandleShape::Circle { radius: 7 }
            &&& status == Status::Focused ==> {
                &&& style.handle.border_width == 2
                &&& style.handle.border_color == Paint::FocusRing {
                    color,
                    accent: palette.primary.strong,
                    page: palette.background.base,
                }
                &&& style.handle.shadow == Shadow::Focus {
                    accent: palette.primary.strong,
                    page: palette.background.base,
                }
            }
            &&& status != Status::Focused ==> {
                &&& style.handle.border_width == 0
                &&& style.handle.border_color == Paint::<C>::Transparent
                &&& style.handle.shadow == Shadow::<C>::Plain
            }
        }),
{
}

/// A click on a slider without control (or command) held starts a drag,
/// focuses the slider and moves the value to the cursor; the release that
/// follows ends the drag, asks for the release message and keeps focus.
pub proof fn law_press_then_release<T: Copy + From<u8> + PartialOrd>(
    slider: VerticalSlider<T>,
    state: State,
    press: Event,
    release: Event,
    is_over_after: bool,
    cursor_known: bool,
    platform: Platform,
)
    requires
        is_press(press),
        is_release(release),
        !state.keyboard_modifiers.control,
        !state.keyboard_modifiers.command_spec(platform),
    ensures
        ({
            let (pressed, change, _, captured) = slider.event_spec(
                state,
                press,
                true,
                cursor_known,
                platform,
            );
            let (after, _, released, _) = slider.event_spec(
                pressed,
                release,
                is_over_after,
                cursor_known,
                platform,
            );
            &&& pressed.is_dragging
            &&& pressed.is_focused
            &&& captured
            &&& change == Some(ValueChange::Locate { step: slider.step_for(state.keyboard_modifiers) })
            &&& status_of(pressed, true) == Status::Dragged
            &&& released
            &&& !after.is_dragging
            &&& after.is_focused
        }),
{
    assert(!is_press(release));
}

/// A slider over a non-empty range of whole numbers starts with its value
/// inside the range: a value below the range is raised to its start, one
/// above it lowered to its end, and one inside it kept.
pub proof fn law_clamp_into_range(value: i64, start: i64, end: i64)
    requires
        start <= end,
    ensures
        start <= clamp(value, start, end) <= end,
        start <= value <= end ==> clamp(value, start, end) == value,
        value < start ==> clamp(value, start, end) == start,
        end < value ==> clamp(value, start, end) == end,
{
}

} // verus!
