//! The input events that widgets react to, with the pointer geometry left
//! to the caller: positions and deltas are measured outside and reach the
//! handlers as the few facts they decide on.

use vstd::prelude::*;

verus! {

/// The platform the application runs on, where a decision depends on it.
#[derive(Debug, Clone, Copy, PartialEq, Eq, Structural)]
pub enum Platform {
    /// macOS, where the command modifier is the logo key.
    MacOs,
    /// Windows, where grab cursors are shown as pointers.
    Windows,
    /// Any other platform.
    Other,
}

/// The state of the keyboard modifiers.
#[derive(Debug, Clone, Copy, PartialEq, Eq, Structural)]
pub struct Modifiers {
    /// The "shift" key.
    pub shift: bool,
    /// The "control" key.
    pub control: bool,
    /// The "alt" key.
    pub alt: bool,
    /// The "logo" key (the Windows key, or command on macOS).
    pub logo: bool,
}

impl Modifiers {
    /// No modifier held.
    pub fn empty() -> (m: Modifiers)
        ensures
            !m.shift && !m.control && !m.alt && !m.logo,
    {
        Modifiers { shift: false, control: false, alt: false, logo: false }
    }

    /// Whether the "shift" key is held.
    pub fn shift(&self) -> (b: bool)
        ensures
            b == self.shift,
    {
        self.shift
    }

    /// Whether the "control" key is held.
    pub fn control(&self) -> (b: bool)
        ensures
            b == self.control,
    {
        self.control
    }

    /// Whether the "alt" key is held.
    pub fn alt(&self) -> (b: bool)
        ensures
            b == self.alt,
    {
        self.alt
    }

    /// Whether the "logo" key is held.
    pub fn logo(&self) -> (b: bool)
        ensures
            b == self.logo,
    {
        self.logo
    }

    /// Whether the platform's command modifier is held: the logo key on
    /// macOS, the control key elsewhere.
    pub open spec fn command_spec(&self, platform: Platform) -> bool {
        if platform == Platform::MacOs {
            self.logo
        } else {
            self.control
        }
    }

    /// Whether the platform's command modifier is held.
    pub fn command(&self, platform: Platform) -> (b: bool)
        ensures
            b == self.command_spec(platform),
    {
        match platform {
            Platform::MacOs => self.logo,
            _ => self.control,
        }
    }
}

impl Default for Modifiers {
    /// No modifier held.
    fn default() -> (m: Modifiers)
        ensures
            m == (Modifiers { shift: false, control: false, alt: false, logo: false }),
    {
        Modifiers::empty()
    }
}

/// The keys that carry a name rather than a character, as far as the
/// widgets here tell them apart.
#[derive(Debug, Clone, Copy, PartialEq, Eq, Structural)]
pub enum Named {
    /// The tab key.
    Tab,
    /// The space bar.
    Space,
    /// The escape key.
    Escape,
    /// The enter key.
    Enter,
    /// The up arrow.
    ArrowUp,
    /// The down arrow.
    ArrowDown,
    /// The left arrow.
    ArrowLeft,
    /// The right arrow.
    ArrowRight,
    /// The page up key.
    PageUp,
    /// The page down key.
    PageDown,
    /// The home key.
    Home,
    /// The end key.
    End,
    /// Any other named key.
    Other,
}

/// A key on the keyboard.
#[derive(Debug, Clone, PartialEq, Eq)]
pub enum Key {
    /// A key with a name.
    Named(Named),
    /// A key that produces text.
    Character(String),
    /// A key that could not be identified.
    Unidentified,
}

/// A keyboard event.
#[derive(Debug, Clone, PartialEq, Eq)]
pub enum KeyboardEvent {
    /// A key was pressed.
    KeyPressed {
        /// The key.
        key: Key,
        /// The modifiers held while it was pressed.
        modifiers: Modifiers,
    },
    /// A key was released.
    KeyReleased {
        /// The key.
        key: Key,
        /// The modifiers held while it was released.
        modifiers: Modifiers,
    },
    /// The keyboard modifiers changed.
    ModifiersChanged(Modifiers),
}

/// A mouse button.
#[derive(Debug, Clone, Copy, PartialEq, Eq, Structural)]
pub enum Button {
    /// The left button.
    Left,
    /// The right button.
    Right,
    /// The middle button.
    Middle,
    /// Any other button.
    Other,
}

/// A mouse event.
#[derive(Debug, Clone, Copy, PartialEq, Eq, Structural)]
pub enum MouseEvent {
    /// The cursor entered the window.
    CursorEntered,
    /// The cursor left the window.
    CursorLeft,
    /// The cursor moved.
    CursorMoved,
    /// A button was pressed.
    ButtonPressed(Button),
    /// A button was released.
    ButtonReleased(Button),
    /// The wheel was scrolled.
    WheelScrolled {
        /// Whether the vertical delta (in lines or pixels) is below zero.
        y_negative: bool,
    },
}

/// A touch event.
#[derive(Debug, Clone, Copy, PartialEq, Eq, Structural)]
pub enum TouchEvent {
    /// A finger touched the screen.
    FingerPressed,
    /// A finger moved.
    FingerMoved,
    /// A finger was lifted.
    FingerLifted,
    /// A finger was lost track of.
    FingerLost,
}

/// A window event.
#[derive(Debug, Clone, Copy, PartialEq, Eq, Structural)]
pub enum WindowEvent {
    /// The window is about to be redrawn.
    RedrawRequested,
    /// Any other window event.
    Other,
}

/// A user interface event.
#[derive(Debug, Clone, PartialEq, Eq)]
pub enum Event {
    /// A keyboard event.
    Keyboard(KeyboardEvent),
    /// A mouse event.
    Mouse(MouseEvent),
    /// A touch event.
    Touch(TouchEvent),
    /// A window event.
    Window(WindowEvent),
}

/// Whether an event was captured by a widget.
#[derive(Debug, Clone, Copy, PartialEq, Eq, Structural)]
pub enum Status {
    /// No widget handled the event.
    Ignored,
    /// A widget handled the event.
    Captured,
}

/// The named key of a key press, with its modifiers.
pub open spec fn named_press(event: Event) -> Option<(Named, Modifiers)> {
    match event {
        Event::Keyboard(KeyboardEvent::KeyPressed { key: Key::Named(named), modifiers }) => Some(
            (named, modifiers),
        ),
        _ => None,
    }
}

/// The text of a character key press, with its modifiers.
pub open spec fn character_press(event: Event) -> Option<(Seq<char>, Modifiers)> {
    match event {
        Event::Keyboard(KeyboardEvent::KeyPressed { key: Key::Character(text), modifiers }) => Some(
            (text@, modifiers),
        ),
        _ => None,
    }
}

/// Holds of a left click or of a finger touching down.
pub open spec fn is_press(event: Event) -> bool {
    event == Event::Mouse(MouseEvent::ButtonPressed(Button::Left)) || event == Event::Touch(
        TouchEvent::FingerPressed,
    )
}

/// Holds of a redraw request.
pub open spec fn is_redraw(event: Event) -> bool {
    event == Event::Window(WindowEvent::RedrawRequested)
}

/// Tells the named key of a key press, with its modifiers.
pub fn named_key_press(event: &Event) -> (r: Option<(Named, Modifiers)>)
    ensures
        r == named_press(*event),
{
    match event {
        Event::Keyboard(KeyboardEvent::KeyPressed { key: Key::Named(named), modifiers }) => Some(
            (*named, *modifiers),
        ),
        _ => None,
    }
}

/// Tells whether the event is a left click or a finger touching down.
pub fn is_press_event(event: &Event) -> (b: bool)
    ensures
        b == is_press(*event),
{
    match event {
        Event::Mouse(MouseEvent::ButtonPressed(Button::Left)) => true,
        Event::Touch(TouchEvent::FingerPressed) => true,
        _ => false,
    }
}

/// Tells whether the event is a redraw request.
pub fn is_redraw_event(event: &Event) -> (b: bool)
    ensures
        b == is_redraw(*event),
{
    match event {
        Event::Window(WindowEvent::RedrawRequested) => true,
        _ => false,
    }
}

/// The mouse cursor that a widget asks for.
#[derive(Debug, Clone, Copy, PartialEq, Eq, Structural)]
pub enum Interaction {
    /// The platform's default cursor.
    Idle,
    /// A pointing hand.
    Pointer,
    /// An open hand, over something that can be dragged.
    Grab,
    /// A closed hand, while dragging.
    Grabbing,
}

impl Default for Interaction {
    /// The platform's default cursor.
    fn default() -> (i: Interaction)
        ensures
            i == Interaction::Idle,
    {
        Interaction::Idle
    }
}

} // verus!
