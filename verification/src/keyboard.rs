//! Keyboard navigation: which keys move focus, scroll, or trigger a
//! mnemonic, and which operations the caller must then run on the tree.
//!
//! Each handler looks at an event and at whether a widget captured it, and
//! answers with the commands to run in order (`Some`) when it consumes the
//! event, or `None` when the event falls through. Handlers that must first
//! ask the tree something are split in two: the first half says what to
//! ask, the second half takes the tree's answer.

use crate::event::{character_press, named_press, Event, Key, KeyboardEvent, Named, Status};
use crate::operation::{commands_view, is_first_index, resolve_peer, resolve_peer_spec, Command, Direction,
    ScrollAction};
use crate::widget::Id;
use vstd::prelude::*;

verus! {

/// The commands that move focus one step and scroll the newly focused
/// widget into view: backwards when `shift` is held, and only among the
/// descendants of `scope` when one is given.
pub open spec fn cycle_commands(shift: bool, scope: Option<Id>) -> Seq<Command> {
    let step = match scope {
        None => if shift {
            Command::FocusPrevious
        } else {
            Command::FocusNext
        },
        Some(id) => if shift {
            Command::FocusPreviousWithin(id)
        } else {
            Command::FocusNextWithin(id)
        },
    };
    seq![step, Command::ScrollFocusedIntoView]
}

/// What Ctrl+Tab handling does with an event: it moves focus whenever the
/// tab key is pressed with control held, whoever captured the event.
pub open spec fn ctrl_tab_spec(event: Event, scope: Option<Id>) -> Option<Seq<Command>> {
    match named_press(event) {
        Some((named, modifiers)) => if named == Named::Tab && modifiers.control {
            Some(cycle_commands(modifiers.shift, scope))
        } else {
            None
        },
        None => None,
    }
}

/// What Tab handling does with an event: it moves focus when the tab key
/// is pressed (with any modifiers) and no widget captured the event.
pub open spec fn tab_spec(event: Event, status: Status, scope: Option<Id>) -> Option<
    Seq<Command>,
> {
    if status != Status::Ignored {
        None
    } else {
        match named_press(event) {
            Some((named, modifiers)) => if named == Named::Tab {
                Some(cycle_commands(modifiers.shift, scope))
            } else {
                None
            },
            None => None,
        }
    }
}

/// Moves focus and scrolls the newly focused widget into view.
fn focus_and_scroll(shift: bool) -> (commands: Vec<Command>)
    ensures
        commands@ == cycle_commands(shift, None),
{
    let mut commands: Vec<Command> = Vec::new();
    if shift {
        commands.push(Command::FocusPrevious);
    } else {
        commands.push(Command::FocusNext);
    }
    commands.push(Command::ScrollFocusedIntoView);
    commands
}

/// Moves focus within a scope and scrolls the newly focused widget into
/// view.
fn focus_and_scroll_within(shift: bool, scope: Id) -> (commands: Vec<Command>)
    ensures
        commands@ == cycle_commands(shift, Some(scope)),
{
    let mut commands: Vec<Command> = Vec::new();
    if shift {
        commands.push(Command::FocusPreviousWithin(scope));
    } else {
        commands.push(Command::FocusNextWithin(scope));
    }
    commands.push(Command::ScrollFocusedIntoView);
    commands
}

/// Handles Ctrl+Tab / Ctrl+Shift+Tab for unconditional focus navigation.
///
/// This always moves focus regardless of whether any widget captured the
/// event. It is the emergency exit from any focus trap.
///
/// Returns the commands to run when the event is consumed.
pub fn handle_ctrl_tab(event: &Event) -> (r: Option<Vec<Command>>)
    ensures
        commands_view(r) == ctrl_tab_spec(*event, None),
{
    match event {
        Event::Keyboard(KeyboardEvent::KeyPressed { key: Key::Named(Named::Tab), modifiers }) => {
            if modifiers.control() {
                Some(focus_and_scroll(modifiers.shift()))
            } else {
                None
            }
        },
        _ => None,
    }
}

/// Handles uncaptured Tab / Shift+Tab for focus navigation.
///
/// Moves focus to the next (or previous) focusable widget and scrolls it
/// into view. Only runs when the event was not captured by any widget.
///
/// Returns the commands to run when the event is consumed.
pub fn handle_tab(event: &Event, status: Status) -> (r: Option<Vec<Command>>)
    ensures
        commands_view(r) == tab_spec(*event, status, None),
{
    if status != Status::Ignored {
        return None;
    }
    match event {
        Event::Keyboard(KeyboardEvent::KeyPressed { key: Key::Named(Named::Tab), modifiers }) => {
            Some(focus_and_scroll(modifiers.shift()))
        },
        _ => None,
    }
}

/// Handles Ctrl+Tab / Ctrl+Shift+Tab for focus navigation within a scope.
///
/// Behaves like [`handle_ctrl_tab`] but restricts focus cycling to widgets
/// that are descendants of the container with the given `scope`.
pub fn handle_ctrl_tab_within(event: &Event, scope: Id) -> (r: Option<Vec<Command>>)
    ensures
        commands_view(r) == ctrl_tab_spec(*event, Some(scope)),
{
    match event {
        Event::Keyboard(KeyboardEvent::KeyPressed { key: Key::Named(Named::Tab), modifiers }) => {
            if modifiers.control() {
                Some(focus_and_scroll_within(modifiers.shift(), scope))
            } else {
                None
            }
        },
        _ => None,
    }
}

/// Handles uncaptured Tab / Shift+Tab for focus navigation within a scope.
///
/// Behaves like [`handle_tab`] but restricts focus cycling to widgets that
/// are descendants of the container with the given `scope`.
pub fn handle_tab_within(event: &Event, status: Status, scope: Id) -> (r: Option<Vec<Command>>)
    ensures
        commands_view(r) == tab_spec(*event, status, Some(scope)),
{
    if status != Status::Ignored {
        return None;
    }
    match event {
        Event::Keyboard(KeyboardEvent::KeyPressed { key: Key::Named(Named::Tab), modifiers }) => {
            Some(focus_and_scroll_within(modifiers.shift(), scope))
        },
        _ => None,
    }
}

/// The character whose mnemonic an event asks for: the first character of
/// an uncaptured key press made with alt held and neither control nor the
/// logo key.
pub open spec fn mnemonic_spec(event: Event, status: Status) -> Option<char> {
    if status != Status::Ignored {
        None
    } else {
        match character_press(event) {
            Some((text, modifiers)) => if !modifiers.alt || modifiers.control || modifiers.logo {
                None
            } else if text.len() == 0 {
                None
            } else {
                Some(text[0])
            },
            None => None,
        }
    }
}

/// Handles Alt+letter mnemonics for widget activation, first half.
///
/// When the user presses Alt plus a letter key (without Ctrl or Super),
/// the widget tree is to be searched for a widget whose mnemonic matches
/// the pressed character: this returns that character, or `None` when the
/// event is no mnemonic. Pass what the search found to
/// [`finish_mnemonic`].
pub fn handle_mnemonic(event: &Event, status: Status) -> (r: Option<char>)
    ensures
        r == mnemonic_spec(*event, status),
{
    if status != Status::Ignored {
        return None;
    }
    match event {
        Event::Keyboard(KeyboardEvent::KeyPressed { key: Key::Character(text), modifiers }) => {
            if !modifiers.alt() || modifiers.control() || modifiers.logo() {
                return None;
            }
            let text = text.as_str();
            if text.unicode_len() == 0 {
                None
            } else {
                Some(text.get_char(0))
            }
        },
        _ => None,
    }
}

/// A widget found by its mnemonic: its identifier, if it has one, and its
/// bounds, which the library carries without reading.
#[derive(Debug, Clone, Copy, PartialEq)]
pub struct MnemonicTarget<B> {
    /// The identifier of the widget, if it has one.
    pub id: Option<Id>,
    /// The bounds of the widget.
    pub bounds: B,
}

/// The commands that follow a mnemonic search: focus the widget found when
/// it has an identifier.
pub open spec fn mnemonic_commands<B>(found: Option<MnemonicTarget<B>>) -> Seq<Command> {
    match found {
        Some(target) => match target.id {
            Some(id) => seq![Command::Focus(id)],
            None => seq![],
        },
        None => seq![],
    }
}

/// Handles Alt+letter mnemonics, second half.
///
/// Takes what the search for the mnemonic found. When a widget matched,
/// it is focused if it has an identifier, and its bounds are returned so
/// that the caller can generate a synthetic click; when none matched,
/// nothing happens and `None` is returned.
pub fn finish_mnemonic<B>(found: Option<MnemonicTarget<B>>) -> (r: (Vec<Command>, Option<B>))
    ensures
        r.0@ == mnemonic_commands(found),
        r.1 == (match found {
            Some(target) => Some(target.bounds),
            None => None,
        }),
{
    let mut commands: Vec<Command> = Vec::new();
    match found {
        Some(target) => {
            match target.id {
                Some(id) => commands.push(Command::Focus(id)),
                None => {},
            }
            (commands, Some(target.bounds))
        },
        None => (commands, None),
    }
}

/// The direction in which a plain arrow key moves focus among radio peers:
/// down and right go to the next peer, up and left to the previous one.
/// Arrows with any modifier, captured events and other keys fall through.
pub open spec fn radio_arrow_spec(event: Event, status: Status) -> Option<Direction> {
    if status != Status::Ignored {
        None
    } else {
        match named_press(event) {
            Some((named, modifiers)) => if modifiers.shift || modifiers.control || modifiers.alt
                || modifiers.logo {
                None
            } else if named == Named::ArrowDown || named == Named::ArrowRight {
                Some(Direction::Next)
            } else if named == Named::ArrowUp || named == Named::ArrowLeft {
                Some(Direction::Previous)
            } else {
                None
            },
            None => None,
        }
    }
}

/// Handles plain arrow keys for radio-group peer cycling, first half.
///
/// Implements the WAI-ARIA "radio" pattern for standalone radio buttons
/// that declare their peers: ArrowDown / ArrowRight move focus to the next
/// peer in the list, ArrowUp / ArrowLeft to the previous one. Only plain
/// arrows are consumed; arrow keys combined with any modifier (Shift, Ctrl,
/// Alt, or Meta / logo) fall through so that scroll-key handling and other
/// modifier-driven shortcuts still work unchanged.
///
/// Returns the direction to move in; the caller then asks the tree for the
/// focused widget and its declared peers and passes them to
/// [`radio_arrow_target`].
pub fn handle_radio_arrow(event: &Event, status: Status) -> (r: Option<Direction>)
    ensures
        r == radio_arrow_spec(*event, status),
{
    if status != Status::Ignored {
        return None;
    }
    match event {
        Event::Keyboard(KeyboardEvent::KeyPressed { key: Key::Named(named), modifiers }) => {
            if modifiers.shift() || modifiers.control() || modifiers.alt() || modifiers.logo() {
                return None;
            }
            match named {
                Named::ArrowDown | Named::ArrowRight => Some(Direction::Next),
                Named::ArrowUp | Named::ArrowLeft => Some(Direction::Previous),
                _ => None,
            }
        },
        _ => None,
    }
}

/// The peer that a radio arrow moves focus to, given the focused widget's
/// declared peers and the focused widget: none when it declares no peers
/// (or an empty list), when no widget is focused, or when the focused
/// widget is not itself one of its peers; otherwise the neighbour of the
/// focused widget in the list, wrapping on the ends.
pub open spec fn radio_target_spec(
    peers: Option<Vec<Id>>,
    focused: Option<Id>,
    direction: Direction,
) -> Option<Id> {
    match (peers, focused) {
        (Some(list), Some(id)) => resolve_peer_spec(list@, id, direction),
        _ => None,
    }
}

/// Handles plain arrow keys for radio-group peer cycling, second step.
///
/// Takes the focused widget's declared peers and the focused widget, and
/// returns the peer that focus is to move to. Returns `None`, and the
/// event is not consumed, when there is no peer list, the list is empty,
/// or the focused widget is not one of the peers. The caller then checks
/// that the peer is mounted in the tree and passes the answer to
/// [`finish_radio_arrow`].
pub fn radio_arrow_target(peers: Option<Vec<Id>>, focused: Option<Id>, direction: Direction) -> (r:
    Option<Id>)
    ensures
        r == radio_target_spec(peers, focused, direction),
{
    match (peers, focused) {
        (Some(list), Some(id)) => resolve_peer(&list, id, direction),
        _ => None,
    }
}

/// What the last step of radio-arrow handling does: when a target peer was
/// found and is mounted in the tree, focus moves to it and it is scrolled
/// into view; otherwise nothing happens and the event is not consumed.
pub open spec fn radio_finish_spec(target: Option<Id>, target_mounted: bool) -> Option<Seq<Command>> {
    match target {
        Some(id) => if target_mounted {
            Some(seq![Command::Focus(id), Command::ScrollFocusedIntoView])
        } else {
            None
        },
        None => None,
    }
}

/// Handles plain arrow keys for radio-group peer cycling, last step.
///
/// Takes the peer found by [`radio_arrow_target`] and whether it is
/// mounted in the tree. Returns the commands that focus it and scroll it
/// into view, in which case focus moved and the event counts as consumed;
/// returns `None` and does nothing when there is no target or it is not
/// mounted.
pub fn finish_radio_arrow(target: Option<Id>, target_mounted: bool) -> (r: Option<Vec<Command>>)
    ensures
        commands_view(r) == radio_finish_spec(target, target_mounted),
{
    match target {
        Some(id) => {
            if target_mounted {
                let mut commands: Vec<Command> = Vec::new();
                commands.push(Command::Focus(id));
                commands.push(Command::ScrollFocusedIntoView);
                Some(commands)
            } else {
                None
            }
        },
        None => None,
    }
}

/// The scroll that a key asks for: Page Up/Down, the arrows and Home/End
/// scroll vertically, and with shift held the vertical keys scroll
/// horizontally instead. Left and right arrows scroll horizontally either
/// way.
pub open spec fn scroll_action_spec(named: Named, shift: bool) -> Option<ScrollAction> {
    match named {
        Named::PageDown => Some(if shift { ScrollAction::PageRight } else { ScrollAction::PageDown }),
        Named::PageUp => Some(if shift { ScrollAction::PageLeft } else { ScrollAction::PageUp }),
        Named::ArrowDown => Some(if shift { ScrollAction::LineRight } else { ScrollAction::LineDown }),
        Named::ArrowUp => Some(if shift { ScrollAction::LineLeft } else { ScrollAction::LineUp }),
        Named::ArrowRight => Some(ScrollAction::LineRight),
        Named::ArrowLeft => Some(ScrollAction::LineLeft),
        Named::Home => Some(if shift { ScrollAction::ShiftHome } else { ScrollAction::Home }),
        Named::End => Some(if shift { ScrollAction::ShiftEnd } else { ScrollAction::End }),
        _ => None,
    }
}

/// Maps a scroll key to its scroll action.
pub fn scroll_action(named: Named, shift: bool) -> (r: Option<ScrollAction>)
    ensures
        r == scroll_action_spec(named, shift),
{
    match named {
        Named::PageDown => Some(if shift { ScrollAction::PageRight } else { ScrollAction::PageDown }),
        Named::PageUp => Some(if shift { ScrollAction::PageLeft } else { ScrollAction::PageUp }),
        Named::ArrowDown => Some(if shift { ScrollAction::LineRight } else { ScrollAction::LineDown }),
        Named::ArrowUp => Some(if shift { ScrollAction::LineLeft } else { ScrollAction::LineUp }),
        Named::ArrowRight => Some(ScrollAction::LineRight),
        Named::ArrowLeft => Some(ScrollAction::LineLeft),
        Named::Home => Some(if shift { ScrollAction::ShiftHome } else { ScrollAction::Home }),
        Named::End => Some(if shift { ScrollAction::ShiftEnd } else { ScrollAction::End }),
        _ => None,
    }
}

/// What scroll-key handling does with an event: an uncaptured press of a
/// scroll key scrolls the focused widget's nearest scrollable ancestor.
pub open spec fn scroll_keys_spec(event: Event, status: Status) -> Option<Seq<Command>> {
    if status != Status::Ignored {
        None
    } else {
        match named_press(event) {
            Some((named, modifiers)) => match scroll_action_spec(named, modifiers.shift) {
                Some(action) => Some(seq![Command::ScrollFocusedAncestor(action)]),
                None => None,
            },
            None => None,
        }
    }
}

/// Handles uncaptured scroll keys for focused ancestor scrolling.
///
/// Maps keyboard scroll keys (Page Up/Down, arrows, Home/End, and their
/// Shift variants for horizontal scrolling) to scroll actions on the
/// focused widget's nearest scrollable ancestor.
///
/// Returns the commands to run when the event is consumed.
pub fn handle_scroll_keys(event: &Event, status: Status) -> (r: Option<Vec<Command>>)
    ensures
        commands_view(r) == scroll_keys_spec(*event, status),
{
    if status != Status::Ignored {
        return None;
    }
    match event {
        Event::Keyboard(KeyboardEvent::KeyPressed { key: Key::Named(named), modifiers }) => {
            match scroll_action(*named, modifiers.shift()) {
                Some(action) => {
                    let mut commands: Vec<Command> = Vec::new();
                    commands.push(Command::ScrollFocusedAncestor(action));
                    Some(commands)
                },
                None => None,
            }
        },
        _ => None,
    }
}

/// An uncaptured arrow key pressed with any modifier is left alone by
/// radio-peer cycling and reaches scroll-key handling instead, which
/// scrolls the focused widget's scrollable ancestor.
pub proof fn law_modified_arrows_fall_through(event: Event)
    requires
        named_press(event) matches Some((named, modifiers)) && (named == Named::ArrowUp || named
            == Named::ArrowDown || named == Named::ArrowLeft || named == Named::ArrowRight) && (
        modifiers.shift || modifiers.control || modifiers.alt || modifiers.logo),
    ensures
        radio_arrow_spec(event, Status::Ignored) is None,
        scroll_keys_spec(event, Status::Ignored) is Some,
{
}

/// Uncaptured scroll keys scroll the focused widget's scrollable ancestor
/// in the key's own direction: Right and Left scroll right and left by a
/// line whether or not shift is held; without shift, Down and Up scroll a
/// line down and up, Page Down and Page Up a page down and up, and Home
/// and End to the top and the bottom; with shift, the keys that go down
/// go right instead (a line, a page, or to the right edge for End) and
/// those that go up go left. A captured key scrolls nothing.
pub proof fn law_scroll_directions(event: Event, status: Status)
    requires
        named_press(event) is Some,
    ensures
        ({
            let (named, modifiers) = named_press(event)->Some_0;
            let r = scroll_keys_spec(event, status);
            let scroll = |action: ScrollAction| Some(seq![Command::ScrollFocusedAncestor(action)]);
            &&& status == Status::Captured ==> r is None
            &&& status == Status::Ignored ==> {
                &&& named == Named::ArrowRight ==> r == scroll(ScrollAction::LineRight)
                &&& named == Named::ArrowLeft ==> r == scroll(ScrollAction::LineLeft)
                &&& !modifiers.shift ==> {
                    &&& named == Named::ArrowDown ==> r == scroll(ScrollAction::LineDown)
                    &&& named == Named::ArrowUp ==> r == scroll(ScrollAction::LineUp)
                    &&& named == Named::PageDown ==> r == scroll(ScrollAction::PageDown)
                    &&& named == Named::PageUp ==> r == scroll(ScrollAction::PageUp)
                    &&& named == Named::Home ==> r == scroll(ScrollAction::Home)
                    &&& named == Named::End ==> r == scroll(ScrollAction::End)
                }
                &&& modifiers.shift ==> {
                    &&& named == Named::ArrowDown ==> r == scroll(ScrollAction::LineRight)
                    &&& named == Named::ArrowUp ==> r == scroll(ScrollAction::LineLeft)
                    &&& named == Named::PageDown ==> r == scroll(ScrollAction::PageRight)
                    &&& named == Named::PageUp ==> r == scroll(ScrollAction::PageLeft)
                    &&& named == Named::Home ==> r == scroll(ScrollAction::ShiftHome)
                    &&& named == Named::End ==> r == scroll(ScrollAction::ShiftEnd)
                }
                &&& (named == Named::Tab || named == Named::Space || named == Named::Escape
                    || named == Named::Enter || named == Named::Other) ==> r is None
            }
        }),
{
}

/// Tab moves focus forwards and Shift+Tab backwards, within the scope when
/// one is given, and the newly focused widget is then scrolled into view.
/// Uncaptured Tab does so with any modifiers; Ctrl+Tab does so whoever
/// captured the event, and Tab without control is no Ctrl+Tab.
pub proof fn law_tab_directions(event: Event, status: Status, scope: Option<Id>)
    requires
        named_press(event) matches Some((named, _)) && named == Named::Tab,
    ensures
        ({
            let (_, modifiers) = named_press(event)->Some_0;
            let step = if modifiers.shift {
                match scope {
                    Some(id) => Command::FocusPreviousWithin(id),
                    None => Command::FocusPrevious,
                }
            } else {
                match scope {
                    Some(id) => Command::FocusNextWithin(id),
                    None => Command::FocusNext,
                }
            };
            let moves = Some(seq![step, Command::ScrollFocusedIntoView]);
            &&& status == Status::Ignored ==> tab_spec(event, status, scope) == moves
            &&& status == Status::Captured ==> tab_spec(event, status, scope) is None
            &&& modifiers.control ==> ctrl_tab_spec(event, scope) == moves
            &&& !modifiers.control ==> ctrl_tab_spec(event, scope) is None
        }),
{
}

/// An uncaptured plain Down or Right arrow moves focus to the next radio
/// peer and Up or Left to the previous one. Among distinct peers, the next
/// peer of the one at position `i` is the one at `i + 1`, or the first
/// after the last; the previous one is at `i - 1`, or the last before the
/// first. Focus moves, and the arrow is consumed, only when that peer is
/// mounted.
pub proof fn law_radio_arrow_directions(
    event: Event,
    peers: Seq<Id>,
    i: int,
    direction: Direction,
    mounted: bool,
)
    requires
        named_press(event) matches Some((_, modifiers)) && !modifiers.shift && !modifiers.control
            && !modifiers.alt && !modifiers.logo,
        peers.no_duplicates(),
        0 <= i < peers.len(),
    ensures
        ({
            let (named, _) = named_press(event)->Some_0;
            let n = peers.len() as int;
            let next = if i + 1 < n {
                peers[i + 1]
            } else {
                peers[0]
            };
            let previous = if i > 0 {
                peers[i - 1]
            } else {
                peers[n - 1]
            };
            let target = resolve_peer_spec(peers, peers[i], direction);
            &&& (named == Named::ArrowDown || named == Named::ArrowRight) ==> radio_arrow_spec(
                event,
                Status::Ignored,
            ) == Some(Direction::Next)
            &&& (named == Named::ArrowUp || named == Named::ArrowLeft) ==> radio_arrow_spec(
                event,
                Status::Ignored,
            ) == Some(Direction::Previous)
            &&& radio_arrow_spec(event, Status::Captured) is None
            &&& direction == Direction::Next ==> target == Some(next)
            &&& direction == Direction::Previous ==> target == Some(previous)
            &&& radio_finish_spec(target, mounted) == if mounted {
                Some(seq![Command::Focus(target->Some_0), Command::ScrollFocusedIntoView])
            } else {
                None
            }
        }),
{
    assert(peers.contains(peers[i]));
    let k = choose|k: int| is_first_index(peers, peers[i], k);
    assert(is_first_index(peers, peers[i], i));
    assert(k == i) by {
        if k != i {
            assert(peers[k] == peers[i]);
        }
    }
}

/// An uncaptured key press with alt held, and neither control nor the logo
/// key, asks for the mnemonic of the first character it types; any other
/// press asks for none.
pub proof fn law_mnemonic_keys(event: Event, status: Status)
    requires
        character_press(event) is Some,
    ensures
        ({
            let (text, modifiers) = character_press(event)->Some_0;
            let plain_alt = modifiers.alt && !modifiers.control && !modifiers.logo;
            &&& (status == Status::Ignored && plain_alt && text.len() > 0) ==> mnemonic_spec(
                event,
                status,
            ) == Some(text[0])
            &&& !(status == Status::Ignored && plain_alt && text.len() > 0) ==> mnemonic_spec(
                event,
                status,
            ) is None
        }),
{
}

/// When the search for a mnemonic finds a widget with an identifier, that
/// widget is focused; a widget found without one is only reported; when
/// nothing is found, nothing happens.
pub proof fn law_mnemonic_target<B>(found: Option<MnemonicTarget<B>>)
    ensures
        ({
            match found {
                Some(target) => match target.id {
                    Some(id) => mnemonic_commands(found) == seq![Command::Focus(id)],
                    None => mnemonic_commands(found).len() == 0,
                },
                None => mnemonic_commands(found).len() == 0,
            }
        }),
{
}

} // verus!
