use iced_interaction::event::{Event, Key, KeyboardEvent, Modifiers, Named, Status};
use iced_interaction::keyboard::{
    finish_mnemonic, finish_radio_arrow, radio_arrow_target, handle_ctrl_tab, handle_ctrl_tab_within,
    handle_mnemonic, handle_radio_arrow, handle_scroll_keys, handle_tab, handle_tab_within,
    scroll_action, MnemonicTarget,
};
use iced_interaction::operation::{resolve_peer, Command, Direction, ScrollAction};
use iced_interaction::widget::Id;

fn mods(shift: bool, control: bool, alt: bool, logo: bool) -> Modifiers {
    Modifiers { shift, control, alt, logo }
}

fn named(named: Named, modifiers: Modifiers) -> Event {
    Event::Keyboard(KeyboardEvent::KeyPressed { key: Key::Named(named), modifiers })
}

fn character(text: &str, modifiers: Modifiers) -> Event {
    Event::Keyboard(KeyboardEvent::KeyPressed { key: Key::Character(text.to_string()), modifiers })
}

#[test]
fn tab_moves_focus_when_uncaptured() {
    let tab = named(Named::Tab, Modifiers::empty());
    assert_eq!(
        handle_tab(&tab, Status::Ignored),
        Some(vec![Command::FocusNext, Command::ScrollFocusedIntoView])
    );
    assert_eq!(handle_tab(&tab, Status::Captured), None);
    let shift_tab = named(Named::Tab, mods(true, false, false, false));
    assert_eq!(
        handle_tab(&shift_tab, Status::Ignored),
        Some(vec![Command::FocusPrevious, Command::ScrollFocusedIntoView])
    );
    assert_eq!(handle_tab(&named(Named::Enter, Modifiers::empty()), Status::Ignored), None);
}

#[test]
fn ctrl_tab_moves_focus_even_when_captured() {
    let ctrl_tab = named(Named::Tab, mods(false, true, false, false));
    assert_eq!(
        handle_ctrl_tab(&ctrl_tab),
        Some(vec![Command::FocusNext, Command::ScrollFocusedIntoView])
    );
    let ctrl_shift_tab = named(Named::Tab, mods(true, true, false, false));
    assert_eq!(
        handle_ctrl_tab(&ctrl_shift_tab),
        Some(vec![Command::FocusPrevious, Command::ScrollFocusedIntoView])
    );
    assert_eq!(handle_ctrl_tab(&named(Named::Tab, Modifiers::empty())), None);
}

#[test]
fn tab_within_scope() {
    let scope = Id::new(7);
    let ctrl_tab = named(Named::Tab, mods(false, true, false, false));
    assert_eq!(
        handle_ctrl_tab_within(&ctrl_tab, scope),
        Some(vec![Command::FocusNextWithin(scope), Command::ScrollFocusedIntoView])
    );
    let shift_tab = named(Named::Tab, mods(true, false, false, false));
    assert_eq!(
        handle_tab_within(&shift_tab, Status::Ignored, scope),
        Some(vec![Command::FocusPreviousWithin(scope), Command::ScrollFocusedIntoView])
    );
    assert_eq!(handle_tab_within(&shift_tab, Status::Captured, scope), None);
}

#[test]
fn mnemonic_needs_alt_without_control_or_logo() {
    let alt = mods(false, false, true, false);
    assert_eq!(handle_mnemonic(&character("s", alt), Status::Ignored), Some('s'));
    assert_eq!(handle_mnemonic(&character("s", mods(true, false, true, false)), Status::Ignored), Some('s'));
    assert_eq!(handle_mnemonic(&character("s", Modifiers::empty()), Status::Ignored), None);
    assert_eq!(handle_mnemonic(&character("s", mods(false, true, true, false)), Status::Ignored), None);
    assert_eq!(handle_mnemonic(&character("s", mods(false, false, true, true)), Status::Ignored), None);
    assert_eq!(handle_mnemonic(&character("s", alt), Status::Captured), None);
    assert_eq!(handle_mnemonic(&character("", alt), Status::Ignored), None);
    assert_eq!(handle_mnemonic(&character("ñx", alt), Status::Ignored), Some('ñ'));
}

#[test]
fn mnemonic_target_is_focused_and_clicked() {
    let (commands, bounds) = finish_mnemonic(Some(MnemonicTarget { id: Some(Id::new(3)), bounds: (1, 2) }));
    assert_eq!(commands, vec![Command::Focus(Id::new(3))]);
    assert_eq!(bounds, Some((1, 2)));
    let (commands, bounds) = finish_mnemonic(Some(MnemonicTarget { id: None, bounds: 5 }));
    assert!(commands.is_empty());
    assert_eq!(bounds, Some(5));
    let (commands, bounds) = finish_mnemonic::<u8>(None);
    assert!(commands.is_empty());
    assert_eq!(bounds, None);
}

#[test]
fn radio_arrows_only_plain() {
    let plain = Modifiers::empty();
    assert_eq!(handle_radio_arrow(&named(Named::ArrowDown, plain), Status::Ignored), Some(Direction::Next));
    assert_eq!(handle_radio_arrow(&named(Named::ArrowRight, plain), Status::Ignored), Some(Direction::Next));
    assert_eq!(handle_radio_arrow(&named(Named::ArrowUp, plain), Status::Ignored), Some(Direction::Previous));
    assert_eq!(handle_radio_arrow(&named(Named::ArrowLeft, plain), Status::Ignored), Some(Direction::Previous));
    assert_eq!(handle_radio_arrow(&named(Named::ArrowDown, plain), Status::Captured), None);
    for m in [mods(true, false, false, false), mods(false, true, false, false), mods(false, false, true, false), mods(false, false, false, true)] {
        assert_eq!(handle_radio_arrow(&named(Named::ArrowDown, m), Status::Ignored), None);
    }
    assert_eq!(handle_radio_arrow(&named(Named::Home, plain), Status::Ignored), None);
}

#[test]
fn radio_arrow_moves_to_peer() {
    let peers = vec![Id::new(1), Id::new(2), Id::new(3)];
    let target = radio_arrow_target(Some(peers.clone()), Some(Id::new(3)), Direction::Next);
    assert_eq!(target, Some(Id::new(1)));
    assert_eq!(
        finish_radio_arrow(target, true),
        Some(vec![Command::Focus(Id::new(1)), Command::ScrollFocusedIntoView])
    );
    assert_eq!(radio_arrow_target(Some(peers.clone()), Some(Id::new(1)), Direction::Previous), Some(Id::new(3)));
}

#[test]
fn radio_arrow_does_nothing_without_a_mounted_peer() {
    let peers = vec![Id::new(1), Id::new(2), Id::new(3)];
    assert_eq!(radio_arrow_target(Some(vec![]), Some(Id::new(1)), Direction::Next), None);
    assert_eq!(radio_arrow_target(None, Some(Id::new(1)), Direction::Previous), None);
    assert_eq!(radio_arrow_target(Some(peers.clone()), None, Direction::Next), None);
    assert_eq!(radio_arrow_target(Some(peers.clone()), Some(Id::new(9)), Direction::Next), None);
    assert_eq!(finish_radio_arrow(Some(Id::new(2)), false), None);
    assert_eq!(finish_radio_arrow(None, true), None);
}

#[test]
fn peers_wrap_on_the_ends() {
    let peers = vec![Id::new(1), Id::new(2), Id::new(3)];
    assert_eq!(resolve_peer(&peers, Id::new(3), Direction::Next), Some(Id::new(1)));
    assert_eq!(resolve_peer(&peers, Id::new(1), Direction::Previous), Some(Id::new(3)));
    assert_eq!(resolve_peer(&peers, Id::new(2), Direction::Next), Some(Id::new(3)));
    assert_eq!(resolve_peer(&peers, Id::new(2), Direction::Previous), Some(Id::new(1)));
    assert_eq!(resolve_peer(&peers, Id::new(9), Direction::Next), None);
    for id in [1, 2, 3] {
        let there = resolve_peer(&peers, Id::new(id), Direction::Next).unwrap();
        assert_eq!(resolve_peer(&peers, there, Direction::Previous), Some(Id::new(id)));
    }
}

#[test]
fn scroll_keys_map_to_actions() {
    let plain = Modifiers::empty();
    let shift = mods(true, false, false, false);
    let cases = [
        (Named::PageDown, plain, ScrollAction::PageDown),
        (Named::PageDown, shift, ScrollAction::PageRight),
        (Named::PageUp, plain, ScrollAction::PageUp),
        (Named::PageUp, shift, ScrollAction::PageLeft),
        (Named::ArrowDown, plain, ScrollAction::LineDown),
        (Named::ArrowDown, shift, ScrollAction::LineRight),
        (Named::ArrowUp, plain, ScrollAction::LineUp),
        (Named::ArrowUp, shift, ScrollAction::LineLeft),
        (Named::ArrowRight, shift, ScrollAction::LineRight),
        (Named::ArrowLeft, plain, ScrollAction::LineLeft),
        (Named::Home, plain, ScrollAction::Home),
        (Named::Home, shift, ScrollAction::ShiftHome),
        (Named::End, plain, ScrollAction::End),
        (Named::End, shift, ScrollAction::ShiftEnd),
    ];
    for (key, m, action) in cases {
        assert_eq!(
            handle_scroll_keys(&named(key, m), Status::Ignored),
            Some(vec![Command::ScrollFocusedAncestor(action)])
        );
    }
    assert_eq!(handle_scroll_keys(&named(Named::Home, plain), Status::Captured), None);
    assert_eq!(handle_scroll_keys(&named(Named::Space, plain), Status::Ignored), None);
    assert_eq!(scroll_action(Named::Tab, false), None);
}

#[test]
fn modified_arrows_reach_scrolling_not_radio_cycling() {
    let shift_down = named(Named::ArrowDown, mods(true, false, false, false));
    assert_eq!(handle_radio_arrow(&shift_down, Status::Ignored), None);
    assert_eq!(
        handle_scroll_keys(&shift_down, Status::Ignored),
        Some(vec![Command::ScrollFocusedAncestor(ScrollAction::LineRight)])
    );
    let ctrl_left = named(Named::ArrowLeft, mods(false, true, false, false));
    assert_eq!(handle_radio_arrow(&ctrl_left, Status::Ignored), None);
    assert_eq!(
        handle_scroll_keys(&ctrl_left, Status::Ignored),
        Some(vec![Command::ScrollFocusedAncestor(ScrollAction::LineLeft)])
    );
}
