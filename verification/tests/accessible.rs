use iced_interaction::accessible::{Accessible, HasPopup, Live, Orientation, Role};
use iced_interaction::event::{Modifiers, Platform};

#[test]
fn role_defaults_to_group() {
    assert_eq!(Role::default(), Role::Group);
}

#[test]
fn accessible_defaults_are_blank() {
    let a: Accessible<f64> = Accessible::default();
    assert_eq!(a.role, Role::Group);
    assert_eq!(a.label, None);
    assert_eq!(a.value, None);
    assert!(!a.disabled && !a.required && !a.invalid && !a.read_only);
    assert!(!a.busy && !a.hidden && !a.modal);
    assert_eq!(a.position_in_set, None);
    assert_eq!(a.mnemonic, None);
    assert_eq!(a.radio_group, None);
    let _ = (Live::Polite, Orientation::Horizontal, HasPopup::Menu);
}

#[test]
fn modifiers_command_depends_on_platform() {
    let logo = Modifiers { shift: false, control: false, alt: false, logo: true };
    assert!(logo.command(Platform::MacOs));
    assert!(!logo.command(Platform::Other));
    let control = Modifiers { shift: false, control: true, alt: false, logo: false };
    assert!(control.command(Platform::Windows));
    assert!(!control.command(Platform::MacOs));
    assert_eq!(Modifiers::default(), Modifiers::empty());
}
