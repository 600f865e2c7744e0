//! Interaction logic of a retained-mode GUI toolkit: accessibility
//! metadata, keyboard focus navigation, a radio group, a vertical slider
//! and a text editor, each as a state machine whose decisions are proved.
//!
//! The library never touches a window, a renderer or a widget tree. Each
//! handler takes the event and the facts that the caller measured (which
//! option the cursor is over, whether a key was captured, ...) and hands
//! back the new state and the actions that the caller should perform.

pub mod accessible;
pub mod event;
pub mod keyboard;
pub mod operation;
pub mod radio_group;
pub mod text_input;
pub mod vertical_slider;
pub mod widget;
