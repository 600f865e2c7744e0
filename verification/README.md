# iced_interaction

The interaction logic of a GUI toolkit's widgets, verified with Verus.

Each widget here is a state machine. A handler takes the widget's state,
an input event, and the few facts about the pointer that the caller
measured (which option is under the cursor, whether the cursor is over the
widget), and returns the new state with the actions to perform: operations
to run on the widget tree, values to publish, whether the event was
captured, whether to redraw. Contracts state each answer exactly.

- `src/accessible.rs`: accessibility roles and per-widget metadata.
- `src/event.rs`: keyboard, mouse, touch and window events; modifiers.
- `src/operation.rs`: tree operations, the focus protocol, radio peers.
- `src/keyboard.rs`: Tab/Ctrl+Tab focus cycling, mnemonics, radio arrows,
  scroll keys.
- `src/radio_group.rs`: a radio group acting as a single tab stop.
- `src/vertical_slider.rs`: a vertical slider's state, status and style.
- `src/text_input/`: grapheme-cluster values, the cursor, and the editor.
- `app/lib.rs`: the floating-point arithmetic of the slider's value.

Dependencies: `unicode-segmentation` splits a text input's text into
extended grapheme clusters (`src/text_input/value.rs`), the units that the
cursor moves over and that editing removes; `num-traits` converts slider
values from `f64` in `app/`.
