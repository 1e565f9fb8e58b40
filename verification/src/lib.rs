//! A line editor for a terminal that keeps taking input while other threads
//! print: the editing state, the history of submitted lines, the decoding of
//! key presses and the text that redraws the input row.

pub mod keys;
pub mod laws;
pub mod editor;
pub mod model;
pub mod render;
pub mod text;

pub use keys::{Command, ControlKey, decode_unix, decode_windows};
pub use editor::{
    Konsole, TabQuery, TabResult, Action, Activation, is_active, queued_inputs, get_prompt,
    set_prompt, get_history_limit, set_history_limit, is_history_enabled, set_history_enabled,
    clear_input, clear_history,
};
pub use render::{blank_row, printout_text};
pub use text::{string_from_chars, chars_of};
