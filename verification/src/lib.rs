//! Decision logic of a small windowed demo: a button that reacts to the
//! pointer, a periodic greeting, and a key that repaints the background.
//!
//! The engine owns the window, the schedule and the input devices. What is
//! decided here works on values of its own: colours in hundredths, spans of
//! time in nanoseconds, lines of text. The engine is called for two things
//! only, the ticking of a repeating timer and the look-up of a key among
//! those just pressed.

pub mod color;
pub mod button;
pub mod span;
pub mod timer;
pub mod greet;
pub mod background;
pub mod plugin;
