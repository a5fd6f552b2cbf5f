//! The decisions of Dynamic Launcher, a strip of five tiles (shut down, two
//! tools, the web, and a clock) for Windows, Linux and OpenBSD.
//!
//! - `strip`: the tiles' count, keyboard focus, and one frame's key presses.
//! - `clock`: the clock tile's text and the window title.
//! - `text`: text helpers (search, trimming, line endings, joining).
//! - `zoom`: what the zoom tiles ask of a screen magnifier.
//! - `windows`, `gnome`, `openbsd`: the launcher's state and steps on each
//!   system, with the outside work each step asks for.
pub mod text;
pub mod clock;
pub mod strip;
pub mod zoom;
pub mod windows;
pub mod gnome;
pub mod openbsd;
