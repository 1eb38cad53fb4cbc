//! Window switching logic: hotkey state machines, app grouping and selection,
//! preview eligibility and the geometry of the switcher overlay.
pub mod config;
pub mod geometry;
pub mod handles;
pub mod inspect;
pub mod keyboard;
pub mod layout;
pub mod painter;
pub mod palette;
pub mod preview;
pub mod switch_apps;
pub mod text;
