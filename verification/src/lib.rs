//! Status line for a window manager's bar: the temperature, the active
//! keyboard layout, the date and the time, rendered into one fixed-layout
//! string that is published as the title of the root window.

pub mod text;
pub mod temperature;
pub mod layout;
pub mod clock;
pub mod status;
pub mod bar;
pub mod cli;
