//! Monitor discovery, alignment-session state and overlay geometry for a
//! tool that lines up the vertical positions of several monitors.

pub mod monitor;
pub mod state;
pub mod overlay;
pub mod overview;
pub mod friendly;
pub mod discover;
pub mod window_style;
pub mod main_window;
pub mod gdiplus;
pub mod hello;
pub mod text;
pub mod info_panel;
