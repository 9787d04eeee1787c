//! The decisions of a click-through crosshair overlay: which tray message does
//! what, what one frame asks of the window, and the shape of what is drawn.

pub mod color;
pub mod crosshair;
pub mod laws;
pub mod message;
pub mod overlay;
pub mod tray;
pub mod window;
