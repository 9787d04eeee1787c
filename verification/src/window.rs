//! How the overlay's window is set up: small, in the middle of the screen,
//! above all other windows, and with nothing to it but what is painted.

use vstd::prelude::*;
use crate::color::Rgba;

verus! {

/// The width of the window, in pixels.
pub const WINDOW_WIDTH: u32 = 200;

/// The height of the window, in pixels.
pub const WINDOW_HEIGHT: u32 = 200;

/// The set-up of the window.
///
/// The place of its top left corner is counted in half pixels from the top
/// left corner of the screen, so that the middle of a screen with an odd
/// number of pixels is met exactly.
#[derive(Clone, Copy, Debug, PartialEq, Eq, Structural)]
pub struct WindowConfig {
    /// The width of what is inside the window, in pixels.
    pub width: u32,
    /// The height of what is inside the window, in pixels.
    pub height: u32,
    /// Twice the distance of the window from the left edge of the screen.
    pub twice_x: i64,
    /// Twice the distance of the window from the top edge of the screen.
    pub twice_y: i64,
    /// Whether the window stays above all others.
    pub always_on_top: bool,
    /// Whether the desktop shows through where nothing is painted.
    pub transparent: bool,
    /// Whether the window has a title bar and a border.
    pub decorations: bool,
    /// Whether the user can change the window's size.
    pub resizable: bool,
    /// Whether the window has an entry in the taskbar.
    pub taskbar: bool,
}

impl WindowConfig {
    /// The window of the overlay on a screen of the given size.
    pub open spec fn for_screen(screen_width: i32, screen_height: i32) -> Self {
        WindowConfig {
            width: WINDOW_WIDTH,
            height: WINDOW_HEIGHT,
            twice_x: (screen_width - WINDOW_WIDTH) as i64,
            twice_y: (screen_height - WINDOW_HEIGHT) as i64,
            always_on_top: true,
            transparent: true,
            decorations: false,
            resizable: false,
            taskbar: false,
        }
    }

    /// Whether the window lies in the middle of a screen of the given size:
    /// as much of the screen is to its left as to its right, and as much
    /// above it as below it. All lengths are counted in half pixels.
    pub open spec fn is_centred_on(self, screen_width: int, screen_height: int) -> bool {
        &&& self.twice_x == 2 * screen_width - (self.twice_x + 2 * self.width)
        &&& self.twice_y == 2 * screen_height - (self.twice_y + 2 * self.height)
    }

    /// Whether the window is an overlay: above the others, see-through, bare
    /// of border and title, of fixed size, and absent from the taskbar.
    pub open spec fn is_overlay(self) -> bool {
        self.always_on_top && self.transparent && !self.decorations && !self.resizable
            && !self.taskbar
    }
}

/// The window's title.
pub fn title() -> (text: &'static str)
    ensures
        text@ == "Crosshair Overlay"@,
{
    "Crosshair Overlay"
}

/// The colour with which the window is cleared before each frame, and with
/// which its one panel is filled: none.
pub fn background() -> (color: Rgba)
    ensures
        color == (Rgba { r: 0, g: 0, b: 0, a: 0 }),
        color.is_invisible(),
{
    Rgba::transparent()
}

/// The set-up of the overlay's window on a screen of `screen_width` by
/// `screen_height` pixels.
pub fn overlay_window(screen_width: i32, screen_height: i32) -> (config: WindowConfig)
    ensures
        config == WindowConfig::for_screen(screen_width, screen_height),
        config.twice_x == screen_width - WINDOW_WIDTH,
        config.twice_y == screen_height - WINDOW_HEIGHT,
        config.is_centred_on(screen_width as int, screen_height as int),
        config.is_overlay(),
{
    WindowConfig {
        width: WINDOW_WIDTH,
        height: WINDOW_HEIGHT,
        twice_x: screen_width as i64 - WINDOW_WIDTH as i64,
        twice_y: screen_height as i64 - WINDOW_HEIGHT as i64,
        always_on_top: true,
        transparent: true,
        decorations: false,
        resizable: false,
        taskbar: false,
    }
}

/// There is one place in the middle: a window of the overlay's size that is
/// centred on a screen stands where `overlay_window` puts it.
pub proof fn lemma_centre_is_unique(config: WindowConfig, screen_width: int, screen_height: int)
    requires
        config.width == WINDOW_WIDTH,
        config.height == WINDOW_HEIGHT,
        config.is_centred_on(screen_width, screen_height),
    ensures
        config.twice_x == screen_width - WINDOW_WIDTH,
        config.twice_y == screen_height - WINDOW_HEIGHT,
{
}

} // verus!
