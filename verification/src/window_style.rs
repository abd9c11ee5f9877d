//! Window style and size arithmetic for the main window.

use vstd::prelude::*;

verus! {

/// Window style bit: the window has a sizing border.
pub const WS_THICKFRAME: u32 = 0x0004_0000;

/// Window style bit: the window has a maximize button.
pub const WS_MAXIMIZEBOX: u32 = 0x0001_0000;

/// The DPI a window has when nothing better is known.
pub const USER_DEFAULT_SCREEN_DPI: u32 = 96;

/// The window style with the sizing border and the maximize button removed.
pub open spec fn fixed_style_of(style: u32) -> u32 {
    style & !(WS_THICKFRAME | WS_MAXIMIZEBOX)
}

/// The style of a fixed-size dialog: drop `WS_THICKFRAME` and `WS_MAXIMIZEBOX`
/// so the window can't be resized and shows no resize cursor on its edges.
/// The style read back from the window must fit in 32 bits.
pub fn fixed_style(style: isize) -> (r: u32)
    requires
        0 <= style <= u32::MAX,
    ensures
        r == fixed_style_of(style as u32),
{
    let style = style as u32;
    style & !(WS_THICKFRAME | WS_MAXIMIZEBOX)
}

/// Making a window fixed removes exactly the sizing border and the maximize
/// button, keeps every other style bit, and doing it twice changes nothing.
pub proof fn law_fixed_style(style: u32)
    ensures
        fixed_style_of(style) & WS_THICKFRAME == 0,
        fixed_style_of(style) & WS_MAXIMIZEBOX == 0,
        fixed_style_of(style) | (style & (WS_THICKFRAME | WS_MAXIMIZEBOX)) == style,
        fixed_style_of(fixed_style_of(style)) == fixed_style_of(style),
{
    assert(style & !(0x0004_0000u32 | 0x0001_0000u32) & 0x0004_0000u32 == 0) by (bit_vector);
    assert(style & !(0x0004_0000u32 | 0x0001_0000u32) & 0x0001_0000u32 == 0) by (bit_vector);
    assert((style & !(0x0004_0000u32 | 0x0001_0000u32)) | (style & (0x0004_0000u32 | 0x0001_0000u32))
        == style) by (bit_vector);
    assert((style & !(0x0004_0000u32 | 0x0001_0000u32)) & !(0x0004_0000u32 | 0x0001_0000u32) == style
        & !(0x0004_0000u32 | 0x0001_0000u32)) by (bit_vector);
}

/// The DPI of a window: its own when known, else the system's when known,
/// else the default screen DPI.
pub open spec fn dpi_of(window_dpi: u32, system_dpi: u32) -> u32 {
    if window_dpi != 0 {
        window_dpi
    } else if system_dpi != 0 {
        system_dpi
    } else {
        USER_DEFAULT_SCREEN_DPI
    }
}

/// Pick the DPI to scale a window with; a DPI of 0 means it could not be read.
pub fn choose_dpi(window_dpi: u32, system_dpi: u32) -> (r: u32)
    ensures
        r == dpi_of(window_dpi, system_dpi),
        r != 0,
        window_dpi != 0 ==> r == window_dpi,
        window_dpi == 0 && system_dpi != 0 ==> r == system_dpi,
        window_dpi == 0 && system_dpi == 0 ==> r == 96,
{
    if window_dpi != 0 {
        return window_dpi;
    }
    if system_dpi != 0 {
        return system_dpi;
    }
    USER_DEFAULT_SCREEN_DPI
}

/// The window's own DPI is used whenever it is known, whatever the system
/// DPI; the system DPI only when the window's is not known; 96 when neither is.
pub proof fn law_window_dpi_wins(window_dpi: u32, system_dpi: u32)
    ensures
        window_dpi != 0 ==> dpi_of(window_dpi, system_dpi) == window_dpi,
        window_dpi == 0 && system_dpi != 0 ==> dpi_of(window_dpi, system_dpi) == system_dpi,
        window_dpi == 0 && system_dpi == 0 ==> dpi_of(window_dpi, system_dpi) == 96,
{
}

/// Where a window goes and how large it is.
#[derive(Clone, Copy, Debug, PartialEq, Eq, Structural)]
pub struct WindowPlacement {
    pub x: i32,
    pub y: i32,
    pub width: i32,
    pub height: i32,
}

/// The window whose outer bounds have the left edge `left`, the top edge
/// `top` and the bottom edge `bottom`, resized to the outer width
/// `new_width`: it keeps its current height and position, only the width
/// changes.
pub open spec fn resized(left: i32, top: i32, bottom: i32, new_width: i32) -> WindowPlacement {
    WindowPlacement { x: left, y: top, width: new_width, height: (bottom - top) as i32 }
}

/// The height of the window can be computed in `i32`.
pub open spec fn resize_fits(top: i32, bottom: i32) -> bool {
    i32::MIN <= bottom - top <= i32::MAX
}

/// Resize a window with the given outer bounds to a new outer width, keeping
/// its current height and position.
pub fn resize_placement(left: i32, top: i32, bottom: i32, new_width: i32) -> (r: WindowPlacement)
    requires
        resize_fits(top, bottom),
    ensures
        r == resized(left, top, bottom, new_width),
{
    let current_height = bottom - top;
    WindowPlacement { x: left, y: top, width: new_width, height: current_height }
}

/// A resized window keeps its top-left corner and its height; only its width
/// becomes the new one.
pub proof fn law_resize_keeps_position(left: i32, top: i32, bottom: i32, new_width: i32)
    requires
        resize_fits(top, bottom),
    ensures
        resized(left, top, bottom, new_width).x == left,
        resized(left, top, bottom, new_width).y == top,
        resized(left, top, bottom, new_width).height == bottom - top,
        resized(left, top, bottom, new_width).width == new_width,
{
}

} // verus!
