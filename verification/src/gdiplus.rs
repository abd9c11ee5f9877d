//! The values exchanged with the flat GDI+ API.

use vstd::prelude::*;

verus! {

/// GDI+ `GpStatus`: `Status(0)` (`Ok`) means success.
#[derive(Clone, Copy, Debug, PartialEq, Eq, Structural)]
pub struct Status(pub i32);

/// GDI+ `Unit`: the unit a pen width is measured in.
#[derive(Clone, Copy, Debug, PartialEq, Eq, Structural)]
pub struct Unit(pub i32);

/// The `Unit` value of pen widths in device pixels.
pub const UNIT_PIXEL: i32 = 2;

/// GDI+ `SmoothingMode`.
#[derive(Clone, Copy, Debug, PartialEq, Eq, Structural)]
pub struct SmoothingMode(pub i32);

/// The `SmoothingMode` value for lines drawn without anti-aliasing.
pub const SMOOTHING_MODE_NONE: i32 = 3;

/// The `SmoothingMode` value for lines drawn anti-aliased.
pub const SMOOTHING_MODE_ANTI_ALIAS: i32 = 4;

/// The unit of the pens an overlay draws with.
pub fn unit_pixel() -> (r: Unit)
    ensures
        r == Unit(UNIT_PIXEL),
{
    Unit(UNIT_PIXEL)
}

/// Opaque GDI+ graphics context, only ever used behind a pointer.
pub struct GpGraphics(pub u8);

/// Opaque GDI+ pen, only ever used behind a pointer.
pub struct GpPen(pub u8);

/// What `GdiplusStartup` hands back when GDI+ runs without its background thread.
#[allow(non_snake_case)]
pub struct GdiplusStartupOutput {
    pub NotificationHook: isize,
    pub NotificationUnhook: isize,
}

/// The smoothing mode an overlay draws its lines with.
pub fn smoothing_mode(antialiasing: bool) -> (r: SmoothingMode)
    ensures
        r == (if antialiasing {
            SmoothingMode(SMOOTHING_MODE_ANTI_ALIAS)
        } else {
            SmoothingMode(SMOOTHING_MODE_NONE)
        }),
{
    if antialiasing {
        SmoothingMode(SMOOTHING_MODE_ANTI_ALIAS)
    } else {
        SmoothingMode(SMOOTHING_MODE_NONE)
    }
}

} // verus!
