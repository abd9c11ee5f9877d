use vstd::prelude::*;
use vstd::string::*;

use crate::monitor::Monitor;
use crate::state::{AdjustSession, OverlaySettings, paired_len};
use crate::text::{decimal, i32_text};
use crate::window_style::WindowPlacement;

verus! {

/// Virtual-key code of the Esc key.
pub const VK_ESCAPE: u32 = 0x1B;

/// Virtual-key code of the Page Up key.
pub const VK_PRIOR: u32 = 0x21;

/// Virtual-key code of the Page Down key.
pub const VK_NEXT: u32 = 0x22;

/// Virtual-key code of the Up arrow key.
pub const VK_UP: u32 = 0x26;

/// Virtual-key code of the Down arrow key.
pub const VK_DOWN: u32 = 0x28;

/// `DrawTextW` format bit: the text is right-aligned.
pub const DT_RIGHT: u32 = 0x2;

/// `DrawTextW` format value: the text is top-aligned.
pub const DT_TOP: u32 = 0x0;

/// `DrawTextW` format bit: the text is one line.
pub const DT_SINGLELINE: u32 = 0x20;

/// `SetBkMode` mode: text is drawn without filling its background.
pub const TRANSPARENT: u32 = 1;

/// The height assumed for the primary monitor when no monitor is primary.
pub const FALLBACK_PRIMARY_HEIGHT: i32 = 1080;

/// Win32 `COLORREF` of an RGB colour: `0x00BBGGRR`.
pub open spec fn colorref(r: u8, g: u8, b: u8) -> int {
    r + g * 0x100 + b * 0x1_0000
}

/// GDI+ ARGB of a fully opaque colour: `0xFFRRGGBB`.
pub open spec fn opaque_argb(r: u8, g: u8, b: u8) -> int {
    0xFF00_0000 + r * 0x1_0000 + g * 0x100 + b
}

/// `RGB` macro equivalent: the `COLORREF` value of a colour.
pub fn rgb(r: u8, g: u8, b: u8) -> (c: u32)
    ensures
        c == colorref(r, g, b),
{
    let c = (r as u32) | ((g as u32) << 8) | ((b as u32) << 16);
    assert(((r as u32) | ((g as u32) << 8) | ((b as u32) << 16)) == r + g * 0x100 + b * 0x1_0000)
        by (bit_vector);
    c
}

/// GDI+ ARGB: 0xAARRGGBB (fully opaque when alpha = 0xFF).
pub fn argb(r: u8, g: u8, b: u8) -> (c: u32)
    ensures
        c == opaque_argb(r, g, b),
{
    let c = 0xFF00_0000u32 | ((r as u32) << 16) | ((g as u32) << 8) | (b as u32);
    assert((0xFF00_0000u32 | ((r as u32) << 16) | ((g as u32) << 8) | (b as u32)) == 0xFF00_0000
        + r * 0x1_0000 + g * 0x100 + b) by (bit_vector);
    c
}

/// The version that follows `v`; the counter wraps around.
pub open spec fn next_version(v: u64) -> u64 {
    if v == u64::MAX {
        0
    } else {
        (v + 1) as u64
    }
}

/// `a + d`, held to the range of `i32`.
pub open spec fn saturating_add_i32(a: i32, d: i32) -> i32 {
    if a + d > i32::MAX {
        i32::MAX
    } else if a + d < i32::MIN {
        i32::MIN
    } else {
        (a + d) as i32
    }
}

fn saturating_add(a: i32, d: i32) -> (r: i32)
    ensures
        r == saturating_add_i32(a, d),
{
    match a.checked_add(d) {
        Some(v) => v,
        None => if d > 0 {
            i32::MAX
        } else {
            i32::MIN
        },
    }
}

/// The session after the monitor at `index` was asked to move by `delta`:
/// the primary monitor never moves; any other one moves, held to `i32`,
/// and the version counter steps on.
pub open spec fn moved(old: AdjustSession, index: int, delta: i32, new: AdjustSession) -> bool {
    &&& new.monitors@ == old.monitors@
    &&& new.stop_requested == old.stop_requested
    &&& new.hwnd_list@ == old.hwnd_list@
    &&& new.info_box_hwnds@ == old.info_box_hwnds@
    &&& new.settings == old.settings
    &&& if old.monitors@[index].primary {
        &&& new.working_y@ == old.working_y@
        &&& new.version == old.version
    } else {
        &&& new.working_y@ == old.working_y@.update(
            index,
            saturating_add_i32(old.working_y@[index], delta),
        )
        &&& new.version == next_version(old.version)
    }
}

/// Move the working position of the monitor at `index` by `delta` pixels, and
/// hand back the windows that must be repainted.
pub fn move_monitor(session: &mut AdjustSession, index: usize, delta: i32) -> (repaint: Vec<usize>)
    requires
        index < old(session).monitors@.len(),
        index < old(session).working_y@.len(),
    ensures
        moved(*old(session), index as int, delta, *final(session)),
        repaint@ == old(session).hwnd_list@,
{
    if !session.monitors[index].primary {
        let y = saturating_add(session.working_y[index], delta);
        session.working_y.set(index, y);
        session.version = session.version.wrapping_add(1);
    }
    session.hwnd_list.clone()
}

/// Mark the session as stopped, and hand back the windows to close.
pub fn stop_all(session: &mut AdjustSession) -> (close: Vec<usize>)
    ensures
        final(session).stop_requested,
        final(session).version == next_version(old(session).version),
        final(session).monitors@ == old(session).monitors@,
        final(session).working_y@ == old(session).working_y@,
        final(session).hwnd_list@ == old(session).hwnd_list@,
        final(session).info_box_hwnds@ == old(session).info_box_hwnds@,
        final(session).settings == old(session).settings,
        close@ == old(session).hwnd_list@,
{
    session.stop_requested = true;
    session.version = session.version.wrapping_add(1);
    session.hwnd_list.clone()
}

/// The windows of the session, for repainting or tearing them down.
pub fn overlay_windows(session: &AdjustSession) -> (r: Vec<usize>)
    ensures
        r@ == session.hwnd_list@,
{
    session.hwnd_list.clone()
}

/// Record the overlay windows that were created for the session.
pub fn register_overlays(session: &mut AdjustSession, hwnd_list: Vec<usize>)
    ensures
        final(session).hwnd_list@ == hwnd_list@,
        final(session).monitors@ == old(session).monitors@,
        final(session).working_y@ == old(session).working_y@,
        final(session).version == old(session).version,
        final(session).stop_requested == old(session).stop_requested,
        final(session).info_box_hwnds@ == old(session).info_box_hwnds@,
        final(session).settings == old(session).settings,
{
    session.hwnd_list = hwnd_list;
}

/// Extract the `(device_name, x, working_y)` for every monitor in the `session`.
pub fn collect_positions(session: &AdjustSession) -> (r: Vec<(String, i32, i32)>)
    ensures
        r@.len() == paired_len(session.monitors@, session.working_y@),
        forall|i: int|
            0 <= i < r@.len() ==> {
                &&& (#[trigger] r@[i]).0@ == session.monitors@[i].device_name@
                &&& r@[i].1 == session.monitors@[i].x
                &&& r@[i].2 == session.working_y@[i]
            },
{
    let mut out: Vec<(String, i32, i32)> = Vec::new();
    let n = if session.monitors.len() <= session.working_y.len() {
        session.monitors.len()
    } else {
        session.working_y.len()
    };
    for i in 0..n
        invariant
            n == paired_len(session.monitors@, session.working_y@),
            out@.len() == i,
            forall|k: int|
                0 <= k < i ==> {
                    &&& (#[trigger] out@[k]).0@ == session.monitors@[k].device_name@
                    &&& out@[k].1 == session.monitors@[k].x
                    &&& out@[k].2 == session.working_y@[k]
                },
    {
        let m = &session.monitors[i];
        out.push((m.device_name.clone(), m.x, session.working_y[i]));
    }
    out
}

/// What an overlay window does after a key press.
pub enum KeyOutcome {
    /// Esc: the session stops; these windows are to be closed.
    CloseWindows(Vec<usize>),
    /// A move key: these windows are to be repainted.
    Repaint(Vec<usize>),
    /// Any other key.
    Ignored,
}

/// How far a key moves a monitor, if it is a move key.
pub open spec fn key_step(vk: u32) -> Option<i32> {
    if vk == VK_UP {
        Some(1i32)
    } else if vk == VK_DOWN {
        Some(-1i32)
    } else if vk == VK_PRIOR {
        Some(10i32)
    } else if vk == VK_NEXT {
        Some(-10i32)
    } else {
        None
    }
}

/// React to a key pressed on the overlay of the monitor at `index`: Esc stops
/// the session, Up/Down move the monitor by one pixel and Page Up/Page Down
/// by ten, other keys do nothing.
pub fn handle_key(session: &mut AdjustSession, index: usize, vk: u32) -> (r: KeyOutcome)
    requires
        index < old(session).monitors@.len(),
        index < old(session).working_y@.len(),
    ensures
        vk == VK_ESCAPE ==> {
            &&& final(session).stop_requested
            &&& final(session).version == next_version(old(session).version)
            &&& final(session).monitors@ == old(session).monitors@
            &&& final(session).working_y@ == old(session).working_y@
            &&& final(session).hwnd_list@ == old(session).hwnd_list@
            &&& final(session).info_box_hwnds@ == old(session).info_box_hwnds@
            &&& final(session).settings == old(session).settings
            &&& r matches KeyOutcome::CloseWindows(w) && w@ == old(session).hwnd_list@
        },
        vk != VK_ESCAPE && key_step(vk) is Some ==> {
            &&& moved(*old(session), index as int, key_step(vk)->0, *final(session))
            &&& r matches KeyOutcome::Repaint(w) && w@ == old(session).hwnd_list@
        },
        vk != VK_ESCAPE && key_step(vk) is None ==> {
            &&& *final(session) == *old(session)
            &&& r is Ignored
        },
        vk == 0x26 ==> moved(*old(session), index as int, 1i32, *final(session)),
        vk == 0x28 ==> moved(*old(session), index as int, -1i32, *final(session)),
        vk == 0x21 ==> moved(*old(session), index as int, 10i32, *final(session)),
        vk == 0x22 ==> moved(*old(session), index as int, -10i32, *final(session)),
        vk != 0x1B && vk != 0x26 && vk != 0x28 && vk != 0x21 && vk != 0x22 ==> {
            &&& *final(session) == *old(session)
            &&& r is Ignored
        },
{
    if vk == VK_ESCAPE {
        KeyOutcome::CloseWindows(stop_all(session))
    } else if vk == VK_UP {
        KeyOutcome::Repaint(move_monitor(session, index, 1))
    } else if vk == VK_DOWN {
        KeyOutcome::Repaint(move_monitor(session, index, -1))
    } else if vk == VK_PRIOR {
        KeyOutcome::Repaint(move_monitor(session, index, 10))
    } else if vk == VK_NEXT {
        KeyOutcome::Repaint(move_monitor(session, index, -10))
    } else {
        KeyOutcome::Ignored
    }
}


/// The height of the first primary monitor, as a signed pixel count, or the
/// fallback height when none is primary.
pub open spec fn primary_height(monitors: Seq<Monitor>) -> i32
    decreases monitors.len(),
{
    if monitors.len() == 0 {
        FALLBACK_PRIMARY_HEIGHT
    } else if monitors[0].primary {
        monitors[0].height as i32
    } else {
        primary_height(monitors.drop_first())
    }
}

/// What one overlay needs to know to paint itself.
#[derive(Debug)]
pub struct PaintState {
    pub primary_h: i32,
    pub pos_y: i32,
    pub show_diagonal: bool,
    pub show_horizontal: bool,
    pub show_cursor: bool,
    pub antialiasing: bool,
    pub line_spacing: i32,
    pub line_thickness: i32,
}

/// The paint state of the overlay of the monitor at `index` in `session`.
pub open spec fn paint_state_of(session: AdjustSession, index: int) -> PaintState {
    PaintState {
        primary_h: primary_height(session.monitors@),
        pos_y: session.working_y@[index],
        show_diagonal: session.settings.show_diagonal_lines,
        show_horizontal: session.settings.show_horizontal_lines,
        show_cursor: session.settings.show_cursor_position,
        antialiasing: session.settings.antialiasing,
        line_spacing: session.settings.line_spacing,
        line_thickness: session.settings.line_thickness,
    }
}

/// Read what the overlay of the monitor at `index` needs to paint itself.
pub fn read_paint_state(session: &AdjustSession, index: usize) -> (r: PaintState)
    requires
        index < session.working_y@.len(),
    ensures
        r == paint_state_of(*session, index as int),
        r.pos_y == session.working_y@[index as int],
        (forall|i: int| 0 <= i < session.monitors@.len() ==> !(#[trigger] session.monitors@[i]).primary)
            ==> r.primary_h == 1080,
        (exists|i: int| 0 <= i < session.monitors@.len() && (#[trigger] session.monitors@[i]).primary)
            ==> exists|j: int|
            0 <= j < session.monitors@.len() && (#[trigger] session.monitors@[j]).primary && (forall|k: int|
                0 <= k < j ==> !(#[trigger] session.monitors@[k]).primary) && r.primary_h
                == session.monitors@[j].height as i32,
{
    proof {
        law_primary_height_is_first_primary(session.monitors@);
    }
    let mut primary_h: i32 = FALLBACK_PRIMARY_HEIGHT;
    let n = session.monitors.len();
    let mut i: usize = 0;
    assert(session.monitors@.subrange(0, n as int) =~= session.monitors@);
    while i < n
        invariant_except_break
            i <= n,
            primary_h == FALLBACK_PRIMARY_HEIGHT,
            primary_height(session.monitors@) == primary_height(session.monitors@.subrange(i as int, n as int)),
        invariant
            n == session.monitors@.len(),
        ensures
            primary_h == primary_height(session.monitors@),
        decreases n - i,
    {
        assert(session.monitors@.subrange(i as int, n as int).drop_first() =~= session.monitors@.subrange(i + 1, n as int));
        if session.monitors[i].primary {
            primary_h = #[verifier::truncate] (session.monitors[i].height as i32);
            break;
        }
        i = i + 1;
    }
    let settings: &OverlaySettings = &session.settings;
    PaintState {
        primary_h,
        pos_y: session.working_y[index],
        show_diagonal: settings.show_diagonal_lines,
        show_horizontal: settings.show_horizontal_lines,
        show_cursor: settings.show_cursor_position,
        antialiasing: settings.antialiasing,
        line_spacing: settings.line_spacing,
        line_thickness: settings.line_thickness,
    }
}

/// Integer division rounding toward zero, as Rust's `/` does.
pub open spec fn div_toward_zero(a: int, b: int) -> int {
    if a >= 0 {
        a / b
    } else {
        -((-a) / b)
    }
}

/// Where the centre alignment line crosses this overlay: the middle of the
/// primary monitor, seen from a monitor whose top is at `pos_y`.
pub open spec fn center_line_y(ps: PaintState) -> int {
    div_toward_zero(ps.primary_h as int, 2) - ps.pos_y
}

/// The alignment line above the centre one.
pub open spec fn over_line_y(ps: PaintState) -> int {
    div_toward_zero(ps.primary_h as int, 2) - ps.line_spacing - ps.pos_y
}

/// The alignment line below the centre one.
pub open spec fn under_line_y(ps: PaintState) -> int {
    div_toward_zero(ps.primary_h as int, 2) + ps.line_spacing - ps.pos_y
}

/// The alignment lines can be computed in `i32` for this state.
pub open spec fn lines_fit(ps: PaintState) -> bool {
    &&& i32::MIN <= over_line_y(ps) <= i32::MAX
    &&& i32::MIN <= center_line_y(ps) <= i32::MAX
    &&& i32::MIN <= under_line_y(ps) <= i32::MAX
    &&& i32::MIN <= div_toward_zero(ps.primary_h as int, 2) - ps.line_spacing <= i32::MAX
    &&& i32::MIN <= div_toward_zero(ps.primary_h as int, 2) + ps.line_spacing <= i32::MAX
}

/// A straight line from `(x1, y1)` to `(x2, y2)`, in the overlay's pixels.
#[derive(Clone, Copy, Debug, PartialEq, Eq, Structural)]
pub struct Segment {
    pub x1: i32,
    pub y1: i32,
    pub x2: i32,
    pub y2: i32,
}

/// A rectangle, in the overlay's pixels.
#[derive(Clone, Copy, Debug, PartialEq, Eq, Structural)]
pub struct Rect {
    pub left: i32,
    pub top: i32,
    pub right: i32,
    pub bottom: i32,
}

/// Everything an overlay of `w` by `h` pixels draws.
pub struct PaintPlan {
    /// The `COLORREF` the whole overlay is first filled with: white.
    pub background: u32,
    /// The ARGB colour of the diagonals: light gray.
    pub diagonal_color: u32,
    /// The pen width of the diagonals: one pixel.
    pub diagonal_width: i32,
    /// The ARGB colour of the alignment lines: black.
    pub line_color: u32,
    /// The `COLORREF` the cursor position is written in: dark gray.
    pub text_color: u32,
    /// Draw with anti-aliasing.
    pub antialias: bool,
    /// The two diagonals, drawn in light gray one pixel wide.
    pub diagonals: Vec<Segment>,
    /// The alignment lines, drawn in black `line_thickness` pixels wide.
    pub alignment: Vec<Segment>,
    /// The pen width of the alignment lines.
    pub line_thickness: i32,
    /// Where the cursor position is written, if it is shown.
    pub cursor_text: Option<Rect>,
    /// The `DrawTextW` format of the cursor position: right-aligned, top-aligned, one line.
    pub text_format: u32,
    /// The `SetBkMode` mode the cursor position is written with: transparent.
    pub text_background_mode: u32,
}

/// The length of the short alignment marks at both edges: a fifth of the width.
pub open spec fn short_len(w: i32) -> int {
    div_toward_zero(w as int, 5)
}

/// The line `y` is on the overlay.
pub open spec fn visible(y: int, h: i32) -> bool {
    0 <= y <= h
}

/// A full-width line at height `y`.
pub open spec fn full_line(w: i32, y: int) -> Seq<Segment> {
    seq![Segment { x1: 0, y1: y as i32, x2: w, y2: y as i32 }]
}

/// Two short marks at height `y`, one at each edge.
pub open spec fn edge_marks(w: i32, y: int) -> Seq<Segment> {
    seq![
        Segment { x1: 0, y1: y as i32, x2: short_len(w) as i32, y2: y as i32 },
        Segment { x1: (w - short_len(w)) as i32, y1: y as i32, x2: w, y2: y as i32 },
    ]
}

/// The alignment lines of an overlay `w` by `h` pixels: a full line at the
/// centre height, and short marks at the heights above and below it, each
/// only where it falls on the overlay.
pub open spec fn alignment_segments(ps: PaintState, w: i32, h: i32) -> Seq<Segment> {
    if !ps.show_horizontal {
        Seq::empty()
    } else {
        (if visible(center_line_y(ps), h) { full_line(w, center_line_y(ps)) } else { Seq::empty() })
            + (if visible(over_line_y(ps), h) { edge_marks(w, over_line_y(ps)) } else { Seq::empty() })
            + (if visible(under_line_y(ps), h) { edge_marks(w, under_line_y(ps)) } else { Seq::empty() })
    }
}

/// The two diagonals of an overlay `w` by `h` pixels, if they are shown.
pub open spec fn diagonal_segments(ps: PaintState, w: i32, h: i32) -> Seq<Segment> {
    if ps.show_diagonal {
        seq![
            Segment { x1: 0, y1: 0, x2: w, y2: h },
            Segment { x1: w, y1: 0, x2: 0, y2: h },
        ]
    } else {
        Seq::empty()
    }
}

/// The box the cursor position is written in: 152 by 20 pixels, 8 pixels
/// from the top and right edges.
pub open spec fn cursor_box(w: i32) -> Rect {
    Rect { left: (w - 160) as i32, top: 8, right: (w - 8) as i32, bottom: 28 }
}

/// The alignment lines of an overlay `w` by `h` pixels.
fn alignment_of(ps: &PaintState, w: i32, h: i32) -> (a: Vec<Segment>)
    requires
        ps.show_horizontal ==> lines_fit(*ps),
    ensures
        a@ == alignment_segments(*ps, w, h),
{
    let mut alignment: Vec<Segment> = Vec::new();
    if ps.show_horizontal {
        let short = w / 5;
        let mid = ps.primary_h / 2;
        let y_over = mid - ps.line_spacing - ps.pos_y;
        let y_center = mid - ps.pos_y;
        let y_under = mid + ps.line_spacing - ps.pos_y;
        let ghost c = if visible(center_line_y(*ps), h) { full_line(w, center_line_y(*ps)) } else { Seq::empty() };
        let ghost o = if visible(over_line_y(*ps), h) { edge_marks(w, over_line_y(*ps)) } else { Seq::empty() };
        let ghost u = if visible(under_line_y(*ps), h) { edge_marks(w, under_line_y(*ps)) } else { Seq::empty() };
        if y_center >= 0 && y_center <= h {
            alignment.push(Segment { x1: 0, y1: y_center, x2: w, y2: y_center });
        }
        assert(alignment@ =~= c);
        if y_over >= 0 && y_over <= h {
            alignment.push(Segment { x1: 0, y1: y_over, x2: short, y2: y_over });
            alignment.push(Segment { x1: w - short, y1: y_over, x2: w, y2: y_over });
        }
        assert(alignment@ =~= c + o);
        if y_under >= 0 && y_under <= h {
            alignment.push(Segment { x1: 0, y1: y_under, x2: short, y2: y_under });
            alignment.push(Segment { x1: w - short, y1: y_under, x2: w, y2: y_under });
        }
        assert(alignment@ =~= c + o + u);
    }
    alignment
}

/// Plan what the overlay of `w` by `h` pixels paints for the state `ps`.
pub fn paint_plan(ps: &PaintState, w: i32, h: i32) -> (r: PaintPlan)
    requires
        ps.show_horizontal ==> lines_fit(*ps),
        ps.show_cursor ==> w >= i32::MIN + 160,
    ensures
        r.background == colorref(255, 255, 255),
        r.diagonal_color == opaque_argb(180, 180, 180),
        r.diagonal_width == 1,
        r.text_format == DT_RIGHT | DT_TOP | DT_SINGLELINE,
        r.text_background_mode == TRANSPARENT,
        r.line_color == opaque_argb(0, 0, 0),
        r.text_color == colorref(60, 60, 60),
        r.antialias == ps.antialiasing,
        r.diagonals@ == diagonal_segments(*ps, w, h),
        r.alignment@ == alignment_segments(*ps, w, h),
        r.line_thickness == ps.line_thickness,
        r.cursor_text == (if ps.show_cursor { Some(cursor_box(w)) } else { None::<Rect> }),
        forall|k: int|
            0 <= k < r.alignment@.len() ==> {
                let s = #[trigger] r.alignment@[k];
                let mid = if ps.primary_h >= 0 {
                    ps.primary_h / 2
                } else {
                    -((-ps.primary_h) / 2)
                };
                &&& s.y1 == s.y2
                &&& 0 <= s.y1 <= h
                &&& (s.y1 == mid - ps.pos_y || s.y1 == mid - ps.line_spacing - ps.pos_y || s.y1 == mid
                    + ps.line_spacing - ps.pos_y)
            },
        ({
            let mid = if ps.primary_h >= 0 {
                ps.primary_h / 2
            } else {
                -((-ps.primary_h) / 2)
            };
            ps.show_horizontal && 0 <= mid - ps.pos_y <= h ==> r.alignment@.contains(
                Segment { x1: 0, y1: (mid - ps.pos_y) as i32, x2: w, y2: (mid - ps.pos_y) as i32 },
            )
        }),
        !ps.show_horizontal ==> r.alignment@.len() == 0,
{
    let mut diagonals: Vec<Segment> = Vec::new();
    if ps.show_diagonal {
        diagonals.push(Segment { x1: 0, y1: 0, x2: w, y2: h });
        diagonals.push(Segment { x1: w, y1: 0, x2: 0, y2: h });
    }
    let alignment = alignment_of(ps, w, h);
    proof {
        if ps.show_horizontal {
            law_alignment_follows_primary(*ps, w, h);
        }
    }
    assert(diagonals@ =~= diagonal_segments(*ps, w, h));
    let cursor_text = if ps.show_cursor {
        Some(Rect { left: w - 160, top: 8, right: w - 8, bottom: 28 })
    } else {
        None
    };
    PaintPlan {
        background: rgb(255, 255, 255),
        diagonal_color: argb(180, 180, 180),
        diagonal_width: 1,
        text_format: DT_RIGHT | DT_TOP | DT_SINGLELINE,
        text_background_mode: TRANSPARENT,
        line_color: argb(0, 0, 0),
        text_color: rgb(60, 60, 60),
        antialias: ps.antialiasing,
        diagonals,
        alignment,
        line_thickness: ps.line_thickness,
        cursor_text,
    }
}

/// The cursor readout of an overlay: `x, y` in decimal.
pub fn cursor_label(x: i32, y: i32) -> (r: String)
    ensures
        r@ == decimal(x as int) + ", "@ + decimal(y as int),
{
    proof {
        reveal_strlit(", ");
    }
    let mut s = i32_text(x);
    s.append(", ");
    s.append(i32_text(y).as_str());
    s
}

/// The signed 16-bit number held in the 16 bits of `v` above `shift`.
pub open spec fn signed_word(v: int, shift: int) -> int {
    let word = (v / pow2_16(shift)) % 0x1_0000;
    if word >= 0x8000 {
        word - 0x1_0000
    } else {
        word
    }
}

/// `2 ** shift` for the two word positions used here.
pub open spec fn pow2_16(shift: int) -> int {
    if shift == 0 {
        1
    } else {
        0x1_0000
    }
}

/// The cursor position carried by a `WM_MOUSEMOVE` `lParam`: the low word is
/// the signed x coordinate, the next word the signed y coordinate.
pub fn cursor_from_lparam(lparam: isize) -> (r: (i32, i32))
    ensures
        r.0 == signed_word(lparam as int, 0),
        r.1 == signed_word(lparam as int, 16),
{
    let lo = (lparam & 0xFFFF) as u16;
    let hi = ((lparam >> 16) & 0xFFFF) as u16;
    let x = if lo >= 0x8000 { lo as i32 - 0x1_0000 } else { lo as i32 };
    let y = if hi >= 0x8000 { hi as i32 - 0x1_0000 } else { hi as i32 };
    assert((lparam & 0xFFFF) as u16 == ((lparam as int) % 0x1_0000)) by (bit_vector);
    assert(((lparam >> 16) & 0xFFFF) as u16 == ((lparam as int) / 0x1_0000) % 0x1_0000) by (bit_vector);
    (x, y)
}

/// The virtual-key code carried by a `WM_KEYDOWN` `wParam`: its low word.
pub fn key_from_wparam(wparam: usize) -> (vk: u32)
    ensures
        vk == wparam % 0x1_0000,
        vk < 0x1_0000,
{
    let vk = (wparam & 0xFFFF) as u32;
    assert(((wparam & 0xFFFF) as u32) == wparam % 0x1_0000) by (bit_vector);
    vk
}


/// Moving a monitor by `delta` and then by `-delta` puts it back where it was,
/// as long as the first move did not hit the limits of `i32`.
pub proof fn law_move_then_move_back(
    s0: AdjustSession,
    s1: AdjustSession,
    s2: AdjustSession,
    index: int,
    delta: i32,
)
    requires
        s0.wf(),
        0 <= index < s0.monitors@.len(),
        moved(s0, index, delta, s1),
        moved(s1, index, -delta as i32, s2),
        delta != i32::MIN,
        i32::MIN <= s0.working_y@[index] + delta <= i32::MAX,
    ensures
        s2.working_y@ == s0.working_y@,
        s2.monitors@ == s0.monitors@,
{
    if !s0.monitors@[index].primary {
        assert(s2.working_y@ =~= s0.working_y@);
    }
}

/// The primary monitor is the reference: whatever keys are pressed, its
/// working position stays where it was discovered.
pub proof fn law_primary_stays_in_place(s0: AdjustSession, s1: AdjustSession, index: int, delta: i32)
    requires
        s0.wf(),
        0 <= index < s0.monitors@.len(),
        forall|p: int|
            0 <= p < s0.monitors@.len() && (#[trigger] s0.monitors@[p]).primary ==> s0.working_y@[p]
                == s0.monitors@[p].y,
        moved(s0, index, delta, s1),
    ensures
        s1.wf(),
        forall|p: int|
            0 <= p < s1.monitors@.len() && (#[trigger] s1.monitors@[p]).primary ==> s1.working_y@[p]
                == s1.monitors@[p].y,
{
}

/// Moving a monitor down by `delta` moves the alignment lines on its overlay
/// up by `delta`, and leaves every other overlay as it was.
pub proof fn law_move_shifts_lines(s0: AdjustSession, s1: AdjustSession, index: int, delta: i32)
    requires
        s0.wf(),
        0 <= index < s0.monitors@.len(),
        !s0.monitors@[index].primary,
        moved(s0, index, delta, s1),
        i32::MIN <= s0.working_y@[index] + delta <= i32::MAX,
    ensures
        center_line_y(paint_state_of(s1, index)) == center_line_y(paint_state_of(s0, index)) - delta,
        over_line_y(paint_state_of(s1, index)) == over_line_y(paint_state_of(s0, index)) - delta,
        under_line_y(paint_state_of(s1, index)) == under_line_y(paint_state_of(s0, index)) - delta,
        forall|j: int|
            0 <= j < s0.monitors@.len() && j != index ==> #[trigger] paint_state_of(s1, j)
                == paint_state_of(s0, j),
{
}

/// Every alignment line is horizontal and lies on the overlay; the marks
/// above and below the centre line are `line_spacing` away from it.
pub proof fn law_alignment_lines_on_overlay(ps: PaintState, w: i32, h: i32)
    requires
        lines_fit(ps),
    ensures
        forall|k: int|
            0 <= k < alignment_segments(ps, w, h).len() ==> {
                let s = #[trigger] alignment_segments(ps, w, h)[k];
                &&& s.y1 == s.y2
                &&& 0 <= s.y1 <= h
            },
        center_line_y(ps) - over_line_y(ps) == ps.line_spacing,
        under_line_y(ps) - center_line_y(ps) == ps.line_spacing,
{
    let c = if visible(center_line_y(ps), h) { full_line(w, center_line_y(ps)) } else { Seq::empty() };
    let o = if visible(over_line_y(ps), h) { edge_marks(w, over_line_y(ps)) } else { Seq::empty() };
    let u = if visible(under_line_y(ps), h) { edge_marks(w, under_line_y(ps)) } else { Seq::empty() };
    if ps.show_horizontal {
        assert forall|k: int| 0 <= k < alignment_segments(ps, w, h).len() implies {
            let s = #[trigger] alignment_segments(ps, w, h)[k];
            &&& s.y1 == s.y2
            &&& 0 <= s.y1 <= h
        } by {
            assert(alignment_segments(ps, w, h) == c + o + u);
            if k < c.len() {
                assert(alignment_segments(ps, w, h)[k] == c[k]);
            } else if k < c.len() + o.len() {
                assert(alignment_segments(ps, w, h)[k] == o[k - c.len()]);
            } else {
                assert(alignment_segments(ps, w, h)[k] == u[k - c.len() - o.len()]);
            }
        }
    }
}


/// Where the fullscreen overlay of a monitor goes: exactly over the monitor,
/// at its virtual-screen position and pixel size.
pub fn overlay_placement(m: &Monitor) -> (r: WindowPlacement)
    ensures
        r == (WindowPlacement { x: m.x, y: m.y, width: m.width as i32, height: m.height as i32 }),
{
    WindowPlacement {
        x: m.x,
        y: m.y,
        width: #[verifier::truncate] (m.width as i32),
        height: #[verifier::truncate] (m.height as i32),
    }
}

/// The height read for the primary monitor is that of the first monitor
/// whose primary flag is set; it is 1080 only when no monitor is primary.
pub proof fn law_primary_height_is_first_primary(ms: Seq<Monitor>)
    ensures
        (forall|i: int| 0 <= i < ms.len() ==> !(#[trigger] ms[i]).primary) ==> primary_height(ms)
            == 1080,
        (exists|i: int| 0 <= i < ms.len() && (#[trigger] ms[i]).primary) ==> exists|j: int|
            0 <= j < ms.len() && (#[trigger] ms[j]).primary && (forall|k: int|
                0 <= k < j ==> !(#[trigger] ms[k]).primary) && primary_height(ms) == ms[j].height as i32,
    decreases ms.len(),
{
    if ms.len() > 0 {
        let t = ms.drop_first();
        law_primary_height_is_first_primary(t);
        if ms[0].primary {
            assert(ms[0].primary && primary_height(ms) == ms[0].height as i32);
        } else {
            if exists|i: int| 0 <= i < ms.len() && (#[trigger] ms[i]).primary {
                let i = choose|i: int| 0 <= i < ms.len() && (#[trigger] ms[i]).primary;
                assert(t[i - 1] == ms[i]);
                let j = choose|j: int|
                    0 <= j < t.len() && (#[trigger] t[j]).primary && (forall|k: int|
                        0 <= k < j ==> !(#[trigger] t[k]).primary) && primary_height(t) == t[j].height as i32;
                assert(ms[j + 1] == t[j]);
                assert forall|k: int| 0 <= k < j + 1 implies !(#[trigger] ms[k]).primary by {
                    if k > 0 {
                        assert(ms[k] == t[k - 1]);
                    }
                }
            } else {
                assert forall|i: int| 0 <= i < t.len() implies !(#[trigger] t[i]).primary by {
                    assert(t[i] == ms[i + 1]);
                }
            }
        }
    }
}

/// Every alignment line lies at the middle of the primary monitor as seen
/// from this monitor's working position, or `line_spacing` above or below
/// it, and on the overlay; the full-width line at the middle is there
/// whenever it falls on the overlay. The overlay's own height only decides
/// which lines are visible.
pub proof fn law_alignment_follows_primary(ps: PaintState, w: i32, h: i32)
    requires
        lines_fit(ps),
    ensures
        forall|k: int|
            0 <= k < alignment_segments(ps, w, h).len() ==> {
                let s = #[trigger] alignment_segments(ps, w, h)[k];
                let mid = if ps.primary_h >= 0 {
                    ps.primary_h / 2
                } else {
                    -((-ps.primary_h) / 2)
                };
                &&& s.y1 == s.y2
                &&& 0 <= s.y1 <= h
                &&& (s.y1 == mid - ps.pos_y || s.y1 == mid - ps.line_spacing - ps.pos_y || s.y1 == mid
                    + ps.line_spacing - ps.pos_y)
            },
        ({
            let mid = if ps.primary_h >= 0 {
                ps.primary_h / 2
            } else {
                -((-ps.primary_h) / 2)
            };
            ps.show_horizontal && 0 <= mid - ps.pos_y <= h ==> alignment_segments(ps, w, h).contains(
                Segment { x1: 0, y1: (mid - ps.pos_y) as i32, x2: w, y2: (mid - ps.pos_y) as i32 },
            )
        }),
        !ps.show_horizontal ==> alignment_segments(ps, w, h).len() == 0,
{
    let c = if visible(center_line_y(ps), h) { full_line(w, center_line_y(ps)) } else { Seq::empty() };
    let o = if visible(over_line_y(ps), h) { edge_marks(w, over_line_y(ps)) } else { Seq::empty() };
    let u = if visible(under_line_y(ps), h) { edge_marks(w, under_line_y(ps)) } else { Seq::empty() };
    if ps.show_horizontal {
        let a = alignment_segments(ps, w, h);
        assert(a == c + o + u);
        assert forall|k: int| 0 <= k < a.len() implies {
            let s = #[trigger] a[k];
            &&& s.y1 == s.y2
            &&& 0 <= s.y1 <= h
            &&& (s.y1 == center_line_y(ps) || s.y1 == over_line_y(ps) || s.y1 == under_line_y(ps))
        } by {
            if k < c.len() {
                assert(a[k] == c[k]);
            } else if k < c.len() + o.len() {
                assert(a[k] == o[k - c.len()]);
            } else {
                assert(a[k] == u[k - c.len() - o.len()]);
            }
        }
        if visible(center_line_y(ps), h) {
            assert(a[0] == c[0]);
        }
    }
}

/// Exactly the arrow keys Up and Down (0x26, 0x28) and the page keys Page
/// Up and Page Down (0x21, 0x22) move a monitor: Up by one pixel, Down by
/// minus one, Page Up by ten, Page Down by minus ten. No other key moves it.
pub proof fn law_move_keys(vk: u32)
    ensures
        key_step(vk) is Some <==> (vk == 0x26 || vk == 0x28 || vk == 0x21 || vk == 0x22),
        vk == 0x26 ==> key_step(vk) == Some(1i32),
        vk == 0x28 ==> key_step(vk) == Some(-1i32),
        vk == 0x21 ==> key_step(vk) == Some(10i32),
        vk == 0x22 ==> key_step(vk) == Some(-10i32),
{
}

} // verus!
