use hw_monitor_alignment::gdiplus::{SmoothingMode, Unit, smoothing_mode, unit_pixel};
use hw_monitor_alignment::hello::HelloRust;
use hw_monitor_alignment::monitor::{Monitor, Orientation};
use hw_monitor_alignment::overlay::{
    KeyOutcome, Rect, Segment, VK_DOWN, VK_ESCAPE, VK_NEXT, VK_PRIOR, VK_UP, argb,
    collect_positions, cursor_from_lparam, handle_key, key_from_wparam, move_monitor,
    cursor_label, overlay_placement, overlay_windows, paint_plan, read_paint_state, register_overlays, rgb,
    stop_all, PaintState,
};
use hw_monitor_alignment::state::{AdjustSession, OverlaySettings};
use hw_monitor_alignment::window_style::WindowPlacement;

fn mon(name: &str, x: i32, y: i32, width: u32, height: u32, primary: bool) -> Monitor {
    Monitor {
        device_name: name.to_string(),
        monitor_name: String::new(),
        friendly_monitor_name: String::new(),
        display_adapter: String::new(),
        width,
        height,
        x,
        y,
        orientation: Orientation::Landscape,
        primary,
    }
}

fn session() -> AdjustSession {
    AdjustSession::new(vec![
        mon("\\\\.\\DISPLAY1", 0, 0, 2560, 1440, true),
        mon("\\\\.\\DISPLAY2", 2560, 200, 1920, 1080, false),
    ])
}

#[test]
fn default_settings() {
    let s = OverlaySettings::default();
    assert!(!s.show_diagonal_lines);
    assert!(s.show_horizontal_lines);
    assert!(s.show_info_box);
    assert!(!s.show_cursor_position);
    assert!(!s.antialiasing);
    assert_eq!(s.line_spacing, 100);
    assert_eq!(s.line_thickness, 3);
}

#[test]
fn new_session_starts_at_discovered_positions() {
    let s = session();
    assert_eq!(s.working_y, vec![0, 200]);
    assert_eq!(s.version, 0);
    assert!(!s.stop_requested);
    assert!(s.hwnd_list.is_empty());
    assert!(s.info_box_hwnds.is_empty());
    let shown = s.monitors_with_working_y();
    assert_eq!(shown.len(), 2);
    assert_eq!((shown[0].x, shown[0].y), (0, 0));
    assert_eq!((shown[1].x, shown[1].y), (2560, 200));
}

#[test]
fn moving_the_primary_monitor_does_nothing() {
    let mut s = session();
    register_overlays(&mut s, vec![11, 22]);
    let repaint = move_monitor(&mut s, 0, 10);
    assert_eq!(repaint, vec![11, 22]);
    assert_eq!(s.working_y, vec![0, 200]);
    assert_eq!(s.version, 0);
}

#[test]
fn moving_another_monitor_changes_its_working_position() {
    let mut s = session();
    move_monitor(&mut s, 1, -10);
    assert_eq!(s.working_y, vec![0, 190]);
    assert_eq!(s.version, 1);
    let shown = s.monitors_with_working_y();
    assert_eq!(shown[1].y, 190);
    assert_eq!(s.monitors[1].y, 200);
}

#[test]
fn moves_saturate_and_version_wraps() {
    let mut s = session();
    s.working_y[1] = i32::MAX - 5;
    s.version = u64::MAX;
    move_monitor(&mut s, 1, 10);
    assert_eq!(s.working_y[1], i32::MAX);
    assert_eq!(s.version, 0);
    s.working_y[1] = i32::MIN + 3;
    move_monitor(&mut s, 1, -10);
    assert_eq!(s.working_y[1], i32::MIN);
}

#[test]
fn up_then_down_returns_to_start() {
    let mut s = session();
    move_monitor(&mut s, 1, 1);
    move_monitor(&mut s, 1, -1);
    assert_eq!(s.working_y, vec![0, 200]);
    assert_eq!(s.version, 2);
}

#[test]
fn rollback_restores_discovered_positions() {
    let mut s = session();
    move_monitor(&mut s, 1, 10);
    move_monitor(&mut s, 1, 10);
    s.rollback();
    assert_eq!(s.working_y, vec![0, 200]);
    assert_eq!(s.version, 2);
}

#[test]
fn keys_drive_the_session() {
    let mut s = session();
    register_overlays(&mut s, vec![7]);
    assert!(matches!(handle_key(&mut s, 1, VK_UP), KeyOutcome::Repaint(ref w) if *w == vec![7]));
    assert_eq!(s.working_y[1], 201);
    assert!(matches!(handle_key(&mut s, 1, VK_DOWN), KeyOutcome::Repaint(_)));
    assert_eq!(s.working_y[1], 200);
    assert!(matches!(handle_key(&mut s, 1, VK_PRIOR), KeyOutcome::Repaint(_)));
    assert_eq!(s.working_y[1], 210);
    assert!(matches!(handle_key(&mut s, 1, VK_NEXT), KeyOutcome::Repaint(_)));
    assert_eq!(s.working_y[1], 200);
    assert!(matches!(handle_key(&mut s, 1, 0x41), KeyOutcome::Ignored));
    assert_eq!(s.version, 4);
    assert!(matches!(handle_key(&mut s, 1, VK_ESCAPE), KeyOutcome::CloseWindows(ref w) if *w == vec![7]));
    assert!(s.stop_requested);
    assert_eq!(s.version, 5);
}

#[test]
fn stop_all_marks_the_session() {
    let mut s = session();
    register_overlays(&mut s, vec![3, 4]);
    let close = stop_all(&mut s);
    assert_eq!(close, vec![3, 4]);
    assert!(s.stop_requested);
    assert_eq!(s.version, 1);
    assert_eq!(overlay_windows(&s), vec![3, 4]);
}

#[test]
fn positions_are_collected_with_working_y() {
    let mut s = session();
    move_monitor(&mut s, 1, 5);
    let p = collect_positions(&s);
    assert_eq!(p, vec![("\\\\.\\DISPLAY1".to_string(), 0, 0), ("\\\\.\\DISPLAY2".to_string(), 2560, 205)]);
}

#[test]
fn paint_state_uses_primary_height() {
    let mut s = session();
    move_monitor(&mut s, 1, 3);
    let ps = read_paint_state(&s, 1);
    assert_eq!(ps.primary_h, 1440);
    assert_eq!(ps.pos_y, 203);
    assert!(ps.show_horizontal);
    assert!(!ps.show_diagonal);
    assert_eq!(ps.line_spacing, 100);
    assert_eq!(ps.line_thickness, 3);
}

#[test]
fn paint_state_falls_back_without_primary() {
    let s = AdjustSession::new(vec![mon("a", 0, 0, 800, 600, false)]);
    assert_eq!(read_paint_state(&s, 0).primary_h, 1080);
}

fn state(pos_y: i32) -> PaintState {
    PaintState {
        primary_h: 1080,
        pos_y,
        show_diagonal: true,
        show_horizontal: true,
        show_cursor: true,
        antialiasing: true,
        line_spacing: 100,
        line_thickness: 3,
    }
}

#[test]
fn paint_plan_of_an_aligned_monitor() {
    let plan = paint_plan(&state(0), 1920, 1080);
    assert!(plan.antialias);
    assert_eq!(plan.line_thickness, 3);
    assert_eq!(
        plan.diagonals,
        vec![
            Segment { x1: 0, y1: 0, x2: 1920, y2: 1080 },
            Segment { x1: 1920, y1: 0, x2: 0, y2: 1080 },
        ]
    );
    assert_eq!(
        plan.alignment,
        vec![
            Segment { x1: 0, y1: 540, x2: 1920, y2: 540 },
            Segment { x1: 0, y1: 440, x2: 384, y2: 440 },
            Segment { x1: 1536, y1: 440, x2: 1920, y2: 440 },
            Segment { x1: 0, y1: 640, x2: 384, y2: 640 },
            Segment { x1: 1536, y1: 640, x2: 1920, y2: 640 },
        ]
    );
    assert_eq!(plan.cursor_text, Some(Rect { left: 1760, top: 8, right: 1912, bottom: 28 }));
    assert_eq!(plan.background, 0x00FF_FFFF);
    assert_eq!(plan.diagonal_color, 0xFFB4_B4B4);
    assert_eq!(plan.line_color, 0xFF00_0000);
    assert_eq!(plan.text_color, 0x003C_3C3C);
    assert_eq!(plan.diagonal_width, 1);
    assert_eq!(plan.text_format, 0x22);
    assert_eq!(plan.text_background_mode, 1);
}

#[test]
fn cursor_readout_text() {
    assert_eq!(cursor_label(5, 20), "5, 20");
    assert_eq!(cursor_label(-1920, 0), "-1920, 0");
    assert_eq!(cursor_label(i32::MIN, i32::MAX), "-2147483648, 2147483647");
}

#[test]
fn paint_plan_drops_lines_off_the_overlay() {
    let plan = paint_plan(&state(500), 1920, 1080);
    assert_eq!(plan.alignment, vec![Segment { x1: 0, y1: 40, x2: 1920, y2: 40 }, Segment { x1: 0, y1: 140, x2: 384, y2: 140 }, Segment { x1: 1536, y1: 140, x2: 1920, y2: 140 }]);
    let mut hidden = state(0);
    hidden.show_horizontal = false;
    hidden.show_diagonal = false;
    hidden.show_cursor = false;
    let plan = paint_plan(&hidden, 1920, 1080);
    assert!(plan.alignment.is_empty());
    assert!(plan.diagonals.is_empty());
    assert_eq!(plan.cursor_text, None);
}

#[test]
fn colours() {
    assert_eq!(rgb(1, 2, 3), 0x0003_0201);
    assert_eq!(rgb(255, 255, 255), 0x00FF_FFFF);
    assert_eq!(argb(1, 2, 3), 0xFF01_0203);
    assert_eq!(argb(0, 0, 0), 0xFF00_0000);
    assert_eq!(argb(180, 180, 180), 0xFFB4_B4B4);
}

#[test]
fn cursor_words() {
    assert_eq!(cursor_from_lparam(0x0014_0005), (5, 20));
    assert_eq!(cursor_from_lparam(((0xFFFFisize) << 16) | 0xFFFE), (-2, -1));
    assert_eq!(cursor_from_lparam(0x8000), (-32768, 0));
    assert_eq!(key_from_wparam(0x1_0026), 0x26);
}

#[test]
fn overlay_covers_its_monitor() {
    let m = mon("x", -1920, 35, 1920, 1200, false);
    assert_eq!(overlay_placement(&m), WindowPlacement { x: -1920, y: 35, width: 1920, height: 1200 });
}

#[test]
fn gdiplus_values() {
    assert_eq!(smoothing_mode(true), SmoothingMode(4));
    assert_eq!(smoothing_mode(false), SmoothingMode(3));
    assert_eq!(unit_pixel(), Unit(2));
}

#[test]
fn hello_has_no_state() {
    let _h: HelloRust = HelloRust::default();
}
