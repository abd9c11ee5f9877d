use hw_monitor_alignment::info_panel::{info_panel, monitor_box};
use hw_monitor_alignment::main_window::{Command, MainWindow, Message, PollOutcome};
use hw_monitor_alignment::monitor::{Monitor, Orientation};
use hw_monitor_alignment::overlay::{move_monitor, stop_all};
use hw_monitor_alignment::overview::{Overview, index_from_device_name, overview_canvas};
use hw_monitor_alignment::state::AdjustSession;
use hw_monitor_alignment::text::{i32_text, u32_text};
use hw_monitor_alignment::window_style::{
    WindowPlacement, choose_dpi, fixed_style, resize_placement,
};

fn mon(name: &str, x: i32, y: i32, width: u32, height: u32, primary: bool) -> Monitor {
    Monitor {
        device_name: name.to_string(),
        monitor_name: "Generic PnP Monitor".to_string(),
        friendly_monitor_name: "LG ULTRAGEAR".to_string(),
        display_adapter: "Intel(R) UHD Graphics".to_string(),
        width,
        height,
        x,
        y,
        orientation: Orientation::Portrait,
        primary,
    }
}

#[test]
fn device_index_examples() {
    assert_eq!(index_from_device_name("\\\\.\\DISPLAY1"), "1");
    assert_eq!(index_from_device_name("\\\\.\\DISPLAY12"), "12");
    assert_eq!(index_from_device_name("\\\\.\\DISPLAY"), "");
    assert_eq!(index_from_device_name("\\\\.\\DISPLAY3\0\0"), "3\0\0");
    assert_eq!(index_from_device_name("DISPLAY1"), "?");
    assert_eq!(index_from_device_name(""), "?");
    assert_eq!(index_from_device_name("\\\\.\\DISPLAz1"), "?");
}

#[test]
fn overview_of_two_monitors() {
    let ms = vec![
        mon("\\\\.\\DISPLAY1", 0, 0, 2560, 1440, true),
        mon("\\\\.\\DISPLAY2", -1920, 300, 1920, 1080, false),
    ];
    let Overview::Scene(layout) = overview_canvas(&ms) else {
        panic!("expected something to draw");
    };
    assert_eq!(layout.total_width, 4480);
    assert_eq!(layout.total_height, 1440);
    assert_eq!(layout.tiles.len(), 2);
    let a = &layout.tiles[0];
    assert_eq!((a.left, a.top, a.width, a.height), (1920, 0, 2560, 1440));
    assert_eq!(a.fill, (70, 130, 180));
    assert_eq!(a.label, "1");
    assert_eq!(a.border, (235, 235, 235));
    assert_eq!(a.label_color, (245, 245, 245));
    let b = &layout.tiles[1];
    assert_eq!((b.left, b.top, b.width, b.height), (0, 300, 1920, 1080));
    assert_eq!(b.fill, (130, 130, 140));
    assert_eq!(b.label, "2");
}

#[test]
fn overview_is_the_same_after_moving_everything() {
    let ms = vec![mon("a", 0, 0, 100, 50, true), mon("b", 100, 20, 80, 40, false)];
    let moved = vec![mon("a", -500, 300, 100, 50, true), mon("b", -400, 320, 80, 40, false)];
    let (Overview::Scene(p), Overview::Scene(q)) = (overview_canvas(&ms), overview_canvas(&moved)) else {
        panic!("expected something to draw");
    };
    assert_eq!((p.total_width, p.total_height), (q.total_width, q.total_height));
    for (s, t) in p.tiles.iter().zip(q.tiles.iter()) {
        assert_eq!((s.left, s.top), (t.left, t.top));
    }
}

#[test]
fn overview_of_nothing() {
    let gray = |o: Overview| matches!(o, Overview::Empty { background: (100, 100, 100) });
    assert!(gray(overview_canvas(&Vec::new())));
    assert!(gray(overview_canvas(&vec![mon("x", 5, 5, 0, 100, true)])));
    assert!(gray(overview_canvas(&vec![mon("x", 5, 5, 100, 0, true)])));
}

#[test]
fn decimal_text() {
    assert_eq!(u32_text(0), "0");
    assert_eq!(u32_text(1920), "1920");
    assert_eq!(u32_text(u32::MAX), "4294967295");
    assert_eq!(i32_text(-5), "-5");
    assert_eq!(i32_text(300), "300");
    assert_eq!(i32_text(i32::MIN), "-2147483648");
    assert_eq!(i32_text(i32::MAX), "2147483647");
}

#[test]
fn information_box_fields() {
    let m = mon("\\\\.\\DISPLAY2", -1920, 300, 1080, 1920, false);
    let info = monitor_box(&m);
    assert_eq!(info.key, "\\\\.\\DISPLAY2");
    assert_eq!(info.title, "Monitor Information");
    let fields = info.fields;
    let pairs: Vec<(&str, &str)> = fields.iter().map(|f| (f.caption, f.value.as_str())).collect();
    assert_eq!(
        pairs,
        vec![
            ("DEVICE NAME:", "\\\\.\\DISPLAY2"),
            ("MONITOR NAME:", "Generic PnP Monitor"),
            ("FRIENDLY MONITOR NAME:", "LG ULTRAGEAR"),
            ("DISPLAY ADAPTER:", "Intel(R) UHD Graphics"),
            ("SCREEN RESOLUTION:", "1080x1920"),
            ("VIRTUAL SCREEN POSITION:", "(-1920, 300)"),
            ("ORIENTATION:", "Portrait"),
            ("IS PRIMARY:", "False"),
        ]
    );
}

#[test]
fn information_panel_is_ordered_left_to_right() {
    let ms = vec![mon("right", 100, 0, 10, 10, true), mon("left", -100, 0, 10, 10, false)];
    let panel = info_panel(&ms);
    assert_eq!(panel.title, "Monitor Setup Information");
    let boxes = panel.boxes;
    assert_eq!(boxes.len(), 2);
    assert_eq!(boxes[0].key, "left");
    assert_eq!(boxes[1].key, "right");
    assert_eq!(boxes[1].title, "Monitor Information");
    assert_eq!(boxes[1].fields[7].value, "True");
}

#[test]
fn fixed_window_style() {
    assert_eq!(fixed_style(0x14CF_0000), 0x14CA_0000);
    assert_eq!(fixed_style(0x0005_0000), 0);
    assert_eq!(fixed_style(0x9000_0000), 0x9000_0000);
}

#[test]
fn dpi_choice() {
    assert_eq!(choose_dpi(144, 96), 144);
    assert_eq!(choose_dpi(0, 120), 120);
    assert_eq!(choose_dpi(0, 0), 96);
}

#[test]
fn resize_keeps_window_position() {
    assert_eq!(
        resize_placement(100, 50, 950, 800),
        WindowPlacement { x: 100, y: 50, width: 800, height: 900 }
    );
    assert_eq!(
        resize_placement(100, 50, 950, 401),
        WindowPlacement { x: 100, y: 50, width: 401, height: 900 }
    );
}

#[test]
fn main_window_messages() {
    let ms = vec![mon("a", 0, 0, 10, 10, true)];
    let mut w = MainWindow::create(ms);
    assert_eq!(w.display_monitors.len(), 1);
    assert_eq!(w.toggle_caption(), "Adjust");
    assert_eq!(w.update(Message::ShowAbout(true)), Command::Nothing);
    assert!(w.show_about);
    assert_eq!(w.update(Message::ShowAbout(false)), Command::Nothing);
    assert!(!w.show_about);
    assert_eq!(w.update(Message::ToggleAdjusting), Command::StartAdjusting);
    assert_eq!(w.adjusting, Some(0));
    assert_eq!(w.toggle_caption(), "Stop");
    assert_eq!(w.update(Message::Poll), Command::PollSession);
    assert_eq!(w.update(Message::Close), Command::RequestClose);
    assert_eq!(w.update(Message::ToggleAdjusting), Command::StopAdjusting);
    assert_eq!(w.adjusting, None);
}

#[test]
fn polling_follows_the_session() {
    let ms = vec![mon("a", 0, 0, 10, 10, true), mon("b", 10, 40, 10, 10, false)];
    let mut w = MainWindow::create(ms.clone());
    let mut s = AdjustSession::new(ms);
    assert!(matches!(w.poll(&s), PollOutcome::Idle));
    w.update(Message::ToggleAdjusting);
    assert!(matches!(w.poll(&s), PollOutcome::Unchanged));
    move_monitor(&mut s, 1, -4);
    match w.poll(&s) {
        PollOutcome::Refresh(shown) => assert_eq!(shown[1].y, 36),
        _ => panic!("expected a refresh"),
    }
    assert_eq!(w.display_monitors[1].y, 36);
    assert_eq!(w.adjusting, Some(1));
    assert!(matches!(w.poll(&s), PollOutcome::Unchanged));
    stop_all(&mut s);
    assert!(matches!(w.poll(&s), PollOutcome::Stop));
    assert_eq!(w.adjusting, None);
    w.show_monitors(vec![mon("fresh", 0, 0, 10, 10, true)]);
    assert_eq!(w.display_monitors[0].device_name, "fresh");
}
