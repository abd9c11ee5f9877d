use hw_monitor_alignment::monitor::{Monitor, Orientation, sort_by_position};

fn mon(name: &str, x: i32, y: i32, width: u32, height: u32, primary: bool) -> Monitor {
    Monitor {
        device_name: name.to_string(),
        monitor_name: "Generic PnP Monitor".to_string(),
        friendly_monitor_name: "DELL U2720Q".to_string(),
        display_adapter: "NVIDIA GeForce RTX 3080".to_string(),
        width,
        height,
        x,
        y,
        orientation: Orientation::Landscape,
        primary,
    }
}

#[test]
fn orientation_from_dmdo_values() {
    assert_eq!(Orientation::from_dmdo(0), Orientation::Landscape);
    assert_eq!(Orientation::from_dmdo(1), Orientation::Portrait);
    assert_eq!(Orientation::from_dmdo(2), Orientation::FlippedLandscape);
    assert_eq!(Orientation::from_dmdo(3), Orientation::FlippedPortrait);
    assert_eq!(Orientation::from_dmdo(4), Orientation::Landscape);
    assert_eq!(Orientation::from_dmdo(u32::MAX), Orientation::Landscape);
}

#[test]
fn orientation_labels() {
    assert_eq!(Orientation::Landscape.label(), "Landscape");
    assert_eq!(Orientation::Portrait.label(), "Portrait");
    assert_eq!(Orientation::FlippedLandscape.label(), "Landscape (flipped)");
    assert_eq!(Orientation::FlippedPortrait.label(), "Portrait (flipped)");
}

#[test]
fn orientation_default_is_landscape() {
    assert_eq!(Orientation::default(), Orientation::Landscape);
}

#[test]
fn monitor_clone_keeps_every_field() {
    let m = mon("\\\\.\\DISPLAY2", -1920, 120, 1920, 1080, false);
    let c = m.clone();
    assert_eq!(c.device_name, m.device_name);
    assert_eq!(c.monitor_name, m.monitor_name);
    assert_eq!(c.friendly_monitor_name, m.friendly_monitor_name);
    assert_eq!(c.display_adapter, m.display_adapter);
    assert_eq!((c.x, c.y, c.width, c.height, c.primary), (m.x, m.y, m.width, m.height, m.primary));
    assert_eq!(c.orientation, m.orientation);
}

#[test]
fn sort_orders_by_x_then_y() {
    let ms = vec![
        mon("C", 1920, 0, 1920, 1080, false),
        mon("A", -1920, 300, 1920, 1080, false),
        mon("B", 0, 0, 2560, 1440, true),
        mon("D", 1920, -1080, 1920, 1080, false),
    ];
    let sorted = sort_by_position(&ms);
    let names: Vec<&str> = sorted.iter().map(|m| m.device_name.as_str()).collect();
    assert_eq!(names, vec!["A", "B", "D", "C"]);
}

#[test]
fn sort_keeps_equal_positions_in_order() {
    let ms = vec![
        mon("first", 0, 0, 100, 100, false),
        mon("second", 0, 0, 100, 100, false),
        mon("left", -5, 0, 100, 100, false),
    ];
    let sorted = sort_by_position(&ms);
    let names: Vec<&str> = sorted.iter().map(|m| m.device_name.as_str()).collect();
    assert_eq!(names, vec!["left", "first", "second"]);
}

#[test]
fn sort_of_nothing_is_nothing() {
    assert!(sort_by_position(&Vec::new()).is_empty());
}
