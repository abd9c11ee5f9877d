use hw_monitor_alignment::discover::{
    DisplayDevice, DisplaySettings, MonitorCandidate, is_desktop_monitor, monitors_from_candidates,
};
use hw_monitor_alignment::friendly::{
    FriendlyNames, TargetName, friendly_names_from_targets, string_from_utf16_lossy, trim,
    wstr_to_string,
};
use hw_monitor_alignment::monitor::Orientation;

fn wide(s: &str, pad: usize) -> Vec<u16> {
    let mut v: Vec<u16> = s.encode_utf16().collect();
    v.extend(std::iter::repeat(0).take(pad));
    v
}

#[test]
fn trim_drops_trailing_nuls_only() {
    assert_eq!(trim(&[65, 0, 66, 0, 0]), &[65, 0, 66]);
    assert_eq!(trim(&[0, 0]), &[] as &[u16]);
    assert_eq!(trim(&[]), &[] as &[u16]);
    assert_eq!(trim(&[7]), &[7]);
}

#[test]
fn utf16_decoding() {
    assert_eq!(string_from_utf16_lossy(&[0x48, 0x69]), "Hi");
    assert_eq!(string_from_utf16_lossy(&[0xD83D, 0xDE00]), "\u{1F600}");
    assert_eq!(string_from_utf16_lossy(&[0xD800]), "\u{FFFD}");
    assert_eq!(string_from_utf16_lossy(&[0xD800, 0x41]), "\u{FFFD}A");
    assert_eq!(string_from_utf16_lossy(&[0xDC00, 0xD800]), "\u{FFFD}\u{FFFD}");
    assert_eq!(string_from_utf16_lossy(&[]), "");
    assert_eq!(wstr_to_string(&wide("DELL U2720Q", 20)), "DELL U2720Q");
    assert_eq!(wstr_to_string(&[0, 0, 0]), "");
}

fn target(status: i32, path: &str, name: &str) -> TargetName {
    TargetName {
        status,
        monitor_device_path: wide(path, 8),
        monitor_friendly_device_name: wide(name, 8),
    }
}

#[test]
fn friendly_names_mapping() {
    let names = friendly_names_from_targets(&vec![
        target(0, "\\\\?\\DISPLAY#DEL#1", "DELL U2720Q"),
        target(31, "\\\\?\\DISPLAY#LG#2", "LG ULTRAGEAR"),
        target(0, "", "Nameless"),
        target(0, "\\\\?\\DISPLAY#SAM#3", "Odyssey"),
        target(0, "\\\\?\\DISPLAY#DEL#1", "DELL again"),
    ]);
    assert_eq!(names.get(&"\\\\?\\DISPLAY#DEL#1".to_string()), Some("DELL again".to_string()));
    assert_eq!(names.get(&"\\\\?\\DISPLAY#SAM#3".to_string()), Some("Odyssey".to_string()));
    assert_eq!(names.get(&"\\\\?\\DISPLAY#LG#2".to_string()), None);
    assert_eq!(names.get(&String::new()), None);
    assert_eq!(FriendlyNames::new().get(&"x".to_string()), None);
}

#[test]
fn desktop_monitor_flags() {
    assert!(is_desktop_monitor(0x1));
    assert!(is_desktop_monitor(0x1 | 0x2 | 0x4));
    assert!(!is_desktop_monitor(0x1 | 0x8));
    assert!(!is_desktop_monitor(0x0));
    assert!(!is_desktop_monitor(0x8));
}

fn device(name: &str, string: &str, flags: u32, id: &str) -> DisplayDevice {
    DisplayDevice {
        device_name: wide(name, 4),
        device_string: wide(string, 4),
        state_flags: flags,
        device_id: wide(id, 128 - id.encode_utf16().count()),
    }
}

fn settings(x: i32, y: i32, orientation: u32) -> Option<DisplaySettings> {
    Some(DisplaySettings { width: 1920, height: 1080, x, y, orientation })
}

#[test]
fn candidates_become_the_monitor_list() {
    let names = friendly_names_from_targets(&vec![target(0, "MONITOR\\DEL", "DELL U2720Q")]);
    let cands = vec![
        MonitorCandidate {
            adapter: device("\\\\.\\DISPLAY1", "Radeon", 0x1 | 0x4, ""),
            monitor: device("\\\\.\\DISPLAY1\\Monitor0", "Generic", 0x1, "MONITOR\\DEL"),
            settings: settings(0, 0, 0),
        },
        MonitorCandidate {
            adapter: device("\\\\.\\DISPLAY2", "Radeon", 0x1, ""),
            monitor: device("\\\\.\\DISPLAY2\\Monitor0", "Generic", 0x1, "MONITOR\\LG"),
            settings: settings(-1920, 100, 1),
        },
        MonitorCandidate {
            adapter: device("\\\\.\\DISPLAY3", "Mirror", 0x1, ""),
            monitor: device("\\\\.\\DISPLAY3\\Monitor0", "Mirror", 0x1 | 0x8, "X"),
            settings: settings(5000, 0, 0),
        },
        MonitorCandidate {
            adapter: device("\\\\.\\DISPLAY4", "Radeon", 0x1, ""),
            monitor: device("\\\\.\\DISPLAY4\\Monitor0", "Generic", 0x1, "Y"),
            settings: None,
        },
    ];
    let ms = monitors_from_candidates(&cands, &names);
    assert_eq!(ms.len(), 2);
    assert_eq!(ms[0].device_name, "\\\\.\\DISPLAY2\0\0\0\0");
    assert_eq!((ms[0].x, ms[0].y), (-1920, 100));
    assert_eq!(ms[0].orientation, Orientation::Portrait);
    assert!(!ms[0].primary);
    assert_eq!(ms[0].friendly_monitor_name, "");
    assert_eq!(ms[1].device_name, "\\\\.\\DISPLAY1\0\0\0\0");
    assert_eq!(ms[1].display_adapter, "Radeon\0\0\0\0");
    assert_eq!(ms[1].monitor_name, "Generic\0\0\0\0");
    assert_eq!(ms[1].friendly_monitor_name, "DELL U2720Q");
    assert_eq!(cands[0].monitor.device_id.len(), 128);
    assert_eq!((ms[1].width, ms[1].height), (1920, 1080));
    assert!(ms[1].primary);
}
