//! Turning what the display-enumeration API reports into the monitor list.

use vstd::prelude::*;

use crate::friendly::{
    FriendlyNames,
    friendly_names_contents,
    string_from_utf16_lossy,
    utf16_lossy,
    wide_text,
    wstr_to_string,
};
use crate::monitor::{
    Monitor,
    Orientation,
    orientation_of_dmdo,
    sort_by_position,
    sorted_by_position,
    stable_reordering,
};

verus! {

/// `StateFlags` bit: the device is part of the desktop.
pub const DISPLAY_DEVICE_ATTACHED_TO_DESKTOP: u32 = 0x1;

/// `StateFlags` bit: the device is the primary display.
pub const DISPLAY_DEVICE_PRIMARY_DEVICE: u32 = 0x4;

/// `StateFlags` bit: the device is a mirroring pseudo-device.
pub const DISPLAY_DEVICE_MIRRORING_DRIVER: u32 = 0x8;

/// The fields of a `DISPLAY_DEVICEW` that are read: the NUL-padded wide
/// strings as they were filled in, and the state flags.
pub struct DisplayDevice {
    pub device_name: Vec<u16>,
    pub device_string: Vec<u16>,
    pub state_flags: u32,
    pub device_id: Vec<u16>,
}

/// The fields of a `DEVMODEW` that are read: resolution, position on the
/// virtual screen and `dmDisplayOrientation`.
pub struct DisplaySettings {
    pub width: u32,
    pub height: u32,
    pub x: i32,
    pub y: i32,
    pub orientation: u32,
}

/// A monitor found on a display adapter, with the registry settings of the
/// adapter when they could be read.
pub struct MonitorCandidate {
    pub adapter: DisplayDevice,
    pub monitor: DisplayDevice,
    pub settings: Option<DisplaySettings>,
}

/// The monitor is attached to the desktop and is not a mirroring driver.
pub open spec fn shows_desktop(state_flags: u32) -> bool {
    state_flags & DISPLAY_DEVICE_ATTACHED_TO_DESKTOP != 0 && state_flags
        & DISPLAY_DEVICE_MIRRORING_DRIVER == 0
}

/// The monitor is attached to the desktop and is not a mirroring driver;
/// only such monitors have their settings read and are listed.
pub fn is_desktop_monitor(state_flags: u32) -> (r: bool)
    ensures
        r == shows_desktop(state_flags),
{
    let is_attached = (state_flags & DISPLAY_DEVICE_ATTACHED_TO_DESKTOP) != 0;
    let is_mirroring = (state_flags & DISPLAY_DEVICE_MIRRORING_DRIVER) != 0;
    is_attached && !is_mirroring
}

/// The candidate becomes a monitor of the list.
pub open spec fn listed(c: MonitorCandidate) -> bool {
    shows_desktop(c.monitor.state_flags) && c.settings is Some
}

/// The friendly name recorded for a device path, or the empty text. The
/// device path of a monitor is its `DeviceID` without the NUL padding.
pub open spec fn friendly_text(names: FriendlyNames, device_id: Seq<char>) -> Seq<char> {
    if friendly_names_contents(names).contains_key(device_id) {
        friendly_names_contents(names)[device_id]
    } else {
        Seq::empty()
    }
}

/// `m` is the monitor that a listed candidate describes.
pub open spec fn built_from(m: Monitor, c: MonitorCandidate, names: FriendlyNames) -> bool {
    let s = c.settings->0;
    &&& m.device_name@ == utf16_lossy(c.adapter.device_name@)
    &&& m.monitor_name@ == utf16_lossy(c.monitor.device_string@)
    &&& m.friendly_monitor_name@ == friendly_text(names, wide_text(c.monitor.device_id@))
    &&& m.display_adapter@ == utf16_lossy(c.adapter.device_string@)
    &&& m.width == s.width
    &&& m.height == s.height
    &&& m.x == s.x
    &&& m.y == s.y
    &&& m.orientation == orientation_of_dmdo(s.orientation)
    &&& m.primary == (c.adapter.state_flags & DISPLAY_DEVICE_PRIMARY_DEVICE != 0)
}

/// The positions, in order, of the candidates that are listed.
pub open spec fn listed_indices(cands: Seq<MonitorCandidate>) -> Seq<int>
    decreases cands.len(),
{
    if cands.len() == 0 {
        Seq::empty()
    } else if listed(cands.last()) {
        listed_indices(cands.drop_last()).push(cands.len() - 1)
    } else {
        listed_indices(cands.drop_last())
    }
}

/// Build the monitor a listed candidate describes.
pub fn monitor_from_candidate(c: &MonitorCandidate, names: &FriendlyNames) -> (m: Monitor)
    requires
        listed(*c),
    ensures
        built_from(m, *c, *names),
        m.width == c.settings->0.width,
        m.height == c.settings->0.height,
        m.x == c.settings->0.x,
        m.y == c.settings->0.y,
{
    let s = c.settings.as_ref().unwrap();
    let device_id = wstr_to_string(c.monitor.device_id.as_slice());
    let friendly_monitor_name = match names.get(&device_id) {
        Some(f) => f,
        None => String::new(),
    };
    Monitor {
        device_name: string_from_utf16_lossy(c.adapter.device_name.as_slice()),
        monitor_name: string_from_utf16_lossy(c.monitor.device_string.as_slice()),
        friendly_monitor_name,
        display_adapter: string_from_utf16_lossy(c.adapter.device_string.as_slice()),
        width: s.width,
        height: s.height,
        x: s.x,
        y: s.y,
        orientation: Orientation::from_dmdo(s.orientation),
        primary: (c.adapter.state_flags & DISPLAY_DEVICE_PRIMARY_DEVICE) != 0,
    }
}

proof fn lemma_listed_indices_bounds(cands: Seq<MonitorCandidate>)
    ensures
        forall|k: int|
            0 <= k < listed_indices(cands).len() ==> 0 <= #[trigger] listed_indices(cands)[k]
                < cands.len() && listed(cands[listed_indices(cands)[k]]),
    decreases cands.len(),
{
    if cands.len() > 0 {
        let t = cands.drop_last();
        lemma_listed_indices_bounds(t);
        assert forall|k: int| 0 <= k < listed_indices(cands).len() implies 0
            <= #[trigger] listed_indices(cands)[k] < cands.len() && listed(
            cands[listed_indices(cands)[k]],
        ) by {
            if k < listed_indices(t).len() {
                assert(listed_indices(cands)[k] == listed_indices(t)[k]);
                assert(cands[listed_indices(t)[k]] == t[listed_indices(t)[k]]);
            }
        }
    }
}

/// The monitors of the listed candidates, in the order of the candidates.
pub fn build_monitors(cands: &Vec<MonitorCandidate>, names: &FriendlyNames) -> (r: Vec<Monitor>)
    ensures
        r@.len() == listed_indices(cands@).len(),
        forall|k: int|
            0 <= k < r@.len() ==> built_from(
                #[trigger] r@[k],
                cands@[listed_indices(cands@)[k]],
                *names,
            ),
{
    let mut out: Vec<Monitor> = Vec::new();
    let n = cands.len();
    assert(cands@.subrange(0, 0) =~= Seq::<MonitorCandidate>::empty());
    for i in 0..n
        invariant
            n == cands@.len(),
            out@.len() == listed_indices(cands@.subrange(0, i as int)).len(),
            forall|k: int|
                0 <= k < out@.len() ==> built_from(
                    #[trigger] out@[k],
                    cands@[listed_indices(cands@.subrange(0, i as int))[k]],
                    *names,
                ),
    {
        let c = &cands[i];
        let ghost pre = cands@.subrange(0, i as int);
        let ghost post = cands@.subrange(0, i + 1);
        assert(post.drop_last() =~= pre);
        assert(post.last() == cands@[i as int]);
        proof {
            lemma_listed_indices_bounds(pre);
        }
        if is_desktop_monitor(c.monitor.state_flags) && c.settings.is_some() {
            let m = monitor_from_candidate(c, names);
            out.push(m);
            proof {
                assert forall|k: int| 0 <= k < out@.len() implies built_from(
                    #[trigger] out@[k],
                    cands@[listed_indices(post)[k]],
                    *names,
                ) by {
                    if k < out@.len() - 1 {
                        assert(listed_indices(post)[k] == listed_indices(pre)[k]);
                    }
                }
            }
        }
    }
    assert(cands@.subrange(0, n as int) =~= cands@);
    out
}

/// The monitor list: the listed candidates, each built into a monitor, then
/// sorted by the monitor's (x, y).
pub fn monitors_from_candidates(cands: &Vec<MonitorCandidate>, names: &FriendlyNames) -> (r: Vec<Monitor>)
    ensures
        sorted_by_position(r@),
        exists|built: Seq<Monitor>, from: Seq<int>|
            {
                &&& built.len() == listed_indices(cands@).len()
                &&& forall|k: int|
                    0 <= k < built.len() ==> built_from(
                        #[trigger] built[k],
                        cands@[listed_indices(cands@)[k]],
                        *names,
                    )
                &&& r@.to_multiset() == built.to_multiset()
                &&& #[trigger] stable_reordering(built, r@, from)
            },
        forall|k: int|
            0 <= k < r@.len() ==> exists|j: int|
                0 <= j < cands@.len() && listed(#[trigger] cands@[j]) && {
                    let s = cands@[j].settings->0;
                    &&& (#[trigger] r@[k]).width == s.width
                    &&& r@[k].height == s.height
                    &&& r@[k].x == s.x
                    &&& r@[k].y == s.y
                },
{
    let built = build_monitors(cands, names);
    let r = sort_by_position(&built);
    let ghost from = choose|from: Seq<int>| stable_reordering(built@, r@, from);
    assert(stable_reordering(built@, r@, from));
    proof {
        lemma_listed_indices_bounds(cands@);
        assert forall|k: int| 0 <= k < r@.len() implies exists|j: int|
            0 <= j < cands@.len() && listed(#[trigger] cands@[j]) && {
                let s = cands@[j].settings->0;
                &&& (#[trigger] r@[k]).width == s.width
                &&& r@[k].height == s.height
                &&& r@[k].x == s.x
                &&& r@[k].y == s.y
            } by {
            let i = from[k];
            let j = listed_indices(cands@)[i];
            assert(r@[k] == built@[i]);
            assert(built_from(built@[i], cands@[j], *names));
            law_monitor_keeps_reported_geometry(built@[i], cands@[j], *names);
            assert(listed(cands@[j]));
        }
    }
    r
}

/// A monitor built from a candidate has exactly the resolution and position
/// its display settings report, whatever its orientation.
pub proof fn law_monitor_keeps_reported_geometry(m: Monitor, c: MonitorCandidate, names: FriendlyNames)
    requires
        built_from(m, c, names),
    ensures
        m.width == c.settings->0.width,
        m.height == c.settings->0.height,
        m.x == c.settings->0.x,
        m.y == c.settings->0.y,
{
}

} // verus!
