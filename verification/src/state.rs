use vstd::prelude::*;

use crate::monitor::Monitor;

verus! {

/// What the overlays draw, and how.
#[derive(Debug)]
pub struct OverlaySettings {
    pub show_diagonal_lines: bool,
    pub show_horizontal_lines: bool,
    pub show_info_box: bool,
    pub show_cursor_position: bool,
    pub antialiasing: bool,
    pub line_spacing: i32,
    pub line_thickness: i32,
}

/// The settings a session starts with.
pub open spec fn default_settings() -> OverlaySettings {
    OverlaySettings {
        show_diagonal_lines: false,
        show_horizontal_lines: true,
        show_info_box: true,
        show_cursor_position: false,
        antialiasing: false,
        line_spacing: 100,
        line_thickness: 3,
    }
}

impl Default for OverlaySettings {
    fn default() -> (r: Self)
        ensures
            r == default_settings(),
    {
        OverlaySettings {
            show_diagonal_lines: false,
            show_horizontal_lines: true,
            show_info_box: true,
            show_cursor_position: false,
            antialiasing: false,
            line_spacing: 100,
            line_thickness: 3,
        }
    }
}

/// The vertical positions of the monitors as they were discovered.
pub open spec fn discovered_ys(monitors: Seq<Monitor>) -> Seq<i32> {
    Seq::new(monitors.len(), |i: int| monitors[i].y)
}

/// `m` moved to the vertical position `y`.
pub open spec fn with_y(m: Monitor, y: i32) -> Monitor {
    Monitor {
        device_name: m.device_name,
        monitor_name: m.monitor_name,
        friendly_monitor_name: m.friendly_monitor_name,
        display_adapter: m.display_adapter,
        width: m.width,
        height: m.height,
        x: m.x,
        y: y,
        orientation: m.orientation,
        primary: m.primary,
    }
}

/// The number of monitors that have a working position: the monitors and
/// the positions are paired up in order, as far as both lists go.
pub open spec fn paired_len(monitors: Seq<Monitor>, ys: Seq<i32>) -> nat {
    if monitors.len() <= ys.len() {
        monitors.len()
    } else {
        ys.len()
    }
}

/// Each monitor placed at its working vertical position.
pub open spec fn placed(monitors: Seq<Monitor>, ys: Seq<i32>) -> Seq<Monitor> {
    Seq::new(paired_len(monitors, ys), |i: int| with_y(monitors[i], ys[i]))
}

/// A running alignment session: the monitors as discovered, a working
/// vertical position for each, and the windows that show the overlays.
/// Window handles are kept as the integers that identify them.
pub struct AdjustSession {
    pub monitors: Vec<Monitor>,
    pub working_y: Vec<i32>,
    pub version: u64,
    pub stop_requested: bool,
    /// Every window created for the session, overlays and the owned box windows.
    pub hwnd_list: Vec<usize>,
    /// Just the info-box windows, so the "Show info box" toggle can hide/show them.
    pub info_box_hwnds: Vec<usize>,
    pub settings: OverlaySettings,
}

/// The session after every working position that has a monitor was reset
/// to that monitor's discovered position; nothing else changed.
pub open spec fn rolled_back(old: AdjustSession, new: AdjustSession) -> bool {
    &&& new.working_y@.len() == old.working_y@.len()
    &&& forall|k: int|
        0 <= k < old.working_y@.len() ==> #[trigger] new.working_y@[k] == (if k < old.monitors@.len() {
            old.monitors@[k].y
        } else {
            old.working_y@[k]
        })
    &&& new.monitors@ == old.monitors@
    &&& new.version == old.version
    &&& new.stop_requested == old.stop_requested
    &&& new.hwnd_list@ == old.hwnd_list@
    &&& new.info_box_hwnds@ == old.info_box_hwnds@
    &&& new.settings == old.settings
}

impl AdjustSession {
    /// There is one working position per monitor.
    pub open spec fn wf(&self) -> bool {
        self.working_y@.len() == self.monitors@.len()
    }

    /// The monitors at their working positions.
    pub open spec fn working_layout(&self) -> Seq<Monitor> {
        placed(self.monitors@, self.working_y@)
    }

    pub fn new(monitors: Vec<Monitor>) -> (r: Self)
        ensures
            r.wf(),
            r.monitors@ == monitors@,
            r.working_y@ == discovered_ys(monitors@),
            r.version == 0,
            !r.stop_requested,
            r.hwnd_list@.len() == 0,
            r.info_box_hwnds@.len() == 0,
            r.settings == default_settings(),
    {
        let mut working_y: Vec<i32> = Vec::new();
        let n = monitors.len();
        for i in 0..n
            invariant
                n == monitors@.len(),
                working_y@ == discovered_ys(monitors@.subrange(0, i as int)),
        {
            working_y.push(monitors[i].y);
            proof {
                assert(discovered_ys(monitors@.subrange(0, i + 1)) =~= discovered_ys(
                    monitors@.subrange(0, i as int),
                ).push(monitors@[i as int].y));
            }
        }
        proof {
            assert(monitors@.subrange(0, n as int) =~= monitors@);
        }
        AdjustSession {
            monitors,
            working_y,
            version: 0,
            stop_requested: false,
            hwnd_list: Vec::new(),
            info_box_hwnds: Vec::new(),
            settings: OverlaySettings::default(),
        }
    }

    /// Reset every working position back to its pristine (discovered) value.
    pub fn rollback(&mut self)
        ensures
            rolled_back(*old(self), *final(self)),
    {
        let n = if self.working_y.len() <= self.monitors.len() {
            self.working_y.len()
        } else {
            self.monitors.len()
        };
        for i in 0..n
            invariant
                n <= self.working_y@.len(),
                n <= self.monitors@.len(),
                self.working_y@.len() == old(self).working_y@.len(),
                self.monitors@ == old(self).monitors@,
                self.version == old(self).version,
                self.stop_requested == old(self).stop_requested,
                self.hwnd_list@ == old(self).hwnd_list@,
                self.info_box_hwnds@ == old(self).info_box_hwnds@,
                self.settings == old(self).settings,
                forall|k: int| 0 <= k < i ==> self.working_y@[k] == #[trigger] self.monitors@[k].y,
                forall|k: int| i <= k < self.working_y@.len() ==> #[trigger] self.working_y@[k] == old(self).working_y@[k],
        {
            let y = self.monitors[i].y;
            self.working_y.set(i, y);
        }
    }

    /// The monitor list with current working positions applied, for the UI overview.
    pub fn monitors_with_working_y(&self) -> (r: Vec<Monitor>)
        ensures
            r@ == self.working_layout(),
    {
        let mut out: Vec<Monitor> = Vec::new();
        let n = if self.monitors.len() <= self.working_y.len() {
            self.monitors.len()
        } else {
            self.working_y.len()
        };
        for i in 0..n
            invariant
                n == paired_len(self.monitors@, self.working_y@),
                out@ == placed(self.monitors@.subrange(0, i as int), self.working_y@.subrange(0, i as int)),
        {
            let mut m = self.monitors[i].clone();
            m.y = self.working_y[i];
            out.push(m);
            proof {
                assert(placed(self.monitors@.subrange(0, i + 1), self.working_y@.subrange(0, i + 1))
                    =~= placed(self.monitors@.subrange(0, i as int), self.working_y@.subrange(0, i as int)).push(
                    with_y(self.monitors@[i as int], self.working_y@[i as int]),
                ));
            }
        }
        proof {
            assert(placed(self.monitors@.subrange(0, n as int), self.working_y@.subrange(0, n as int))
                =~= placed(self.monitors@, self.working_y@));
        }
        out
    }
}

/// A fresh session shows every monitor exactly where it was discovered:
/// applying the initial working positions changes nothing.
pub proof fn law_fresh_session_matches_discovery(monitors: Seq<Monitor>)
    ensures
        placed(monitors, discovered_ys(monitors)) == monitors,
{
    assert(placed(monitors, discovered_ys(monitors)) =~= monitors);
}

/// Rolling back undoes every move: afterwards each monitor's working
/// position is its discovered one, and the overview shows the monitors
/// exactly as they were discovered.
pub proof fn law_rollback_restores_discovery(old: AdjustSession, new: AdjustSession)
    requires
        old.wf(),
        rolled_back(old, new),
    ensures
        new.wf(),
        new.working_y@ == discovered_ys(old.monitors@),
        new.working_layout() == old.monitors@,
{
    assert(new.working_y@ =~= discovered_ys(old.monitors@));
    law_fresh_session_matches_discovery(old.monitors@);
}

/// Rolling back twice is the same as rolling back once.
pub proof fn law_rollback_idempotent(a: AdjustSession, b: AdjustSession, c: AdjustSession)
    requires
        rolled_back(a, b),
        rolled_back(b, c),
    ensures
        c.working_y@ == b.working_y@,
        c.monitors@ == b.monitors@,
        c.version == b.version,
        c.stop_requested == b.stop_requested,
{
    assert(c.working_y@ =~= b.working_y@);
}

} // verus!
