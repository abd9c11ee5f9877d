use vstd::prelude::*;

verus! {

/// `dmDisplayOrientation` value of a display in its natural orientation.
pub const DMDO_DEFAULT: u32 = 0;

/// `dmDisplayOrientation` value of a display rotated by 90 degrees.
pub const DMDO_90: u32 = 1;

/// `dmDisplayOrientation` value of a display rotated by 180 degrees.
pub const DMDO_180: u32 = 2;

/// `dmDisplayOrientation` value of a display rotated by 270 degrees.
pub const DMDO_270: u32 = 3;

/// How a display is rotated.
#[derive(Clone, Copy, Debug, PartialEq, Eq, Structural)]
pub enum Orientation {
    Landscape,
    Portrait,
    FlippedLandscape,
    FlippedPortrait,
}

impl Default for Orientation {
    fn default() -> (r: Self)
        ensures
            r == Orientation::Landscape,
    {
        Orientation::Landscape
    }
}

/// The orientation that a `dmDisplayOrientation` value stands for; any value
/// other than the three rotations is the natural orientation.
pub open spec fn orientation_of_dmdo(value: u32) -> Orientation {
    if value == DMDO_90 {
        Orientation::Portrait
    } else if value == DMDO_180 {
        Orientation::FlippedLandscape
    } else if value == DMDO_270 {
        Orientation::FlippedPortrait
    } else {
        Orientation::Landscape
    }
}

/// The text that names an orientation in the user interface.
pub open spec fn orientation_label(o: Orientation) -> Seq<char> {
    match o {
        Orientation::Landscape => "Landscape"@,
        Orientation::Portrait => "Portrait"@,
        Orientation::FlippedLandscape => "Landscape (flipped)"@,
        Orientation::FlippedPortrait => "Portrait (flipped)"@,
    }
}

impl Orientation {
    /// Convert a Win32 `dmDisplayOrientation` (`DMDO_DEFAULT`/`DMDO_90`/`DMDO_180`/`DMDO_270`).
    pub fn from_dmdo(value: u32) -> (r: Self)
        ensures
            r == orientation_of_dmdo(value),
    {
        if value == DMDO_90 {
            Orientation::Portrait
        } else if value == DMDO_180 {
            Orientation::FlippedLandscape
        } else if value == DMDO_270 {
            Orientation::FlippedPortrait
        } else {
            Orientation::Landscape
        }
    }

    pub fn label(self) -> (r: &'static str)
        ensures
            r@ == orientation_label(self),
    {
        match self {
            Orientation::Landscape => "Landscape",
            Orientation::Portrait => "Portrait",
            Orientation::FlippedLandscape => "Landscape (flipped)",
            Orientation::FlippedPortrait => "Portrait (flipped)",
        }
    }
}


/// One display as the operating system reports it: names, resolution,
/// position on the virtual screen, rotation and whether it is the primary one.
#[derive(Debug)]
pub struct Monitor {
    pub device_name: String,
    pub monitor_name: String,
    pub friendly_monitor_name: String,
    pub display_adapter: String,
    pub width: u32,
    pub height: u32,
    pub x: i32,
    pub y: i32,
    pub orientation: Orientation,
    pub primary: bool,
}

impl Clone for Monitor {
    fn clone(&self) -> (r: Self)
        ensures
            r == *self,
    {
        Monitor {
            device_name: self.device_name.clone(),
            monitor_name: self.monitor_name.clone(),
            friendly_monitor_name: self.friendly_monitor_name.clone(),
            display_adapter: self.display_adapter.clone(),
            width: self.width,
            height: self.height,
            x: self.x,
            y: self.y,
            orientation: self.orientation,
            primary: self.primary,
        }
    }
}

impl PartialEq for Monitor {
    fn eq(&self, other: &Self) -> (r: bool) {
        self.device_name == other.device_name && self.monitor_name == other.monitor_name
            && self.friendly_monitor_name == other.friendly_monitor_name && self.display_adapter
            == other.display_adapter && self.width == other.width && self.height == other.height
            && self.x == other.x && self.y == other.y && self.orientation == other.orientation
            && self.primary == other.primary
    }
}

impl vstd::std_specs::cmp::PartialEqSpecImpl for Monitor {
    open spec fn obeys_eq_spec() -> bool {
        true
    }

    open spec fn eq_spec(&self, other: &Monitor) -> bool {
        &&& self.device_name@ == other.device_name@
        &&& self.monitor_name@ == other.monitor_name@
        &&& self.friendly_monitor_name@ == other.friendly_monitor_name@
        &&& self.display_adapter@ == other.display_adapter@
        &&& self.width == other.width
        &&& self.height == other.height
        &&& self.x == other.x
        &&& self.y == other.y
        &&& self.orientation == other.orientation
        &&& self.primary == other.primary
    }
}

/// `a` comes no later than `b` when monitors are ordered by `(x, y)`.
pub open spec fn position_le(a: Monitor, b: Monitor) -> bool {
    a.x < b.x || (a.x == b.x && a.y <= b.y)
}

/// `a` comes strictly before `b` when monitors are ordered by `(x, y)`.
pub open spec fn position_lt(a: Monitor, b: Monitor) -> bool {
    a.x < b.x || (a.x == b.x && a.y < b.y)
}

/// The monitors are ordered by `(x, y)`: left to right, then top to bottom.
pub open spec fn sorted_by_position(s: Seq<Monitor>) -> bool {
    forall|i: int, j: int| 0 <= i < j < s.len() ==> position_le(#[trigger] s[i], #[trigger] s[j])
}

/// Two monitors share a virtual-screen position.
pub open spec fn same_position(a: Monitor, b: Monitor) -> bool {
    a.x == b.x && a.y == b.y
}

/// `r` lists the monitors of `s` at the positions `from`, and monitors that
/// share a position keep the order they had in `s`.
pub open spec fn stable_reordering(s: Seq<Monitor>, r: Seq<Monitor>, from: Seq<int>) -> bool {
    &&& from.len() == r.len()
    &&& forall|k: int| 0 <= k < r.len() ==> 0 <= #[trigger] from[k] < s.len() && r[k] == s[from[k]]
    &&& forall|a: int, b: int|
        0 <= a < b < r.len() && same_position(#[trigger] r[a], #[trigger] r[b]) ==> from[a] < from[b]
}

/// Inserting `m` after every element that is not after it and before every
/// element that is after it keeps the list sorted, and, as `m` comes last in
/// the input, keeps monitors at the same position in input order.
proof fn lemma_insert_keeps_order(before: Seq<Monitor>, from: Seq<int>, p: int, m: Monitor, i: int)
    requires
        0 <= p <= before.len(),
        from.len() == before.len(),
        sorted_by_position(before),
        forall|k: int| 0 <= k < p ==> position_le(#[trigger] before[k], m),
        p < before.len() ==> position_lt(m, before[p]),
        forall|k: int| 0 <= k < from.len() ==> #[trigger] from[k] < i,
        forall|a: int, b: int|
            0 <= a < b < before.len() && same_position(#[trigger] before[a], #[trigger] before[b])
                ==> from[a] < from[b],
    ensures
        sorted_by_position(before.insert(p, m)),
        forall|a: int, b: int|
            0 <= a < b < before.len() + 1 && same_position(
                #[trigger] before.insert(p, m)[a],
                #[trigger] before.insert(p, m)[b],
            ) ==> from.insert(p, i)[a] < from.insert(p, i)[b],
{
    let after = before.insert(p, m);
    let f = from.insert(p, i);
    assert forall|a: int, b: int| 0 <= a < b < after.len() implies position_le(
        #[trigger] after[a],
        #[trigger] after[b],
    ) && (same_position(after[a], after[b]) ==> f[a] < f[b]) by {
        if b < p {
            assert(after[a] == before[a] && after[b] == before[b]);
        } else if b == p {
            assert(after[a] == before[a] && f[a] == from[a]);
        } else if a == p {
            assert(after[b] == before[b - 1]);
            if p < b - 1 {
                assert(position_le(before[p], before[b - 1]));
            }
        } else if a < p {
            assert(after[a] == before[a] && after[b] == before[b - 1]);
        } else {
            assert(after[a] == before[a - 1] && after[b] == before[b - 1]);
        }
    }
}

/// Order the monitors by their virtual-screen position `(x, y)`; monitors at
/// the same position keep their order.
pub fn sort_by_position(monitors: &Vec<Monitor>) -> (r: Vec<Monitor>)
    ensures
        sorted_by_position(r@),
        r@.to_multiset() == monitors@.to_multiset(),
        r@.len() == monitors@.len(),
        exists|from: Seq<int>| #[trigger] stable_reordering(monitors@, r@, from),
{
    broadcast use vstd::seq_lib::group_to_multiset_ensures;

    let mut out: Vec<Monitor> = Vec::new();
    let ghost mut from: Seq<int> = Seq::empty();
    let n = monitors.len();
    for i in 0..n
        invariant
            n == monitors@.len(),
            sorted_by_position(out@),
            out@.to_multiset() == monitors@.subrange(0, i as int).to_multiset(),
            stable_reordering(monitors@, out@, from),
            forall|k: int| 0 <= k < from.len() ==> #[trigger] from[k] < i,
    {
        let m = monitors[i].clone();
        let mut p: usize = 0;
        while p < out.len() && !(m.x < out[p].x || (m.x == out[p].x && m.y < out[p].y))
            invariant
                p <= out@.len(),
                sorted_by_position(out@),
                forall|k: int| 0 <= k < p ==> position_le(#[trigger] out@[k], m),
            decreases out@.len() - p,
        {
            p = p + 1;
        }
        proof {
            assert(p < out@.len() ==> position_lt(m, out@[p as int]));
            assert(monitors@.subrange(0, i + 1) =~= monitors@.subrange(0, i as int).push(monitors@[i as int]));
        }
        let ghost before = out@;
        let ghost from_before = from;
        out.insert(p, m);
        proof {
            from = from_before.insert(p as int, i as int);
            assert forall|k: int| 0 <= k < out@.len() implies 0 <= #[trigger] from[k] < monitors@.len()
                && out@[k] == monitors@[from[k]] by {
                if k < p {
                    assert(from[k] == from_before[k] && out@[k] == before[k]);
                } else if k > p {
                    assert(from[k] == from_before[k - 1] && out@[k] == before[k - 1]);
                }
            }
            lemma_insert_keeps_order(before, from_before, p as int, m, i as int);
            vstd::seq_lib::to_multiset_insert(before, p as int, monitors@[i as int]);
            vstd::seq_lib::to_multiset_build(monitors@.subrange(0, i as int), monitors@[i as int]);
        }
    }
    proof {
        assert(monitors@.subrange(0, n as int) =~= monitors@);
        vstd::seq_lib::to_multiset_len(out@);
        vstd::seq_lib::to_multiset_len(monitors@);
    }
    out
}

} // verus!
