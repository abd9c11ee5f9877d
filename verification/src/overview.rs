use vstd::prelude::*;
use vstd::string::*;

use crate::monitor::Monitor;

verus! {

/// The prefix of the Win32 device name of a display, `\\.\DISPLAY`.
pub open spec fn display_prefix() -> Seq<char> {
    "\\\\.\\DISPLAY"@
}

/// The display index written in a device name: what follows the
/// `\\.\DISPLAY` prefix, or `?` when the name does not start with it.
pub open spec fn device_index(name: Seq<char>) -> Seq<char> {
    if name.len() >= display_prefix().len() && name.subrange(0, display_prefix().len() as int)
        == display_prefix() {
        name.subrange(display_prefix().len() as int, name.len() as int)
    } else {
        "?"@
    }
}

/// Extract the display index from a Win32 device name.
///
/// E.g. "\\.\DISPLAY1" -> "1".
pub fn index_from_device_name(device_name: &str) -> (r: &str)
    ensures
        r@ == device_index(device_name@),
{
    let prefix = "\\\\.\\DISPLAY";
    let ummm = "?";
    proof {
        reveal_strlit("\\\\.\\DISPLAY");
        reveal_strlit("?");
    }
    let n = device_name.unicode_len();
    let pn = prefix.unicode_len();
    if n < pn {
        return ummm;
    }
    let mut i: usize = 0;
    while i < pn
        invariant
            pn == prefix@.len(),
            n == device_name@.len(),
            pn <= n,
            i <= pn,
            prefix@ == display_prefix(),
            ummm@ == "?"@,
            forall|k: int| 0 <= k < i ==> device_name@[k] == prefix@[k],
        decreases pn - i,
    {
        if device_name.get_char(i) != prefix.get_char(i) {
            assert(device_name@.subrange(0, pn as int)[i as int] != display_prefix()[i as int]);
            return ummm;
        }
        i = i + 1;
    }
    assert(device_name@.subrange(0, pn as int) =~= display_prefix());
    device_name.substring_char(pn, n)
}

/// The right edge of a monitor on the virtual screen.
pub open spec fn right_edge(m: Monitor) -> int {
    m.x + (m.width as i32)
}

/// The bottom edge of a monitor on the virtual screen.
pub open spec fn bottom_edge(m: Monitor) -> int {
    m.y + (m.height as i32)
}

/// The smallest left edge of a non-empty list of monitors.
pub open spec fn min_left(s: Seq<Monitor>) -> int
    decreases s.len(),
{
    if s.len() <= 1 {
        s[0].x as int
    } else {
        vstd::math::min(min_left(s.drop_last()), s.last().x as int)
    }
}

/// The smallest top edge of a non-empty list of monitors.
pub open spec fn min_top(s: Seq<Monitor>) -> int
    decreases s.len(),
{
    if s.len() <= 1 {
        s[0].y as int
    } else {
        vstd::math::min(min_top(s.drop_last()), s.last().y as int)
    }
}

/// The largest right edge of a non-empty list of monitors.
pub open spec fn max_right(s: Seq<Monitor>) -> int
    decreases s.len(),
{
    if s.len() <= 1 {
        right_edge(s[0])
    } else {
        vstd::math::max(max_right(s.drop_last()), right_edge(s.last()))
    }
}

/// The largest bottom edge of a non-empty list of monitors.
pub open spec fn max_bottom(s: Seq<Monitor>) -> int
    decreases s.len(),
{
    if s.len() <= 1 {
        bottom_edge(s[0])
    } else {
        vstd::math::max(max_bottom(s.drop_last()), bottom_edge(s.last()))
    }
}

/// The bounding box of these monitors can be computed in `i32`: every right
/// and bottom edge fits, and so does the width and height of the box.
pub open spec fn edges_fit(s: Seq<Monitor>) -> bool {
    &&& forall|i: int|
        0 <= i < s.len() ==> i32::MIN <= #[trigger] right_edge(s[i]) <= i32::MAX && i32::MIN
            <= bottom_edge(s[i]) <= i32::MAX
    &&& forall|i: int, j: int|
        0 <= i < s.len() && 0 <= j < s.len() ==> {
            &&& #[trigger] right_edge(s[i]) - #[trigger] s[j].x <= i32::MAX
            &&& bottom_edge(s[i]) - s[j].y <= i32::MAX
        }
}

/// The offset of every monitor from the corner of the bounding box fits in `i32`.
pub open spec fn offsets_fit(s: Seq<Monitor>) -> bool {
    forall|i: int, j: int|
        0 <= i < s.len() && 0 <= j < s.len() ==> {
            &&& #[trigger] s[i].x - #[trigger] s[j].x <= i32::MAX
            &&& s[i].y - s[j].y <= i32::MAX
        }
}

/// The overview of these monitors can be computed in `i32`: the bounding box
/// always, the offsets of the monitors when the box has width and height.
pub open spec fn overview_fits(s: Seq<Monitor>) -> bool {
    &&& edges_fit(s)
    &&& s.len() > 0 && max_right(s) - min_left(s) != 0 && max_bottom(s) - min_top(s) != 0
        ==> offsets_fit(s)
}

/// The fill colour of a monitor in the overview: steel blue for the primary
/// one, a muted blue-gray for the others.
pub open spec fn tile_fill(primary: bool) -> (u8, u8, u8) {
    if primary {
        (70u8, 130u8, 180u8)
    } else {
        (130u8, 130u8, 140u8)
    }
}

/// The background of an overview with nothing to draw: gray.
pub open spec fn empty_background() -> (u8, u8, u8) {
    (100u8, 100u8, 100u8)
}

/// The border colour of every monitor in the overview: near-white.
pub open spec fn tile_border() -> (u8, u8, u8) {
    (235u8, 235u8, 235u8)
}

/// The colour of the display number written on every monitor: near-white.
pub open spec fn tile_label_color() -> (u8, u8, u8) {
    (245u8, 245u8, 245u8)
}

/// One monitor in the overview, at its real pixel size and at its offset
/// from the top-left corner of the bounding box of all monitors, with its
/// fill and border colours and its display number in the label colour.
pub struct MonitorTile {
    pub left: i32,
    pub top: i32,
    pub width: u32,
    pub height: u32,
    pub fill: (u8, u8, u8),
    pub border: (u8, u8, u8),
    pub label: String,
    pub label_color: (u8, u8, u8),
}

/// The virtual-screen overview: the bounding box of all monitors and one
/// tile per monitor, in the order of the list.
pub struct OverviewLayout {
    pub total_width: i32,
    pub total_height: i32,
    pub tiles: Vec<MonitorTile>,
}

/// What the overview shows.
pub enum Overview {
    /// Nothing to draw: an empty canvas in the given background colour.
    Empty { background: (u8, u8, u8) },
    /// The monitors, scaled together to fit.
    Scene(OverviewLayout),
}

/// The tile of `m` in the bounding box whose top-left corner is `(min_x, min_y)`.
pub open spec fn tile_matches(t: MonitorTile, m: Monitor, min_x: int, min_y: int) -> bool {
    &&& t.left == m.x - min_x
    &&& t.top == m.y - min_y
    &&& t.width == m.width
    &&& t.height == m.height
    &&& t.fill == tile_fill(m.primary)
    &&& t.border == tile_border()
    &&& t.label@ == device_index(m.device_name@)
    &&& t.label_color == tile_label_color()
}

/// The tile of `m` in the bounding box whose top-left corner is `(min_x, min_y)`.
fn make_tile(m: &Monitor, min_x: i32, min_y: i32) -> (t: MonitorTile)
    requires
        min_x <= m.x,
        min_y <= m.y,
        m.x - min_x <= i32::MAX,
        m.y - min_y <= i32::MAX,
    ensures
        tile_matches(t, *m, min_x as int, min_y as int),
{
    let label = index_from_device_name(m.device_name.as_str());
    let fill = if m.primary {
        (70u8, 130u8, 180u8)
    } else {
        (130u8, 130u8, 140u8)
    };
    MonitorTile {
        left: m.x - min_x,
        top: m.y - min_y,
        width: m.width,
        height: m.height,
        fill,
        border: (235u8, 235u8, 235u8),
        label: label.to_owned(),
        label_color: (245u8, 245u8, 245u8),
    }
}

/// The virtual-screen overview of `monitors`; an empty gray canvas when
/// there is nothing to draw: no monitor, or a bounding box without width or
/// height.
pub fn overview_canvas(monitors: &Vec<Monitor>) -> (r: Overview)
    requires
        overview_fits(monitors@),
    ensures
        monitors@.len() == 0 ==> r == (Overview::Empty { background: empty_background() }),
        monitors@.len() > 0 ==> {
            let w = max_right(monitors@) - min_left(monitors@);
            let h = max_bottom(monitors@) - min_top(monitors@);
            &&& (w == 0 || h == 0) ==> r == (Overview::Empty { background: empty_background() })
            &&& (w != 0 && h != 0) ==> (r matches Overview::Scene(l) && {
                &&& l.total_width == w
                &&& l.total_height == h
                &&& l.tiles@.len() == monitors@.len()
                &&& forall|k: int|
                    0 <= k < l.tiles@.len() ==> tile_matches(
                        #[trigger] l.tiles@[k],
                        monitors@[k],
                        min_left(monitors@),
                        min_top(monitors@),
                    )
            })
        },
{
    let n = monitors.len();
    if n == 0 {
        return Overview::Empty { background: (100u8, 100u8, 100u8) };
    }
    let first = &monitors[0];
    assert(right_edge(monitors@[0]) == right_edge(*first));
    let mut min_x: i32 = first.x;
    let mut min_y: i32 = first.y;
    let mut max_x: i32 = first.x + #[verifier::truncate] (first.width as i32);
    let mut max_y: i32 = first.y + #[verifier::truncate] (first.height as i32);
    let mut i: usize = 1;
    assert(monitors@.subrange(0, 1).drop_last() =~= Seq::<Monitor>::empty());
    while i < n
        invariant
            n == monitors@.len(),
            1 <= i <= n,
            edges_fit(monitors@),
            min_x == min_left(monitors@.subrange(0, i as int)),
            min_y == min_top(monitors@.subrange(0, i as int)),
            max_x == max_right(monitors@.subrange(0, i as int)),
            max_y == max_bottom(monitors@.subrange(0, i as int)),
        decreases n - i,
    {
        let m = &monitors[i];
        assert(right_edge(monitors@[i as int]) == right_edge(*m));
        let right = m.x + #[verifier::truncate] (m.width as i32);
        let bottom = m.y + #[verifier::truncate] (m.height as i32);
        assert(monitors@.subrange(0, i + 1).drop_last() =~= monitors@.subrange(0, i as int));
        if m.x < min_x {
            min_x = m.x;
        }
        if m.y < min_y {
            min_y = m.y;
        }
        if right > max_x {
            max_x = right;
        }
        if bottom > max_y {
            max_y = bottom;
        }
        i = i + 1;
    }
    assert(monitors@.subrange(0, n as int) =~= monitors@);
    proof {
        law_bounding_box(monitors@);
    }
    let total_width = max_x - min_x;
    let total_height = max_y - min_y;
    if total_width == 0 || total_height == 0 {
        return Overview::Empty { background: (100u8, 100u8, 100u8) };
    }
    let mut tiles: Vec<MonitorTile> = Vec::new();
    for k in 0..n
        invariant
            n == monitors@.len(),
            n > 0,
            offsets_fit(monitors@),
            min_x == min_left(monitors@),
            min_y == min_top(monitors@),
            forall|j: int| 0 <= j < n ==> min_x <= #[trigger] monitors@[j].x && min_y <= monitors@[j].y,
            exists|j: int| 0 <= j < n && min_x == #[trigger] monitors@[j].x,
            exists|j: int| 0 <= j < n && min_y == #[trigger] monitors@[j].y,
            tiles@.len() == k,
            forall|j: int|
                0 <= j < k ==> tile_matches(#[trigger] tiles@[j], monitors@[j], min_x as int, min_y as int),
    {
        let m = &monitors[k];
        proof {
            let a = choose|j: int| 0 <= j < n && min_x == #[trigger] monitors@[j].x;
            let b = choose|j: int| 0 <= j < n && min_y == #[trigger] monitors@[j].y;
            assert(monitors@[k as int].x - monitors@[a].x <= i32::MAX);
            assert(monitors@[k as int].x - monitors@[b].x <= i32::MAX);
        }
        tiles.push(make_tile(m, min_x, min_y));
    }
    Overview::Scene(OverviewLayout { total_width, total_height, tiles })
}

/// The bounding box of a non-empty list of monitors: its left and top edges
/// are those of some monitor and no monitor lies further left or up; its
/// right and bottom edges are those of some monitor and no monitor reaches
/// further right or down.
pub proof fn law_bounding_box(s: Seq<Monitor>)
    requires
        s.len() > 0,
    ensures
        forall|j: int| 0 <= j < s.len() ==> min_left(s) <= #[trigger] s[j].x,
        forall|j: int| 0 <= j < s.len() ==> min_top(s) <= #[trigger] s[j].y,
        forall|j: int| 0 <= j < s.len() ==> right_edge(#[trigger] s[j]) <= max_right(s),
        forall|j: int| 0 <= j < s.len() ==> bottom_edge(#[trigger] s[j]) <= max_bottom(s),
        exists|j: int| 0 <= j < s.len() && min_left(s) == #[trigger] s[j].x,
        exists|j: int| 0 <= j < s.len() && min_top(s) == #[trigger] s[j].y,
        exists|j: int| 0 <= j < s.len() && max_right(s) == right_edge(#[trigger] s[j]),
        exists|j: int| 0 <= j < s.len() && max_bottom(s) == bottom_edge(#[trigger] s[j]),
    decreases s.len(),
{
    if s.len() > 1 {
        let t = s.drop_last();
        law_bounding_box(t);
        assert forall|j: int| 0 <= j < s.len() implies min_left(s) <= #[trigger] s[j].x by {
            if j < t.len() {
                assert(s[j] == t[j]);
            }
        }
        assert forall|j: int| 0 <= j < s.len() implies min_top(s) <= #[trigger] s[j].y by {
            if j < t.len() {
                assert(s[j] == t[j]);
            }
        }
        assert forall|j: int| 0 <= j < s.len() implies right_edge(#[trigger] s[j]) <= max_right(s) by {
            if j < t.len() {
                assert(s[j] == t[j]);
            }
        }
        assert forall|j: int| 0 <= j < s.len() implies bottom_edge(#[trigger] s[j]) <= max_bottom(s) by {
            if j < t.len() {
                assert(s[j] == t[j]);
            }
        }
        let a = choose|j: int| 0 <= j < t.len() && min_left(t) == #[trigger] t[j].x;
        let b = choose|j: int| 0 <= j < t.len() && min_top(t) == #[trigger] t[j].y;
        let c = choose|j: int| 0 <= j < t.len() && max_right(t) == right_edge(#[trigger] t[j]);
        let d = choose|j: int| 0 <= j < t.len() && max_bottom(t) == bottom_edge(#[trigger] t[j]);
        let l = s.len() - 1;
        assert(s[a] == t[a] && s[b] == t[b] && s[c] == t[c] && s[d] == t[d] && s[l] == s.last());
        if min_left(s) == s[a].x {} else { assert(min_left(s) == s[l].x); }
        if min_top(s) == s[b].y {} else { assert(min_top(s) == s[l].y); }
        if max_right(s) == right_edge(s[c]) {} else { assert(max_right(s) == right_edge(s[l])); }
        if max_bottom(s) == bottom_edge(s[d]) {} else { assert(max_bottom(s) == bottom_edge(s[l])); }
    } else {
        assert(min_left(s) == s[0].x);
        assert(min_top(s) == s[0].y);
        assert(max_right(s) == right_edge(s[0]));
        assert(max_bottom(s) == bottom_edge(s[0]));
    }
}

/// `m` moved by `(dx, dy)` on the virtual screen.
pub open spec fn moved_by(m: Monitor, dx: int, dy: int) -> Monitor {
    Monitor {
        device_name: m.device_name,
        monitor_name: m.monitor_name,
        friendly_monitor_name: m.friendly_monitor_name,
        display_adapter: m.display_adapter,
        width: m.width,
        height: m.height,
        x: (m.x + dx) as i32,
        y: (m.y + dy) as i32,
        orientation: m.orientation,
        primary: m.primary,
    }
}

/// Every monitor moved by `(dx, dy)`.
pub open spec fn all_moved_by(s: Seq<Monitor>, dx: int, dy: int) -> Seq<Monitor> {
    Seq::new(s.len(), |i: int| moved_by(s[i], dx, dy))
}

/// Moving every monitor by the same amount moves the bounding box with them.
proof fn lemma_bounds_move(s: Seq<Monitor>, dx: int, dy: int)
    requires
        s.len() > 0,
        forall|i: int|
            0 <= i < s.len() ==> i32::MIN <= #[trigger] s[i].x + dx <= i32::MAX && i32::MIN <= s[i].y
                + dy <= i32::MAX,
    ensures
        min_left(all_moved_by(s, dx, dy)) == min_left(s) + dx,
        min_top(all_moved_by(s, dx, dy)) == min_top(s) + dy,
        max_right(all_moved_by(s, dx, dy)) == max_right(s) + dx,
        max_bottom(all_moved_by(s, dx, dy)) == max_bottom(s) + dy,
    decreases s.len(),
{
    let t = all_moved_by(s, dx, dy);
    if s.len() > 1 {
        let d = s.drop_last();
        assert(t.drop_last() =~= all_moved_by(d, dx, dy));
        assert forall|i: int| 0 <= i < d.len() implies i32::MIN <= #[trigger] d[i].x + dx <= i32::MAX
            && i32::MIN <= d[i].y + dy <= i32::MAX by {
            assert(d[i] == s[i]);
        }
        lemma_bounds_move(d, dx, dy);
        assert(t.last() == moved_by(s.last(), dx, dy));
        assert(s.last() == s[s.len() - 1]);
    } else {
        assert(t[0] == moved_by(s[0], dx, dy));
    }
}

/// Moving every monitor by the same amount leaves the overview as it was:
/// the bounding box keeps its size and every monitor keeps its offset in it.
pub proof fn law_overview_ignores_moving_all(s: Seq<Monitor>, dx: int, dy: int)
    requires
        s.len() > 0,
        forall|i: int|
            0 <= i < s.len() ==> i32::MIN <= #[trigger] s[i].x + dx <= i32::MAX && i32::MIN <= s[i].y
                + dy <= i32::MAX,
    ensures
        max_right(all_moved_by(s, dx, dy)) - min_left(all_moved_by(s, dx, dy)) == max_right(s)
            - min_left(s),
        max_bottom(all_moved_by(s, dx, dy)) - min_top(all_moved_by(s, dx, dy)) == max_bottom(s)
            - min_top(s),
        forall|k: int|
            0 <= k < s.len() ==> #[trigger] all_moved_by(s, dx, dy)[k].x - min_left(
                all_moved_by(s, dx, dy),
            ) == s[k].x - min_left(s) && all_moved_by(s, dx, dy)[k].y - min_top(all_moved_by(s, dx, dy))
                == s[k].y - min_top(s),
{
    lemma_bounds_move(s, dx, dy);
}

} // verus!
