//! The per-monitor information shown under the overview.

use vstd::prelude::*;
use vstd::string::*;

use crate::monitor::{
    Monitor,
    orientation_label,
    sort_by_position,
    sorted_by_position,
    stable_reordering,
};
use crate::text::{decimal, i32_text, u32_text};

verus! {

/// One caption and the value written under it.
pub struct InfoField {
    pub caption: &'static str,
    pub value: String,
}

/// The information box of one monitor, keyed by its device name, under a title.
pub struct MonitorInfo {
    pub key: String,
    pub title: &'static str,
    pub fields: Vec<InfoField>,
}

/// The group of all information boxes, under a title.
pub struct InfoPanel {
    pub title: &'static str,
    pub boxes: Vec<MonitorInfo>,
}

/// The title of each monitor's information box.
pub open spec fn box_title() -> Seq<char> {
    "Monitor Information"@
}

/// The title of the group of information boxes.
pub open spec fn panel_title() -> Seq<char> {
    "Monitor Setup Information"@
}

/// The text of the screen resolution, `{width}x{height}`.
pub open spec fn resolution_text(m: Monitor) -> Seq<char> {
    decimal(m.width as int) + "x"@ + decimal(m.height as int)
}

/// The text of the virtual-screen position, `({x}, {y})`.
pub open spec fn position_text(m: Monitor) -> Seq<char> {
    "("@ + decimal(m.x as int) + ", "@ + decimal(m.y as int) + ")"@
}

/// The captions and values of a monitor's information box, in order.
pub open spec fn info_fields(m: Monitor) -> Seq<(Seq<char>, Seq<char>)> {
    seq![
        ("DEVICE NAME:"@, m.device_name@),
        ("MONITOR NAME:"@, m.monitor_name@),
        ("FRIENDLY MONITOR NAME:"@, m.friendly_monitor_name@),
        ("DISPLAY ADAPTER:"@, m.display_adapter@),
        ("SCREEN RESOLUTION:"@, resolution_text(m)),
        ("VIRTUAL SCREEN POSITION:"@, position_text(m)),
        ("ORIENTATION:"@, orientation_label(m.orientation)),
        ("IS PRIMARY:"@, if m.primary { "True"@ } else { "False"@ }),
    ]
}

/// The fields hold exactly the captions and values of `m`'s information box.
pub open spec fn describes(fields: Seq<InfoField>, m: Monitor) -> bool {
    &&& fields.len() == info_fields(m).len()
    &&& forall|k: int|
        0 <= k < fields.len() ==> (#[trigger] fields[k]).caption@ == info_fields(m)[k].0
            && fields[k].value@ == info_fields(m)[k].1
}

fn field(caption: &'static str, value: String) -> (f: InfoField)
    ensures
        f.caption@ == caption@,
        f.value@ == value@,
{
    InfoField { caption, value }
}

/// `b` is the information box of `m`.
pub open spec fn box_of(b: MonitorInfo, m: Monitor) -> bool {
    &&& b.key@ == m.device_name@
    &&& b.title@ == box_title()
    &&& describes(b.fields@, m)
}

/// The information box of one monitor.
pub fn monitor_box(m: &Monitor) -> (r: MonitorInfo)
    ensures
        box_of(r, *m),
{
    MonitorInfo { key: m.device_name.clone(), title: "Monitor Information", fields: monitor_fields(m) }
}

fn monitor_fields(m: &Monitor) -> (r: Vec<InfoField>)
    ensures
        describes(r@, *m),
{
    let mut resolution = u32_text(m.width);
    resolution.append("x");
    let resolution = resolution.concat(u32_text(m.height).as_str());
    let mut position = String::from_str("(");
    position.append(i32_text(m.x).as_str());
    position.append(", ");
    position.append(i32_text(m.y).as_str());
    position.append(")");
    let primary = if m.primary {
        "True"
    } else {
        "False"
    };
    let mut r: Vec<InfoField> = Vec::new();
    r.push(field("DEVICE NAME:", m.device_name.clone()));
    r.push(field("MONITOR NAME:", m.monitor_name.clone()));
    r.push(field("FRIENDLY MONITOR NAME:", m.friendly_monitor_name.clone()));
    r.push(field("DISPLAY ADAPTER:", m.display_adapter.clone()));
    r.push(field("SCREEN RESOLUTION:", resolution));
    r.push(field("VIRTUAL SCREEN POSITION:", position));
    r.push(field("ORIENTATION:", String::from_str(m.orientation.label())));
    r.push(field("IS PRIMARY:", String::from_str(primary)));
    assert(r@.len() == 8);
    assert forall|k: int| 0 <= k < r@.len() implies (#[trigger] r@[k]).caption@ == info_fields(
        *m,
    )[k].0 && r@[k].value@ == info_fields(*m)[k].1 by {
        assert(position@ =~= position_text(*m));
        assert(resolution@ =~= resolution_text(*m));
    }
    r
}

/// Per-monitor info, shown left-to-right by virtual screen position.
pub fn info_panel(monitors: &Vec<Monitor>) -> (r: InfoPanel)
    ensures
        r.title@ == panel_title(),
        exists|sorted: Seq<Monitor>, from: Seq<int>|
            {
                &&& sorted_by_position(sorted)
                &&& sorted.to_multiset() == monitors@.to_multiset()
                &&& #[trigger] stable_reordering(monitors@, sorted, from)
                &&& sorted.len() == r.boxes@.len()
                &&& forall|k: int| 0 <= k < r.boxes@.len() ==> box_of(#[trigger] r.boxes@[k], sorted[k])
            },
{
    let sorted = sort_by_position(monitors);
    let ghost from = choose|from: Seq<int>| stable_reordering(monitors@, sorted@, from);
    let mut out: Vec<MonitorInfo> = Vec::new();
    let n = sorted.len();
    for i in 0..n
        invariant
            n == sorted@.len(),
            out@.len() == i,
            forall|k: int| 0 <= k < i ==> box_of(#[trigger] out@[k], sorted@[k]),
    {
        out.push(monitor_box(&sorted[i]));
    }
    assert(stable_reordering(monitors@, sorted@, from));
    InfoPanel { title: "Monitor Setup Information", boxes: out }
}

} // verus!
