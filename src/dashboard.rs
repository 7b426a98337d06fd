//! What the screen shows, derived from the history on every tick: one gauge
//! per axis for the latest reading, and one chart series per axis over time
//! elapsed since the oldest reading held.

use vstd::prelude::*;
use crate::app::{elapsed, elapsed_spec};
use crate::history::{latest_of, origin_of, History};
use crate::reading::AccelReading;

verus! {

/// Half the span a gauge covers, in thousandths of a unit: the gauge runs
/// from minus this value (empty) to this value (full).
pub const GAUGE_HALF_RANGE: i64 = 20000;

/// A full gauge, in millionths.
pub const GAUGE_FULL: u32 = 1000000;

/// The fill of a gauge for an axis value `v` (thousandths of a unit), in
/// millionths: linear over the gauge's span and saturating outside it.
pub open spec fn gauge_spec(v: int) -> int {
    if v <= -20000 {
        0
    } else if v >= 20000 {
        1000000
    } else {
        (v + 20000) * 25
    }
}

/// One of the three axes of a reading.
#[derive(Clone, Copy, Debug, PartialEq, Eq, Structural)]
pub enum Axis {
    X,
    Y,
    Z,
}

/// The value of `r` on `axis`.
pub open spec fn axis_value(r: AccelReading, axis: Axis) -> i32 {
    match axis {
        Axis::X => r.x,
        Axis::Y => r.y,
        Axis::Z => r.z,
    }
}

/// The chart series of `axis` over `items`: for each reading, oldest first,
/// the microseconds since `origin` and its value on the axis.
pub open spec fn series_spec(items: Seq<AccelReading>, axis: Axis, origin: u64) -> Seq<(u64, i32)> {
    Seq::new(
        items.len(),
        |i: int| (elapsed_spec(origin, items[i].timestamp), axis_value(items[i], axis)),
    )
}

/// The fill of a gauge for the axis value `v`, in millionths: zero at or
/// below minus twenty units, full at or above twenty units.
pub fn gauge_ratio(v: i32) -> (r: u32)
    ensures
        r as int == gauge_spec(v as int),
        r <= GAUGE_FULL,
{
    let w = v as i64;
    if w <= -GAUGE_HALF_RANGE {
        0
    } else if w >= GAUGE_HALF_RANGE {
        GAUGE_FULL
    } else {
        ((w + GAUGE_HALF_RANGE) * 25) as u32
    }
}

/// The value of `r` on `axis`.
pub fn value_on(r: &AccelReading, axis: Axis) -> (v: i32)
    ensures
        v == axis_value(*r, axis),
{
    match axis {
        Axis::X => r.x,
        Axis::Y => r.y,
        Axis::Z => r.z,
    }
}

/// The chart series of `axis` over `items`, timed from `origin`.
pub fn series(items: &Vec<AccelReading>, axis: Axis, origin: u64) -> (s: Vec<(u64, i32)>)
    ensures
        s@ == series_spec(items@, axis, origin),
{
    let mut s: Vec<(u64, i32)> = Vec::new();
    let mut i: usize = 0;
    while i < items.len()
        invariant
            0 <= i <= items.len(),
            s@ == series_spec(items@.take(i as int), axis, origin),
        decreases items.len() - i,
    {
        let r = items[i];
        s.push((elapsed(origin, r.timestamp), value_on(&r, axis)));
        i = i + 1;
        assert(s@ =~= series_spec(items@.take(i as int), axis, origin));
    }
    assert(items@.take(i as int) =~= items@);
    s
}

/// Everything the screen shows for one frame.
pub struct Dashboard {
    /// Gauge fills in millionths, for the x, y and z axes.
    pub x_gauge: u32,
    pub y_gauge: u32,
    pub z_gauge: u32,
    /// Chart series: microseconds since the oldest reading, and the value.
    pub x_series: Vec<(u64, i32)>,
    pub y_series: Vec<(u64, i32)>,
    pub z_series: Vec<(u64, i32)>,
}

/// The dashboard for the readings of `h` at clock reading `now`: gauges from
/// the latest reading (the zero reading when there is none), series timed from
/// the oldest reading held.
pub fn dashboard(h: &History, now: u64) -> (d: Dashboard)
    ensures
        d.x_gauge as int == gauge_spec(latest_of(h@, now).x as int),
        d.y_gauge as int == gauge_spec(latest_of(h@, now).y as int),
        d.z_gauge as int == gauge_spec(latest_of(h@, now).z as int),
        d.x_series@ == series_spec(h@, Axis::X, origin_of(h@, now)),
        d.y_series@ == series_spec(h@, Axis::Y, origin_of(h@, now)),
        d.z_series@ == series_spec(h@, Axis::Z, origin_of(h@, now)),
{
    let latest = h.latest(now);
    let origin = h.origin(now);
    let items = h.to_vec();
    Dashboard {
        x_gauge: gauge_ratio(latest.x),
        y_gauge: gauge_ratio(latest.y),
        z_gauge: gauge_ratio(latest.z),
        x_series: series(&items, Axis::X, origin),
        y_series: series(&items, Axis::Y, origin),
        z_series: series(&items, Axis::Z, origin),
    }
}

} // verus!
