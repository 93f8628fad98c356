//! Trajectory summaries: for each trip, its time span, duration and end cells,
//! derived from its signal points ordered by time stamp.
use vstd::prelude::*;
use crate::clock::{instant_text, local_midnight_ms, midnight_millis, opt_text, zoned_time_text};

verus! {

/// One signal sample of a trajectory, as read back from the store.
/// Coordinates are map-matched positions in millionths of a degree.
#[derive(Clone, Copy, Debug)]
pub struct TrajectoryPoint {
    pub signal_id: i64,
    pub vehicle_id: i64,
    /// Calendar day of the sample, counted from 1 at the epoch date.
    pub day_num: i64,
    /// Milliseconds since the start of the trip.
    pub time_stamp: i64,
    pub latitude: i64,
    pub longitude: i64,
    /// Spatial cell of the matched position at resolution 12.
    pub h3_12: u64,
}

/// The date whose local midnight, in the time zone named `zone` (an IANA
/// name), is day 1 of the dataset.
#[derive(Clone, Debug)]
pub struct Epoch {
    pub year: i32,
    pub month: u32,
    pub day: u32,
    pub zone: String,
}

impl Epoch {
    /// The epoch of the vehicle energy dataset: 1 November 2017 in
    /// America/Detroit.
    pub fn dataset() -> (e: Epoch)
        ensures
            e.year == 2017 && e.month == 11 && e.day == 1,
            e.zone@ == "America/Detroit"@,
    {
        Epoch { year: 2017, month: 11, day: 1, zone: String::from_str("America/Detroit") }
    }
}

/// The summary written back to one trajectory row.
#[derive(Clone, Debug)]
pub struct TrajectoryUpdate {
    pub traj_id: i64,
    pub dt_ini: Option<String>,
    pub dt_end: Option<String>,
    /// Last time stamp minus first time stamp, in milliseconds.
    pub duration_ms: i128,
    pub h3_12_ini: u64,
    pub h3_12_end: u64,
}

/// What a trajectory update states, over plain values.
pub struct UpdateView {
    pub traj_id: i64,
    pub dt_ini: Option<Seq<char>>,
    pub dt_end: Option<Seq<char>>,
    pub duration_ms: int,
    pub h3_12_ini: u64,
    pub h3_12_end: u64,
}

impl View for TrajectoryUpdate {
    type V = UpdateView;

    open spec fn view(&self) -> UpdateView {
        UpdateView {
            traj_id: self.traj_id,
            dt_ini: opt_text(self.dt_ini),
            dt_end: opt_text(self.dt_end),
            duration_ms: self.duration_ms as int,
            h3_12_ini: self.h3_12_ini,
            h3_12_end: self.h3_12_end,
        }
    }
}

/// Milliseconds in a day of 24 hours.
pub open spec fn day_ms() -> int {
    86_400_000
}

/// The local time text of the instant `day_num - 1` days of 24 hours and
/// `millis` milliseconds after the epoch's local midnight (day 1 being the
/// epoch date); `None` where that instant does not fit in milliseconds of
/// `i64`.
pub open spec fn clock_text(e: Epoch, day_num: i64, millis: i64) -> Option<Seq<char>> {
    match local_midnight_ms(e.zone@, e.year as int, e.month as int, e.day as int) {
        Some(m) => {
            let t = m + (day_num - 1) * day_ms() + millis;
            if i64::MIN <= t <= i64::MAX {
                zoned_time_text(e.zone@, t)
            } else {
                None
            }
        },
        None => None,
    }
}

/// The summary of a trajectory: `None` below two points; otherwise the
/// start and end instants (both counted from the first point's day), the
/// duration between the first and last time stamps, and the cells of the
/// first and last points.
pub open spec fn summary(e: Epoch, traj_id: i64, pts: Seq<TrajectoryPoint>) -> Option<UpdateView> {
    if pts.len() < 2 {
        None
    } else {
        let first = pts[0];
        let last = pts[pts.len() - 1];
        Some(
            UpdateView {
                traj_id,
                dt_ini: clock_text(e, first.day_num, first.time_stamp),
                dt_end: clock_text(e, first.day_num, last.time_stamp),
                duration_ms: last.time_stamp - first.time_stamp,
                h3_12_ini: first.h3_12,
                h3_12_end: last.h3_12,
            },
        )
    }
}

fn clock(e: &Epoch, day_num: i64, millis: i64) -> (r: Option<String>)
    ensures
        opt_text(r) == clock_text(*e, day_num, millis),
{
    let midnight = match midnight_millis(e.zone.as_str(), e.year, e.month, e.day) {
        Some(m) => m,
        None => return None,
    };
    let days: i128 = day_num as i128 - 1;
    assert(-1_000_000_000_000_000_000_000_000_000 <= days * 86_400_000 <= 1_000_000_000_000_000_000_000_000_000) by (nonlinear_arith)
        requires
            -10_000_000_000_000_000_000 <= days <= 10_000_000_000_000_000_000,
    ;
    let t: i128 = midnight as i128 + days * 86_400_000 + millis as i128;
    if t < i64::MIN as i128 || t > i64::MAX as i128 {
        return None;
    }
    instant_text(e.zone.as_str(), t as i64)
}

/// Summarises the points of one trajectory, ordered by time stamp; a
/// trajectory of fewer than two points has no summary.
pub fn summarize(epoch: &Epoch, traj_id: i64, points: &Vec<TrajectoryPoint>) -> (r: Option<TrajectoryUpdate>)
    ensures
        r is None <==> points.len() < 2,
        r matches Some(u) ==> summary(*epoch, traj_id, points@) == Some(u@),
{
    if points.len() < 2 {
        return None;
    }
    let first = points[0];
    let last = points[points.len() - 1];
    let dt_ini = clock(epoch, first.day_num, first.time_stamp);
    let dt_end = clock(epoch, first.day_num, last.time_stamp);
    Some(
        TrajectoryUpdate {
            traj_id,
            dt_ini,
            dt_end,
            duration_ms: last.time_stamp as i128 - first.time_stamp as i128,
            h3_12_ini: first.h3_12,
            h3_12_end: last.h3_12,
        },
    )
}

/// The points of a fetched trajectory; a failed fetch counts as no points.
pub open spec fn fetched(f: Option<Vec<TrajectoryPoint>>) -> Seq<TrajectoryPoint> {
    match f {
        Some(v) => v@,
        None => Seq::empty(),
    }
}

/// The summaries of a list of (trajectory id, fetched points), in order,
/// leaving out the trajectories without one.
pub open spec fn summaries(e: Epoch, ts: Seq<(i64, Option<Vec<TrajectoryPoint>>)>) -> Seq<UpdateView>
    decreases ts.len(),
{
    if ts.len() == 0 {
        Seq::empty()
    } else {
        let rest = summaries(e, ts.drop_last());
        let (id, f) = ts.last();
        match summary(e, id, fetched(f)) {
            Some(u) => rest.push(u),
            None => rest,
        }
    }
}

/// The views of a list of updates.
pub open spec fn update_views(us: Seq<TrajectoryUpdate>) -> Seq<UpdateView> {
    us.map_values(|u: TrajectoryUpdate| u@)
}

/// Computes the updates of all trajectories from their fetched points, in
/// order; trajectories with fewer than two points, or whose points could not
/// be fetched, are skipped.
pub fn get_trajectory_updates(epoch: &Epoch, trajectories: &Vec<(i64, Option<Vec<TrajectoryPoint>>)>) -> (r: Vec<TrajectoryUpdate>)
    ensures
        update_views(r@) == summaries(*epoch, trajectories@),
{
    let mut updates: Vec<TrajectoryUpdate> = Vec::new();
    let mut i: usize = 0;
    while i < trajectories.len()
        invariant
            i <= trajectories.len(),
            update_views(updates@) == summaries(*epoch, trajectories@.subrange(0, i as int)),
        decreases trajectories.len() - i,
    {
        let ghost before = updates@;
        let id = trajectories[i].0;
        let summary = match &trajectories[i].1 {
            Some(points) => summarize(epoch, id, points),
            None => None,
        };
        let ghost prefix = trajectories@.subrange(0, i as int + 1);
        assert(prefix.drop_last() =~= trajectories@.subrange(0, i as int));
        match summary {
            Some(u) => {
                updates.push(u);
                assert(update_views(updates@) =~= update_views(before).push(u@));
            },
            None => {},
        }
        i = i + 1;
    }
    assert(trajectories@.subrange(0, i as int) =~= trajectories@);
    updates
}

proof fn lemma_summaries_from_long(e: Epoch, ts: Seq<(i64, Option<Vec<TrajectoryPoint>>)>, j: int)
    requires
        0 <= j < summaries(e, ts).len(),
    ensures
        exists|i: int|
            0 <= i < ts.len() && fetched(ts[i].1).len() >= 2 && #[trigger] ts[i].0 == summaries(
                e,
                ts,
            )[j].traj_id,
    decreases ts.len(),
{
    let rest = ts.drop_last();
    if j < summaries(e, rest).len() {
        lemma_summaries_from_long(e, rest, j);
        let i = choose|i: int|
            0 <= i < rest.len() && fetched(rest[i].1).len() >= 2 && #[trigger] rest[i].0 == summaries(
                e,
                rest,
            )[j].traj_id;
        assert(ts[i] == rest[i]);
    } else {
        assert(ts[ts.len() - 1].0 == summaries(e, ts)[j].traj_id);
    }
}

/// Aggregation leaves a trajectory with fewer than two points (or whose
/// points could not be fetched) untouched: no update carries its id, so its
/// summary fields stay unset. Trajectory ids are distinct keys.
pub proof fn lemma_short_trajectory_unset(e: Epoch, ts: Seq<(i64, Option<Vec<TrajectoryPoint>>)>, k: int)
    requires
        0 <= k < ts.len(),
        fetched(ts[k].1).len() < 2,
        forall|i: int, j: int| 0 <= i < ts.len() && 0 <= j < ts.len() && i != j ==> ts[i].0 != ts[j].0,
    ensures
        forall|j: int| 0 <= j < summaries(e, ts).len() ==> #[trigger] summaries(e, ts)[j].traj_id != ts[k].0,
{
    assert forall|j: int| 0 <= j < summaries(e, ts).len() implies #[trigger] summaries(e, ts)[j].traj_id != ts[k].0 by {
        lemma_summaries_from_long(e, ts, j);
    }
}

} // verus!
