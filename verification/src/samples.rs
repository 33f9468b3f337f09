use vstd::prelude::*;

use crate::scalar::Scalar;
use crate::time::{elapsed_seconds_bits, epoch_le, epoch_not_after, seconds_between, EpochParts};

verus! {

broadcast use vstd::seq_lib::group_seq_properties;

/// A Cartesian triple in meters (or meters per second).
#[derive(Clone, Copy, Debug, PartialEq, Eq, Structural)]
pub struct Vec3 {
    pub x: Scalar,
    pub y: Scalar,
    pub z: Scalar,
}

/// One inertial state of a trajectory: its instant, its position in meters
/// and its velocity in meters per second.
#[derive(Clone, Copy, Debug, PartialEq, Eq, Structural)]
pub struct StateSample {
    pub epoch: EpochParts,
    pub position_m: Vec3,
    pub velocity_m_s: Vec3,
}

/// One Earth-fixed state of a trajectory: its instant, the point below it
/// on the Earth surface and its altitude above that surface, in meters.
#[derive(Clone, Copy, Debug, PartialEq, Eq, Structural)]
pub struct SurfaceSample {
    pub epoch: EpochParts,
    pub surface_m: Vec3,
    pub altitude_m: Scalar,
}

/// A state that carries the instant it describes.
pub trait Timestamped: Copy {
    spec fn instant(&self) -> EpochParts;

    fn epoch(&self) -> (e: EpochParts)
        ensures
            e == self.instant(),
    ;
}

impl Timestamped for StateSample {
    open spec fn instant(&self) -> EpochParts {
        self.epoch
    }

    fn epoch(&self) -> (e: EpochParts) {
        self.epoch
    }
}

impl Timestamped for SurfaceSample {
    open spec fn instant(&self) -> EpochParts {
        self.epoch
    }

    fn epoch(&self) -> (e: EpochParts) {
        self.epoch
    }
}

/// An epoch lies in the closed window `[start, end]`, in `hifitime`'s order.
pub open spec fn in_window(e: EpochParts, start: EpochParts, end: EpochParts) -> bool {
    epoch_le(start, e) && epoch_le(e, end)
}

/// The states of `states` whose instant lies in `[start, end]`, in order.
pub open spec fn window_of<T: Timestamped>(states: Seq<T>, start: EpochParts, end: EpochParts) -> Seq<
    T,
> {
    states.filter(|s: T| in_window(s.instant(), start, end))
}

/// Keeps the states whose instant lies in `[start, end]`, in their order.
pub fn collect_states<T: Timestamped>(states: &Vec<T>, start: EpochParts, end: EpochParts) -> (r: Vec<
    T,
>)
    ensures
        r@ == window_of(states@, start, end),
{
    let ghost pred = |s: T| in_window(s.instant(), start, end);
    let mut r: Vec<T> = Vec::new();
    let n = states.len();
    for i in 0..n
        invariant
            n == states@.len(),
            pred == (|s: T| in_window(s.instant(), start, end)),
            r@ == states@.take(i as int).filter(pred),
    {
        let s = states[i];
        let e = s.epoch();
        if epoch_not_after(start, e) && epoch_not_after(e, end) {
            r.push(s);
        }
        proof {
            reveal_with_fuel(Seq::<_>::filter, 1);
            assert(states@.take(i + 1).drop_last() =~= states@.take(i as int));
        }
    }
    proof {
        assert(states@.take(n as int) =~= states@);
    }
    r
}

/// Every sample is placed at its own epoch: the instant by which a window
/// keeps or drops it is the epoch it carries, whatever its kind.
pub proof fn lemma_samples_are_at_their_epoch(s: StateSample, t: SurfaceSample)
    ensures
        s.instant() == s.epoch,
        t.instant() == t.epoch,
{
}

/// The Earth-fixed samples of a window are exactly those whose epoch lies in
/// `[start, end]` in `hifitime`'s order, in order; in particular a sample at
/// either bound of a non-empty window is kept.
pub proof fn lemma_surface_window(states: Seq<SurfaceSample>, start: EpochParts, end: EpochParts)
    ensures
        window_of(states, start, end) == states.filter(
            |s: SurfaceSample| epoch_le(start, s.epoch) && epoch_le(s.epoch, end),
        ),
        forall|i: int|
            0 <= i < states.len() && epoch_le(start, end) && (states[i].epoch == start
                || states[i].epoch == end) ==> window_of(states, start, end).contains(
                #[trigger] states[i],
            ),
{
    let p1 = |s: SurfaceSample| in_window(s.instant(), start, end);
    let p2 = |s: SurfaceSample| epoch_le(start, s.epoch) && epoch_le(s.epoch, end);
    assert(p1 =~= p2);
    assert forall|i: int|
        0 <= i < states.len() && epoch_le(start, end) && (states[i].epoch == start
            || states[i].epoch == end) implies window_of(states, start, end).contains(
        #[trigger] states[i],
    ) by {
        assert(p2(states[i]));
        states.lemma_filter_contains(p2, i);
    }
}

/// A window keeps a state exactly when the state is one of the given ones
/// and its epoch lies in `[start, end]` in `hifitime`'s order.
pub proof fn lemma_window_members<T: Timestamped>(states: Seq<T>, start: EpochParts, end: EpochParts)
    ensures
        forall|x: T|
            #[trigger] window_of(states, start, end).contains(x) <==> (states.contains(x)
                && epoch_le(start, x.instant()) && epoch_le(x.instant(), end)),
{
    broadcast use vstd::seq_lib::group_filter_ensures;

    let pred = |s: T| in_window(s.instant(), start, end);
    assert forall|x: T|
        #[trigger] window_of(states, start, end).contains(x) <==> (states.contains(x)
            && epoch_le(start, x.instant()) && epoch_le(x.instant(), end)) by {
        if window_of(states, start, end).contains(x) {
            states.lemma_filter_contains_rev(pred, x);
            let k = choose|k: int| 0 <= k < states.filter(pred).len() && states.filter(pred)[k] == x;
            assert(pred(states.filter(pred)[k]));
        }
        if states.contains(x) && epoch_le(start, x.instant()) && epoch_le(x.instant(), end) {
            let k = choose|k: int| 0 <= k < states.len() && states[k] == x;
            states.lemma_filter_contains(pred, k);
        }
    }
}

/// Seconds from `reference` to `e`, as `hifitime` counts them.
pub open spec fn offset(e: EpochParts, reference: EpochParts) -> Scalar {
    Scalar(
        elapsed_seconds_bits(
            e.centuries,
            e.nanoseconds,
            e.time_scale,
            reference.centuries,
            reference.nanoseconds,
            reference.time_scale,
        ),
    )
}

/// The seven values `[t, x, y, z, vx, vy, vz]` of an inertial state.
pub open spec fn state_row(s: StateSample, reference: EpochParts) -> Seq<Scalar> {
    seq![
        offset(s.epoch, reference),
        s.position_m.x,
        s.position_m.y,
        s.position_m.z,
        s.velocity_m_s.x,
        s.velocity_m_s.y,
        s.velocity_m_s.z,
    ]
}

/// The four values `[t, x, y, z]` of a surface point.
pub open spec fn surface_row(s: SurfaceSample, reference: EpochParts) -> Seq<Scalar> {
    seq![offset(s.epoch, reference), s.surface_m.x, s.surface_m.y, s.surface_m.z]
}

/// The two values `[t, v]` of a sampled scalar.
pub open spec fn scalar_row(e: EpochParts, v: Scalar, reference: EpochParts) -> Seq<Scalar> {
    seq![offset(e, reference), v]
}

/// One row per inertial state.
pub open spec fn state_rows(samples: Seq<StateSample>, reference: EpochParts) -> Seq<Seq<Scalar>> {
    samples.map_values(|s: StateSample| state_row(s, reference))
}

/// One row per surface point.
pub open spec fn surface_rows(samples: Seq<SurfaceSample>, reference: EpochParts) -> Seq<
    Seq<Scalar>,
> {
    samples.map_values(|s: SurfaceSample| surface_row(s, reference))
}

/// One row per surface point, pairing its time with the value beside it.
pub open spec fn scalar_rows(
    samples: Seq<SurfaceSample>,
    values: Seq<Scalar>,
    reference: EpochParts,
) -> Seq<Seq<Scalar>> {
    Seq::new(samples.len(), |i: int| scalar_row(samples[i].epoch, values[i], reference))
}

/// The flat `[t, x, y, z, vx, vy, vz, ...]` array of inertial states, times
/// counted from `reference`.
pub fn state_cartesian_velocity(states: &Vec<StateSample>, reference: EpochParts) -> (r: Vec<Scalar>)
    ensures
        r@ == state_rows(states@, reference).flatten(),
        states@.len() > 0 && states@[0].epoch == reference ==> r@[0] == Scalar(0u64),
{
    let mut r: Vec<Scalar> = Vec::new();
    let n = states.len();
    for i in 0..n
        invariant
            n == states@.len(),
            r@ == state_rows(states@.take(i as int), reference).flatten(),
            i > 0 && states@[0].epoch == reference ==> r@[0] == Scalar(0u64),
    {
        let s = states[i];
        let ghost before = r@;
        let t = seconds_between(s.epoch, reference);
        r.push(t);
        r.push(s.position_m.x);
        r.push(s.position_m.y);
        r.push(s.position_m.z);
        r.push(s.velocity_m_s.x);
        r.push(s.velocity_m_s.y);
        r.push(s.velocity_m_s.z);
        proof {
            let rows = state_rows(states@.take(i as int), reference);
            assert(state_rows(states@.take(i + 1), reference) =~= rows.push(
                state_row(s, reference),
            ));
            rows.lemma_flatten_push(state_row(s, reference));
            assert(r@ =~= before + state_row(s, reference));
        }
    }
    proof {
        assert(states@.take(n as int) =~= states@);
    }
    r
}

/// The flat `[t, x, y, z, ...]` array of surface points, times counted from
/// `reference`.
pub fn surface_cartesian(states: &Vec<SurfaceSample>, reference: EpochParts) -> (r: Vec<Scalar>)
    ensures
        r@ == surface_rows(states@, reference).flatten(),
        states@.len() > 0 && states@[0].epoch == reference ==> r@[0] == Scalar(0u64),
{
    let mut r: Vec<Scalar> = Vec::new();
    let n = states.len();
    for i in 0..n
        invariant
            n == states@.len(),
            r@ == surface_rows(states@.take(i as int), reference).flatten(),
            i > 0 && states@[0].epoch == reference ==> r@[0] == Scalar(0u64),
    {
        let s = states[i];
        let ghost before = r@;
        let t = seconds_between(s.epoch, reference);
        r.push(t);
        r.push(s.surface_m.x);
        r.push(s.surface_m.y);
        r.push(s.surface_m.z);
        proof {
            let rows = surface_rows(states@.take(i as int), reference);
            assert(surface_rows(states@.take(i + 1), reference) =~= rows.push(
                surface_row(s, reference),
            ));
            rows.lemma_flatten_push(surface_row(s, reference));
            assert(r@ =~= before + surface_row(s, reference));
        }
    }
    proof {
        assert(states@.take(n as int) =~= states@);
    }
    r
}

/// The flat `[t0, v0, t1, v1, ...]` array pairing the time of each surface
/// point with the value beside it, times counted from `reference`.
pub fn sampled_values(states: &Vec<SurfaceSample>, values: &Vec<Scalar>, reference: EpochParts) -> (r:
    Vec<Scalar>)
    requires
        values@.len() == states@.len(),
    ensures
        r@ == scalar_rows(states@, values@, reference).flatten(),
{
    let mut r: Vec<Scalar> = Vec::new();
    let n = states.len();
    for i in 0..n
        invariant
            n == states@.len(),
            n == values@.len(),
            r@ == scalar_rows(states@.take(i as int), values@.take(i as int), reference).flatten(),
    {
        let s = states[i];
        let v = values[i];
        let ghost before = r@;
        let t = seconds_between(s.epoch, reference);
        r.push(t);
        r.push(v);
        proof {
            let rows = scalar_rows(states@.take(i as int), values@.take(i as int), reference);
            assert(scalar_rows(states@.take(i + 1), values@.take(i + 1), reference) =~= rows.push(
                scalar_row(s.epoch, v, reference),
            ));
            rows.lemma_flatten_push(scalar_row(s.epoch, v, reference));
            assert(r@ =~= before + scalar_row(s.epoch, v, reference));
        }
    }
    proof {
        assert(states@.take(n as int) =~= states@);
        assert(values@.take(n as int) =~= values@);
    }
    r
}

/// A flat array made of rows of equal width `w` has `w` values per row, and
/// the value at `i * w + j` is the `j`-th value of row `i`.
pub proof fn lemma_fixed_width_layout(rows: Seq<Seq<Scalar>>, w: int)
    requires
        w >= 0,
        forall|i: int| 0 <= i < rows.len() ==> (#[trigger] rows[i]).len() == w,
    ensures
        rows.flatten().len() == rows.len() * w,
        forall|i: int, j: int|
            0 <= i < rows.len() && 0 <= j < w ==> #[trigger] rows.flatten()[i * w + j]
                == rows[i][j],
    decreases rows.len(),
{
    if rows.len() == 0 {
    } else {
        let init = rows.drop_last();
        lemma_fixed_width_layout(init, w);
        assert(init.push(rows.last()) =~= rows);
        init.lemma_flatten_push(rows.last());
        let n = rows.len();
        assert((n - 1) * w + w == n * w) by (nonlinear_arith);
        assert forall|i: int, j: int| 0 <= i < rows.len() && 0 <= j < w implies #[trigger] rows.flatten()[i * w + j]
            == rows[i][j] by {
            if i < n - 1 {
                assert(i * w + j < (n - 1) * w) by (nonlinear_arith)
                    requires
                        0 <= i < n - 1,
                        0 <= j < w,
                ;
                assert(i * w + j >= 0) by (nonlinear_arith)
                    requires
                        0 <= i,
                        0 <= j,
                        w >= 0,
                ;
            } else {
                assert(i * w == (n - 1) * w);
            }
        }
    }
}

} // verus!
