use vstd::prelude::*;
use vstd::string::StringExecFns;

use crate::czml::{
    interval_of, interval_text, CzmlColorHolder, CzmlMaterial, CzmlPacket, CzmlPath,
    CzmlPosition, CzmlSolidColor, InterpolationAlgorithm, ReferenceFrame,
};
use crate::samples::{
    lemma_fixed_width_layout, surface_cartesian, surface_row, surface_rows, SurfaceSample,
};
use crate::scalar::{Scalar, ONE_AND_HALF_BITS, THIRTY_BITS, ZERO_BITS};
use crate::time::{elapsed_seconds_bits, epoch_to_iso, iso_of, EpochParts};

verus! {

/// A solid material of the given color.
pub open spec fn solid_material(rgba: [u8; 4]) -> CzmlMaterial {
    CzmlMaterial { solid_color: CzmlSolidColor { color: CzmlColorHolder { rgba } } }
}

/// The availability interval of non-empty samples: from the ISO text of the
/// first instant to that of the last.
pub open spec fn surface_availability(states: Seq<SurfaceSample>) -> Seq<char> {
    interval_of(iso_of(states[0].epoch), iso_of(states.last().epoch))
}

/// A position made of the surface points of `states` in the Earth-fixed
/// frame, interpolated by Lagrange polynomials of degree 5, with times
/// counted from the first state.
pub open spec fn is_surface_position(pos: CzmlPosition, states: Seq<SurfaceSample>) -> bool {
    &&& pos.epoch@ == iso_of(states[0].epoch)
    &&& pos.reference_frame == ReferenceFrame::Fixed
    &&& pos.interpolation_algorithm == Some(InterpolationAlgorithm::Lagrange)
    &&& pos.interpolation_degree == Some(5u32)
    &&& pos.cartesian matches Some(c) && c@ == surface_rows(states, states[0].epoch).flatten()
    &&& pos.cartesian_velocity is None
}

/// Builds the position shared by the ground-track and footprint packets.
pub fn surface_position(states: &Vec<SurfaceSample>) -> (pos: CzmlPosition)
    requires
        states@.len() > 0,
    ensures
        is_surface_position(pos, states@),
        pos.cartesian matches Some(c) && c@[0] == Scalar(0u64),
{
    let reference = states[0].epoch;
    CzmlPosition {
        epoch: epoch_to_iso(reference),
        reference_frame: ReferenceFrame::Fixed,
        interpolation_algorithm: Some(InterpolationAlgorithm::Lagrange),
        interpolation_degree: Some(5u32),
        cartesian: Some(surface_cartesian(states, reference)),
        cartesian_velocity: None,
    }
}

/// A surface position holds four values per state, and the values of state
/// `i` are `[t, x, y, z]` at `4 * i`.
pub proof fn lemma_surface_position_layout(pos: CzmlPosition, states: Seq<SurfaceSample>)
    requires
        is_surface_position(pos, states),
    ensures
        pos.cartesian matches Some(c) && {
            &&& c@.len() == 4 * states.len()
            &&& forall|i: int, j: int|
                0 <= i < states.len() && 0 <= j < 4 ==> #[trigger] c@[4 * i + j] == surface_row(
                    states[i],
                    states[0].epoch,
                )[j]
            &&& forall|i: int|
                #![trigger states[i]]
                0 <= i < states.len() ==> {
                    &&& c@[4 * i] == Scalar(
                        elapsed_seconds_bits(
                            states[i].epoch.centuries,
                            states[i].epoch.nanoseconds,
                            states[i].epoch.time_scale,
                            states[0].epoch.centuries,
                            states[0].epoch.nanoseconds,
                            states[0].epoch.time_scale,
                        ),
                    )
                    &&& c@[4 * i + 1] == states[i].surface_m.x
                    &&& c@[4 * i + 2] == states[i].surface_m.y
                    &&& c@[4 * i + 3] == states[i].surface_m.z
                }
        },
{
    let rows = surface_rows(states, states[0].epoch);
    assert forall|i: int| 0 <= i < rows.len() implies (#[trigger] rows[i]).len() == 4 by {}
    lemma_fixed_width_layout(rows, 4);
    assert(rows.len() * 4 == 4 * states.len());
    assert forall|i: int, j: int| 0 <= i < states.len() && 0 <= j < 4 implies #[trigger] rows.flatten()[4 * i + j]
        == surface_row(states[i], states[0].epoch)[j] by {
        assert(4 * i + j == i * 4 + j);
        assert(rows.flatten()[i * 4 + j] == rows[i][j]);
    }
    assert forall|i: int| #![trigger states[i]] 0 <= i < states.len() implies {
        &&& rows.flatten()[4 * i] == surface_row(states[i], states[0].epoch)[0]
        &&& rows.flatten()[4 * i + 1] == states[i].surface_m.x
        &&& rows.flatten()[4 * i + 2] == states[i].surface_m.y
        &&& rows.flatten()[4 * i + 3] == states[i].surface_m.z
    } by {
        let row = surface_row(states[i], states[0].epoch);
        assert(rows.flatten()[4 * i + 0] == row[0]);
        assert(rows.flatten()[4 * i + 1] == row[1]);
        assert(rows.flatten()[4 * i + 2] == row[2]);
        assert(rows.flatten()[4 * i + 3] == row[3]);
    }
}

/// The ground-track packet of a spacecraft: id `<object_id>-groundtrack`,
/// name `<sc_name> Ground Track`, available over the samples, positioned on
/// the surface points, drawn as a path of width 1.5 in `color` with
/// `trail_time_s` seconds of trail, no lead and a 30 s resolution.
pub open spec fn is_groundtrack_packet(
    p: CzmlPacket,
    object_id: Seq<char>,
    sc_name: Seq<char>,
    states: Seq<SurfaceSample>,
    trail_time_s: Scalar,
    color: [u8; 4],
) -> bool {
    &&& p.id@ == object_id + "-groundtrack"@
    &&& p.name matches Some(n) && n@ == sc_name + " Ground Track"@
    &&& p.availability matches Some(a) && a@ == surface_availability(states)
    &&& p.position matches Some(pos) && is_surface_position(pos, states)
    &&& p.path == Some(
        CzmlPath {
            show: true,
            width: Scalar(ONE_AND_HALF_BITS),
            material: solid_material(color),
            lead_time: Scalar(ZERO_BITS),
            trail_time: trail_time_s,
            resolution: Scalar(THIRTY_BITS),
        },
    )
    &&& p.version is None
    &&& p.clock is None
    &&& p.label is None
    &&& p.ellipse is None
    &&& p.point is None
}

/// A surface position is timed from its first sample: its epoch is the ISO
/// text of the first sample's epoch, the instant from which the offsets of
/// its points are counted.
pub proof fn lemma_surface_position_epoch(pos: CzmlPosition, states: Seq<SurfaceSample>)
    requires
        states.len() > 0,
        is_surface_position(pos, states),
    ensures
        pos.epoch@ == iso_of(states[0].epoch),
        exists|r: EpochParts|
            #![trigger iso_of(r)]
            pos.epoch@ == iso_of(r) && r == states[0].epoch && (pos.cartesian matches Some(c)
                && c@ == surface_rows(states, r).flatten()),
{
    assert(pos.epoch@ == iso_of(states[0].epoch));
}

/// A ground track is available from its position's epoch to its last
/// sample, keeps the object's id with a `-groundtrack` suffix, lies in the
/// Earth-fixed frame, and is drawn in the given color with the given trail.
pub proof fn lemma_groundtrack_packet(
    p: CzmlPacket,
    object_id: Seq<char>,
    sc_name: Seq<char>,
    states: Seq<SurfaceSample>,
    trail_time_s: Scalar,
    color: [u8; 4],
)
    requires
        states.len() > 0,
        is_groundtrack_packet(p, object_id, sc_name, states, trail_time_s, color),
    ensures
        p.position matches Some(pos) && p.availability matches Some(a) && a@ == pos.epoch@ + "/"@
            + iso_of(states.last().epoch),
        p.position matches Some(pos) && pos.epoch@ == iso_of(states[0].epoch),
        p.position matches Some(pos) && pos.reference_frame == ReferenceFrame::Fixed,
        p.path matches Some(path) && path.material.solid_color.color.rgba == color,
        p.path matches Some(path) && path.trail_time == trail_time_s,
        p.id@ == object_id + "-groundtrack"@,
        p.name matches Some(n) && n@ == sc_name + " Ground Track"@,
{
}

/// Builds the ground-track packet from the Earth-fixed samples.
pub fn build_groundtrack_packet(
    object_id: &str,
    sc_name: &str,
    ecef_states: &Vec<SurfaceSample>,
    trail_time_s: Scalar,
    color: [u8; 4],
) -> (p: CzmlPacket)
    requires
        ecef_states@.len() > 0,
    ensures
        is_groundtrack_packet(p, object_id@, sc_name@, ecef_states@, trail_time_s, color),
{
    let n = ecef_states.len();
    let epoch_str = epoch_to_iso(ecef_states[0].epoch);
    let end_str = epoch_to_iso(ecef_states[n - 1].epoch);
    let availability = interval_text(epoch_str.as_str(), end_str.as_str());
    let position = surface_position(ecef_states);
    let path = CzmlPath {
        show: true,
        width: Scalar(ONE_AND_HALF_BITS),
        material: CzmlMaterial::solid(color),
        lead_time: Scalar(ZERO_BITS),
        trail_time: trail_time_s,
        resolution: Scalar(THIRTY_BITS),
    };
    CzmlPacket {
        id: String::from_str(object_id).concat("-groundtrack"),
        name: Some(String::from_str(sc_name).concat(" Ground Track")),
        version: None,
        availability: Some(availability),
        clock: None,
        position: Some(position),
        path: Some(path),
        label: None,
        ellipse: None,
        point: None,
    }
}

} // verus!
