use std::sync::Arc;

use vstd::prelude::*;
use vstd::string::StringExecFns;

use crate::config::SensorConfig;
use crate::czml::{
    interval_text, CzmlEllipse, CzmlMaterial, CzmlPacket, CzmlSampledDouble, HeightReference,
    InterpolationAlgorithm,
};
use crate::groundtrack::{
    is_surface_position, solid_material, surface_availability, surface_position,
};
use crate::samples::{
    lemma_fixed_width_layout, sampled_values, scalar_row, scalar_rows, SurfaceSample,
};
use crate::scalar::Scalar;
use crate::time::{elapsed_seconds_bits, epoch_to_iso, iso_of};

verus! {

/// A second handle on the same samples.
///
/// Calls `<Arc<Vec<Scalar>> as Clone>::clone` of std, which makes another
/// pointer to the same allocation. Trusted: the new handle reaches the same
/// values.
#[verifier::external_body]
fn share(samples: &Arc<Vec<Scalar>>) -> (r: Arc<Vec<Scalar>>)
    ensures
        *r == **samples,
{
    samples.clone()
}

/// A sampled radius: the ISO text of the first instant as its epoch, linear
/// interpolation, and the `[t, r]` pairs of the surface points and radii.
pub open spec fn is_radius_samples(
    d: CzmlSampledDouble,
    states: Seq<SurfaceSample>,
    radii_m: Seq<Scalar>,
) -> bool {
    &&& d.epoch@ == iso_of(states[0].epoch)
    &&& d.interpolation_algorithm == Some(InterpolationAlgorithm::Linear)
    &&& (*d.number)@ == scalar_rows(states, radii_m, states[0].epoch).flatten()
}

/// The footprint packet of a spacecraft: id `<object_id>-footprint`, name
/// `<sc_name> Footprint`, available over the samples, positioned on the
/// surface points, and carrying a circular ellipse (both semi-axes are the
/// same radius samples) in the sensor's color, clamped to the ground.
pub open spec fn is_footprint_packet(
    p: CzmlPacket,
    object_id: Seq<char>,
    sc_name: Seq<char>,
    states: Seq<SurfaceSample>,
    radii_m: Seq<Scalar>,
    sensor: SensorConfig,
) -> bool {
    &&& p.id@ == object_id + "-footprint"@
    &&& p.name matches Some(n) && n@ == sc_name + " Footprint"@
    &&& p.availability matches Some(a) && a@ == surface_availability(states)
    &&& p.position matches Some(pos) && is_surface_position(pos, states)
    &&& p.ellipse matches Some(e) && {
        &&& is_radius_samples(e.semi_major_axis, states, radii_m)
        &&& is_radius_samples(e.semi_minor_axis, states, radii_m)
        &&& e.material == solid_material(sensor.color)
        &&& e.height_reference == HeightReference::ClampToGround
        &&& e.show
    }
    &&& p.version is None
    &&& p.clock is None
    &&& p.path is None
    &&& p.label is None
    &&& p.point is None
}

/// A footprint is timed from its first sample: both semi-axes carry the same
/// epoch as the packet's position, the ISO text of the first sample's epoch,
/// which also opens the packet's availability; their `[t, r]` pairs count
/// times from that sample. The ellipse is in the sensor's color and the id is
/// the object's with a `-footprint` suffix.
pub proof fn lemma_footprint_packet(
    p: CzmlPacket,
    object_id: Seq<char>,
    sc_name: Seq<char>,
    states: Seq<SurfaceSample>,
    radii_m: Seq<Scalar>,
    sensor: SensorConfig,
)
    requires
        states.len() > 0,
        is_footprint_packet(p, object_id, sc_name, states, radii_m, sensor),
    ensures
        p.ellipse matches Some(e) && p.position matches Some(pos) && e.semi_major_axis.epoch@
            == pos.epoch@ && e.semi_minor_axis.epoch@ == pos.epoch@,
        p.ellipse matches Some(e) && e.semi_major_axis.epoch@ == iso_of(states[0].epoch),
        p.position matches Some(pos) && p.availability matches Some(a) && a@ == pos.epoch@ + "/"@
            + iso_of(states.last().epoch),
        p.ellipse matches Some(e) && (*e.semi_major_axis.number)@ == scalar_rows(
            states,
            radii_m,
            states[0].epoch,
        ).flatten(),
        p.ellipse matches Some(e) && e.material.solid_color.color.rgba == sensor.color,
        p.id@ == object_id + "-footprint"@,
        p.name matches Some(n) && n@ == sc_name + " Footprint"@,
{
}

/// The footprint is circular: both semi-axes hold the same samples.
pub proof fn lemma_footprint_is_circular(
    p: CzmlPacket,
    object_id: Seq<char>,
    sc_name: Seq<char>,
    states: Seq<SurfaceSample>,
    radii_m: Seq<Scalar>,
    sensor: SensorConfig,
)
    requires
        is_footprint_packet(p, object_id, sc_name, states, radii_m, sensor),
    ensures
        p.ellipse matches Some(e) && (*e.semi_major_axis.number)@ == (*e.semi_minor_axis.number)@
            && e.semi_major_axis.epoch@ == e.semi_minor_axis.epoch@,
{
}

/// Sampled radii hold two values per state, and the values of state `i`
/// are `[t, r]` at `2 * i`.
pub proof fn lemma_radius_samples_layout(
    d: CzmlSampledDouble,
    states: Seq<SurfaceSample>,
    radii_m: Seq<Scalar>,
)
    requires
        is_radius_samples(d, states, radii_m),
        radii_m.len() == states.len(),
    ensures
        (*d.number)@.len() == 2 * states.len(),
        forall|i: int, j: int|
            0 <= i < states.len() && 0 <= j < 2 ==> #[trigger] (*d.number)@[2 * i + j] == scalar_row(
                states[i].epoch,
                radii_m[i],
                states[0].epoch,
            )[j],
        forall|i: int|
            #![trigger states[i]]
            0 <= i < states.len() ==> {
                &&& (*d.number)@[2 * i] == Scalar(
                        elapsed_seconds_bits(
                            states[i].epoch.centuries,
                            states[i].epoch.nanoseconds,
                            states[i].epoch.time_scale,
                            states[0].epoch.centuries,
                            states[0].epoch.nanoseconds,
                            states[0].epoch.time_scale,
                        ),
                    )
                &&& (*d.number)@[2 * i + 1] == radii_m[i]
            },
{
    let rows = scalar_rows(states, radii_m, states[0].epoch);
    assert forall|i: int| 0 <= i < rows.len() implies (#[trigger] rows[i]).len() == 2 by {}
    lemma_fixed_width_layout(rows, 2);
    assert(rows.len() * 2 == 2 * states.len());
    assert forall|i: int, j: int| 0 <= i < states.len() && 0 <= j < 2 implies #[trigger] rows.flatten()[2 * i + j]
        == scalar_row(states[i].epoch, radii_m[i], states[0].epoch)[j] by {
        assert(2 * i + j == i * 2 + j);
        assert(rows.flatten()[i * 2 + j] == rows[i][j]);
    }
    assert forall|i: int| #![trigger states[i]] 0 <= i < states.len() implies {
        &&& rows.flatten()[2 * i] == scalar_row(states[i].epoch, radii_m[i], states[0].epoch)[0]
        &&& rows.flatten()[2 * i + 1] == radii_m[i]
    } by {
        let row = scalar_row(states[i].epoch, radii_m[i], states[0].epoch);
        assert(rows.flatten()[2 * i + 0] == row[0]);
        assert(rows.flatten()[2 * i + 1] == row[1]);
    }
}

/// Builds the footprint packet from the Earth-fixed samples and the
/// footprint radius (meters) at each of them.
pub fn build_footprint_packet(
    object_id: &str,
    sc_name: &str,
    ecef_states: &Vec<SurfaceSample>,
    radii_m: &Vec<Scalar>,
    sensor: &SensorConfig,
) -> (p: CzmlPacket)
    requires
        ecef_states@.len() > 0,
        radii_m@.len() == ecef_states@.len(),
    ensures
        is_footprint_packet(p, object_id@, sc_name@, ecef_states@, radii_m@, *sensor),
{
    let n = ecef_states.len();
    let reference = ecef_states[0].epoch;
    let epoch_str = epoch_to_iso(reference);
    let end_str = epoch_to_iso(ecef_states[n - 1].epoch);
    let availability = interval_text(epoch_str.as_str(), end_str.as_str());
    let position = surface_position(ecef_states);

    // Both axes are the same samples: the footprint is circular.
    let radius = Arc::new(sampled_values(ecef_states, radii_m, reference));
    let semi_major_axis = CzmlSampledDouble {
        epoch: String::from_str(epoch_str.as_str()),
        interpolation_algorithm: Some(InterpolationAlgorithm::Linear),
        number: share(&radius),
    };
    let semi_minor_axis = CzmlSampledDouble {
        epoch: epoch_str,
        interpolation_algorithm: Some(InterpolationAlgorithm::Linear),
        number: radius,
    };
    let ellipse = CzmlEllipse {
        semi_major_axis,
        semi_minor_axis,
        material: CzmlMaterial::solid(sensor.color),
        height_reference: HeightReference::ClampToGround,
        show: true,
    };
    CzmlPacket {
        id: String::from_str(object_id).concat("-footprint"),
        name: Some(String::from_str(sc_name).concat(" Footprint")),
        version: None,
        availability: Some(availability),
        clock: None,
        position: Some(position),
        path: None,
        label: None,
        ellipse: Some(ellipse),
        point: None,
    }
}

} // verus!
