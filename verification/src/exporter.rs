use vstd::prelude::*;
use vstd::string::StringExecFns;

use crate::config::CzmlExportCfg;
use crate::czml::{
    interval_of, interval_text, is_header, is_timeline_clock, CzmlColorHolder, CzmlDocument,
    CzmlLabel, CzmlMaterial, CzmlPacket, CzmlPath, CzmlPoint, CzmlPosition,
    InterpolationAlgorithm, ReferenceFrame,
};
use crate::error::CzmlError;
use crate::footprint::{build_footprint_packet, is_footprint_packet};
use crate::groundtrack::{build_groundtrack_packet, is_groundtrack_packet, solid_material};
use crate::samples::{
    lemma_fixed_width_layout, state_cartesian_velocity, state_row, state_rows, StateSample,
    SurfaceSample,
};
use crate::scalar::{Scalar, EIGHT_BITS, ONE_BITS, SIXTY_BITS, TWO_BITS, ZERO_BITS};
use crate::time::{elapsed_seconds_bits, epoch_to_iso, iso_of, EpochParts};

verus! {

/// A bound of the exported window: the configured one, else the
/// trajectory's own (`None` when the trajectory has no state).
pub open spec fn window_bound(configured: Option<EpochParts>, own: Option<EpochParts>) -> Option<
    EpochParts,
> {
    match configured {
        Some(b) => Some(b),
        None => own,
    }
}

/// The window `[start, end]` to export, when both bounds are known.
pub open spec fn window_of(
    cfg: CzmlExportCfg,
    first: Option<EpochParts>,
    last: Option<EpochParts>,
) -> Option<(EpochParts, EpochParts)> {
    match (window_bound(cfg.start_epoch, first), window_bound(cfg.end_epoch, last)) {
        (Some(s), Some(e)) => Some((s, e)),
        _ => None,
    }
}

/// The window `[start, end]` to export from a trajectory whose first and
/// last epochs are `first` and `last` (`None` for a trajectory without
/// states): each bound is the configured one, else the trajectory's own.
/// There is no window when a bound is not configured and the trajectory has
/// no state to take it from.
pub fn export_window(
    cfg: &CzmlExportCfg,
    first: Option<EpochParts>,
    last: Option<EpochParts>,
) -> (w: Option<(EpochParts, EpochParts)>)
    ensures
        w == window_of(*cfg, first, last),
{
    let start = match cfg.start_epoch {
        Some(s) => s,
        None => match first {
            Some(f) => f,
            None => {
                return None;
            },
        },
    };
    let end = match cfg.end_epoch {
        Some(e) => e,
        None => match last {
            Some(l) => l,
            None => {
                return None;
            },
        },
    };
    Some((start, end))
}

/// Each bound of the exported window is the configured one when there is
/// one, whatever the other bound, and the trajectory's own otherwise; there
/// is a window exactly when both bounds can be had.
pub proof fn lemma_window_bounds(
    cfg: CzmlExportCfg,
    first: Option<EpochParts>,
    last: Option<EpochParts>,
)
    ensures
        window_of(cfg, first, last) is Some <==> ((cfg.start_epoch is Some || first is Some) && (
        cfg.end_epoch is Some || last is Some)),
        forall|s: EpochParts, w: (EpochParts, EpochParts)|
            cfg.start_epoch == Some(s) && window_of(cfg, first, last) == Some(w) ==> w.0 == s,
        forall|e: EpochParts, w: (EpochParts, EpochParts)|
            cfg.end_epoch == Some(e) && window_of(cfg, first, last) == Some(w) ==> w.1 == e,
        forall|w: (EpochParts, EpochParts)|
            cfg.start_epoch is None && window_of(cfg, first, last) == Some(w) ==> first == Some(
                w.0,
            ),
        forall|w: (EpochParts, EpochParts)|
            cfg.end_epoch is None && window_of(cfg, first, last) == Some(w) ==> last == Some(w.1),
{
}

/// Whether the export needs the trajectory in the Earth-fixed frame: it
/// does when a ground track or a sensor footprint is asked for.
pub fn needs_surface_states(cfg: &CzmlExportCfg) -> (b: bool)
    ensures
        b == (cfg.show_ground_track || cfg.sensor is Some),
{
    cfg.show_ground_track || cfg.sensor.is_some()
}

/// The availability interval of non-empty states: from the ISO text of the
/// first instant to that of the last.
pub open spec fn state_availability(states: Seq<StateSample>) -> Seq<char> {
    interval_of(iso_of(states[0].epoch), iso_of(states.last().epoch))
}

/// The label that names the spacecraft: white text outlined in black.
pub open spec fn is_name_label(l: CzmlLabel, name: Seq<char>) -> bool {
    &&& l.text@ == name
    &&& l.font@ == "11pt Lucida Console"@
    &&& l.style@ == "FILL_AND_OUTLINE"@
    &&& l.fill_color == CzmlColorHolder { rgba: [255u8, 255u8, 255u8, 255u8] }
    &&& l.outline_color == CzmlColorHolder { rgba: [0u8, 0u8, 0u8, 255u8] }
    &&& l.outline_width == Scalar(TWO_BITS)
    &&& l.horizontal_origin@ == "LEFT"@
    &&& l.show
}

/// The trail of the spacecraft: width 1 in the path color, no lead, the
/// configured trail and a 60 s resolution.
pub open spec fn spacecraft_path(cfg: CzmlExportCfg) -> CzmlPath {
    CzmlPath {
        show: true,
        width: Scalar(ONE_BITS),
        material: solid_material(cfg.path_color),
        lead_time: Scalar(ZERO_BITS),
        trail_time: cfg.trail_time_s,
        resolution: Scalar(SIXTY_BITS),
    }
}

/// The inertial position of the states, Hermite-interpolated with degree
/// 5, as `[t, x, y, z, vx, vy, vz]` per state with times counted from the
/// first state.
pub open spec fn is_inertial_position(pos: CzmlPosition, states: Seq<StateSample>) -> bool {
    &&& pos.epoch@ == iso_of(states[0].epoch)
    &&& pos.reference_frame == ReferenceFrame::Inertial
    &&& pos.interpolation_algorithm == Some(InterpolationAlgorithm::Hermite)
    &&& pos.interpolation_degree == Some(5u32)
    &&& pos.cartesian_velocity matches Some(cv) && cv@ == state_rows(
        states,
        states[0].epoch,
    ).flatten()
    &&& pos.cartesian is None
}

/// The spacecraft packet: id and name from the configuration, available over
/// the states, positioned by them, with the trail and label the
/// configuration asks for and a point of size 8 in the path color.
pub open spec fn is_spacecraft_packet(
    p: CzmlPacket,
    cfg: CzmlExportCfg,
    states: Seq<StateSample>,
) -> bool {
    &&& p.id@ == cfg.object_id@
    &&& p.name matches Some(n) && n@ == cfg.name@
    &&& p.availability matches Some(a) && a@ == state_availability(states)
    &&& p.position matches Some(pos) && is_inertial_position(pos, states)
    &&& p.path == (if cfg.show_path {
        Some(spacecraft_path(cfg))
    } else {
        None
    })
    &&& (if cfg.show_label {
        p.label matches Some(l) && is_name_label(l, cfg.name@)
    } else {
        p.label is None
    })
    &&& p.point == Some(
        CzmlPoint {
            pixel_size: Scalar(EIGHT_BITS),
            color: CzmlColorHolder { rgba: cfg.path_color },
            show: true,
        },
    )
    &&& p.version is None
    &&& p.clock is None
    &&& p.ellipse is None
}

/// The document made of the collected inertial states: the header named
/// after the configuration, with a clock over the states played at the
/// configured multiplier, followed by the spacecraft packet.
pub open spec fn is_spacecraft_document(
    doc: CzmlDocument,
    cfg: CzmlExportCfg,
    states: Seq<StateSample>,
) -> bool {
    let h = doc.0@[0];
    &&& doc.0@.len() == 2
    &&& is_header(h)
    &&& h.name matches Some(n) && n@ == cfg.name@
    &&& h.clock matches Some(c) && is_timeline_clock(
        c,
        iso_of(states[0].epoch),
        iso_of(states.last().epoch),
        cfg.clock_multiplier,
    )
    &&& h.availability is None
    &&& h.position is None
    &&& h.path is None
    &&& h.label is None
    &&& h.ellipse is None
    &&& h.point is None
    &&& is_spacecraft_packet(doc.0@[1], cfg, states)
}

/// Builds the spacecraft packet from non-empty inertial states.
fn build_spacecraft_packet(
    cfg: &CzmlExportCfg,
    states: &Vec<StateSample>,
    epoch_str: &str,
    availability: String,
) -> (p: CzmlPacket)
    requires
        states@.len() > 0,
        epoch_str@ == iso_of(states@[0].epoch),
        availability@ == state_availability(states@),
    ensures
        is_spacecraft_packet(p, *cfg, states@),
        p.position matches Some(pos) && pos.cartesian_velocity matches Some(cv) && cv@[0] == Scalar(
            0u64,
        ),
{
    let reference = states[0].epoch;
    let position = CzmlPosition {
        epoch: String::from_str(epoch_str),
        reference_frame: ReferenceFrame::Inertial,
        interpolation_algorithm: Some(InterpolationAlgorithm::Hermite),
        interpolation_degree: Some(5u32),
        cartesian_velocity: Some(state_cartesian_velocity(states, reference)),
        cartesian: None,
    };
    let path = if cfg.show_path {
        Some(
            CzmlPath {
                show: true,
                width: Scalar(ONE_BITS),
                material: CzmlMaterial::solid(cfg.path_color),
                lead_time: Scalar(ZERO_BITS),
                trail_time: cfg.trail_time_s,
                resolution: Scalar(SIXTY_BITS),
            },
        )
    } else {
        None
    };
    let label = if cfg.show_label {
        Some(
            CzmlLabel {
                text: cfg.name.clone(),
                font: String::from_str("11pt Lucida Console"),
                style: String::from_str("FILL_AND_OUTLINE"),
                fill_color: CzmlColorHolder { rgba: [255u8, 255u8, 255u8, 255u8] },
                outline_color: CzmlColorHolder { rgba: [0u8, 0u8, 0u8, 255u8] },
                outline_width: Scalar(TWO_BITS),
                horizontal_origin: String::from_str("LEFT"),
                show: true,
            },
        )
    } else {
        None
    };
    let point = CzmlPoint {
        pixel_size: Scalar(EIGHT_BITS),
        color: CzmlColorHolder { rgba: cfg.path_color },
        show: true,
    };
    CzmlPacket {
        id: cfg.object_id.clone(),
        name: Some(cfg.name.clone()),
        version: None,
        availability: Some(availability),
        clock: None,
        position: Some(position),
        path,
        label,
        ellipse: None,
        point: Some(point),
    }
}

/// Starts the document of an export from the collected inertial states:
/// fails with `EmptyTrajectory` exactly when there is none, and otherwise
/// gives the header with its clock and the spacecraft packet.
pub fn spacecraft_document(cfg: &CzmlExportCfg, states: &Vec<StateSample>) -> (r: Result<
    CzmlDocument,
    CzmlError,
>)
    ensures
        r is Err <==> states@.len() == 0,
        r matches Err(e) ==> e is EmptyTrajectory,
        r matches Ok(doc) ==> is_spacecraft_document(doc, *cfg, states@),
        r matches Ok(doc) ==> (doc.0@[1].position matches Some(pos)
            && pos.cartesian_velocity matches Some(cv) && cv@[0] == Scalar(0u64)),
        r matches Ok(doc) ==> doc.wf(),
        r matches Ok(doc) ==> packet_ids(doc.0@) == seq!["document"@, cfg.object_id@],
{
    if states.len() == 0 {
        return Err(CzmlError::EmptyTrajectory);
    }
    let n = states.len();
    let epoch_str = epoch_to_iso(states[0].epoch);
    let end_str = epoch_to_iso(states[n - 1].epoch);
    let availability = interval_text(epoch_str.as_str(), end_str.as_str());

    let mut doc = CzmlDocument::new(cfg.name.as_str());
    doc.set_clock(epoch_str.as_str(), end_str.as_str(), cfg.clock_multiplier);
    let packet = build_spacecraft_packet(cfg, states, epoch_str.as_str(), availability);
    doc.push(packet);
    Ok(doc)
}

/// What an exported document shows of its configuration and states: the
/// header is named after the configuration and plays the timeline from the
/// start of the spacecraft's availability, over exactly that availability,
/// at the configured speed; the spacecraft packet keeps the configured id and
/// name, is positioned from its first state (the epoch that opens its
/// availability), and draws its trail and point in the path color, its trail
/// for the configured time, and its label with its name.
pub proof fn lemma_spacecraft_document(
    doc: CzmlDocument,
    cfg: CzmlExportCfg,
    states: Seq<StateSample>,
)
    requires
        states.len() > 0,
        is_spacecraft_document(doc, cfg, states),
    ensures
        doc.0@[0].name matches Some(n) && n@ == cfg.name@,
        doc.0@[0].clock matches Some(c) && doc.0@[1].availability matches Some(a) && c.interval@
            == a@,
        doc.0@[0].clock matches Some(c) && doc.0@[1].position matches Some(pos)
            && c.current_time@ == pos.epoch@,
        doc.0@[0].clock matches Some(c) && c.multiplier == cfg.clock_multiplier,
        doc.0@[1].position matches Some(pos) && doc.0@[1].availability matches Some(a) && a@
            == pos.epoch@ + "/"@ + iso_of(states.last().epoch),
        doc.0@[1].position matches Some(pos) && pos.epoch@ == iso_of(states[0].epoch),
        doc.0@[1].id@ == cfg.object_id@,
        doc.0@[1].name matches Some(n) && n@ == cfg.name@,
        doc.0@[1].path is Some <==> cfg.show_path,
        doc.0@[1].label is Some <==> cfg.show_label,
        doc.0@[1].path matches Some(path) ==> path.material.solid_color.color.rgba
            == cfg.path_color,
        doc.0@[1].path matches Some(path) ==> path.trail_time == cfg.trail_time_s,
        doc.0@[1].point matches Some(pt) && pt.color.rgba == cfg.path_color,
        doc.0@[1].label matches Some(l) ==> l.text@ == cfg.name@,
{
}

/// In an exported document the timeline clock of the header spans exactly
/// the availability of the spacecraft packet.
pub proof fn lemma_clock_spans_availability(
    doc: CzmlDocument,
    cfg: CzmlExportCfg,
    states: Seq<StateSample>,
)
    requires
        is_spacecraft_document(doc, cfg, states),
    ensures
        doc.0@[0].clock matches Some(c) && doc.0@[1].availability matches Some(a) && c.interval@
            == a@,
{
}

/// The spacecraft position of an export holds seven values per state, and
/// the values of state `i` are `[t, x, y, z, vx, vy, vz]` at `7 * i`.
pub proof fn lemma_spacecraft_position_layout(
    doc: CzmlDocument,
    cfg: CzmlExportCfg,
    states: Seq<StateSample>,
)
    requires
        is_spacecraft_document(doc, cfg, states),
    ensures
        doc.0@[1].position matches Some(pos) && pos.cartesian_velocity matches Some(cv) && {
            &&& cv@.len() == 7 * states.len()
            &&& forall|i: int, j: int|
                0 <= i < states.len() && 0 <= j < 7 ==> #[trigger] cv@[7 * i + j] == state_row(
                    states[i],
                    states[0].epoch,
                )[j]
            &&& forall|i: int|
                #![trigger states[i]]
                0 <= i < states.len() ==> {
                    &&& cv@[7 * i] == Scalar(
                        elapsed_seconds_bits(
                            states[i].epoch.centuries,
                            states[i].epoch.nanoseconds,
                            states[i].epoch.time_scale,
                            states[0].epoch.centuries,
                            states[0].epoch.nanoseconds,
                            states[0].epoch.time_scale,
                        ),
                    )
                    &&& cv@[7 * i + 1] == states[i].position_m.x
                    &&& cv@[7 * i + 2] == states[i].position_m.y
                    &&& cv@[7 * i + 3] == states[i].position_m.z
                    &&& cv@[7 * i + 4] == states[i].velocity_m_s.x
                    &&& cv@[7 * i + 5] == states[i].velocity_m_s.y
                    &&& cv@[7 * i + 6] == states[i].velocity_m_s.z
                }
        },
{
    let rows = state_rows(states, states[0].epoch);
    assert forall|i: int| 0 <= i < rows.len() implies (#[trigger] rows[i]).len() == 7 by {}
    lemma_fixed_width_layout(rows, 7);
    assert(rows.len() * 7 == 7 * states.len());
    assert forall|i: int, j: int| 0 <= i < states.len() && 0 <= j < 7 implies #[trigger] rows.flatten()[7 * i + j]
        == state_row(states[i], states[0].epoch)[j] by {
        assert(7 * i + j == i * 7 + j);
        assert(rows.flatten()[i * 7 + j] == rows[i][j]);
    }
    assert forall|i: int| #![trigger states[i]] 0 <= i < states.len() implies {
        &&& rows.flatten()[7 * i] == Scalar(
            elapsed_seconds_bits(
                states[i].epoch.centuries,
                states[i].epoch.nanoseconds,
                states[i].epoch.time_scale,
                states[0].epoch.centuries,
                states[0].epoch.nanoseconds,
                states[0].epoch.time_scale,
            ),
        )
        &&& rows.flatten()[7 * i + 1] == states[i].position_m.x
        &&& rows.flatten()[7 * i + 2] == states[i].position_m.y
        &&& rows.flatten()[7 * i + 3] == states[i].position_m.z
        &&& rows.flatten()[7 * i + 4] == states[i].velocity_m_s.x
        &&& rows.flatten()[7 * i + 5] == states[i].velocity_m_s.y
        &&& rows.flatten()[7 * i + 6] == states[i].velocity_m_s.z
    } by {
        let row = state_row(states[i], states[0].epoch);
        assert(rows.flatten()[7 * i + 0] == row[0]);
        assert(rows.flatten()[7 * i + 1] == row[1]);
        assert(rows.flatten()[7 * i + 2] == row[2]);
        assert(rows.flatten()[7 * i + 3] == row[3]);
        assert(rows.flatten()[7 * i + 4] == row[4]);
        assert(rows.flatten()[7 * i + 5] == row[5]);
        assert(rows.flatten()[7 * i + 6] == row[6]);
    }
}

/// The ids of a sequence of packets, in order.
pub open spec fn packet_ids(packets: Seq<CzmlPacket>) -> Seq<Seq<char>> {
    packets.map_values(|p: CzmlPacket| p.id@)
}

/// The ids of the surface packets the configuration asks for, in order.
pub open spec fn surface_ids(cfg: CzmlExportCfg) -> Seq<Seq<char>> {
    (if cfg.show_ground_track {
        seq![cfg.object_id@ + "-groundtrack"@]
    } else {
        Seq::empty()
    }) + (if cfg.sensor is Some {
        seq![cfg.object_id@ + "-footprint"@]
    } else {
        Seq::empty()
    })
}

/// The packet ids of an export are distinct (as CZML requires) whenever the
/// spacecraft's id is not `document`.
pub proof fn lemma_export_ids_distinct(cfg: CzmlExportCfg)
    requires
        cfg.object_id@ != "document"@,
    ensures
        ({
            let ids = seq!["document"@, cfg.object_id@] + surface_ids(cfg);
            forall|i: int, j: int| 0 <= i < j < ids.len() ==> ids[i] != ids[j]
        }),
{
    reveal_strlit("document");
    reveal_strlit("-groundtrack");
    reveal_strlit("-footprint");
    let ids = seq!["document"@, cfg.object_id@] + surface_ids(cfg);
    assert forall|i: int, j: int| 0 <= i < j < ids.len() implies ids[i] != ids[j] by {
        assert(ids[i].len() != ids[j].len() || ids[i] != ids[j]);
    }
}

/// How many surface packets the configuration asks for: one for the ground
/// track, one for the sensor footprint.
pub open spec fn surface_packet_count(cfg: CzmlExportCfg) -> int {
    (if cfg.show_ground_track {
        1int
    } else {
        0int
    }) + (if cfg.sensor is Some {
        1int
    } else {
        0int
    })
}

/// Appends the surface packets the configuration asks for, built from the
/// Earth-fixed states (and, for a footprint, the radius at each of them):
/// first the ground track, then the footprint.
pub fn add_surface_packets(
    doc: &mut CzmlDocument,
    cfg: &CzmlExportCfg,
    ecef_states: &Vec<SurfaceSample>,
    radii_m: &Vec<Scalar>,
)
    requires
        cfg.show_ground_track || cfg.sensor is Some ==> ecef_states@.len() > 0,
        cfg.sensor is Some ==> radii_m@.len() == ecef_states@.len(),
    ensures
        final(doc).0@.len() == old(doc).0@.len() + surface_packet_count(*cfg),
        forall|i: int| 0 <= i < old(doc).0@.len() ==> final(doc).0@[i] == old(doc).0@[i],
        cfg.show_ground_track ==> is_groundtrack_packet(
            final(doc).0@[old(doc).0@.len() as int],
            cfg.object_id@,
            cfg.name@,
            ecef_states@,
            cfg.trail_time_s,
            cfg.ground_track_color,
        ),
        cfg.sensor matches Some(s) ==> is_footprint_packet(
            final(doc).0@.last(),
            cfg.object_id@,
            cfg.name@,
            ecef_states@,
            radii_m@,
            s,
        ),
        old(doc).wf() ==> final(doc).wf(),
        packet_ids(final(doc).0@) == packet_ids(old(doc).0@) + surface_ids(*cfg),
{
    let ghost before = doc.0@;
    if cfg.show_ground_track {
        let p = build_groundtrack_packet(
            cfg.object_id.as_str(),
            cfg.name.as_str(),
            ecef_states,
            cfg.trail_time_s,
            cfg.ground_track_color,
        );
        doc.push(p);
    }
    match &cfg.sensor {
        Some(sensor) => {
            let p = build_footprint_packet(
                cfg.object_id.as_str(),
                cfg.name.as_str(),
                ecef_states,
                radii_m,
                sensor,
            );
            doc.push(p);
        },
        None => {},
    }
    proof {
        assert(packet_ids(doc.0@) =~= packet_ids(before) + surface_ids(*cfg));
    }
}

} // verus!
