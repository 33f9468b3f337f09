//! Propagates a real nyx trajectory and checks the document that the library
//! builds from its states.

use std::sync::Arc;

use anise::constants::frames::EARTH_J2000;
use anise::prelude::{Almanac, Frame, Orbit};
use hifitime::{Duration, Epoch, TimeScale, Unit};
use nyx_space::cosmic::Spacecraft;
use nyx_space::dynamics::{OrbitalDynamics, SpacecraftDynamics};
use nyx_space::md::prelude::Propagator;
use nyx_space::md::Trajectory;

use nyx_czml::{
    collect_states, export_window, spacecraft_document, ClockRange, ClockStep, CzmlDocument,
    CzmlExportCfg, InterpolationAlgorithm, ReferenceFrame, Scalar, StateSample, EpochParts, Vec3,
};

// ---------------------------------------------------------------------------
// Fixtures
// ---------------------------------------------------------------------------

/// Earth's GM (km³/s²) embedded in the frame so tests need no data files.
const EARTH_GM: f64 = 398_600.435_436;

fn propagate_leo() -> (Orbit, Trajectory) {
    propagate_leo_with(Arc::new(Almanac::default()), EARTH_J2000.with_mu_km3_s2(EARTH_GM))
}

fn propagate_leo_with(almanac: Arc<Almanac>, frame: Frame) -> (Orbit, Trajectory) {
    let epoch = Epoch::from_gregorian_utc_at_midnight(2024, 1, 1);
    let orbit = Orbit::try_keplerian(6778.0, 0.0001, 45.0, 0.0, 0.0, 0.0, epoch, frame)
        .expect("valid keplerian orbit");
    let sc = Spacecraft::builder().orbit(orbit).build();
    let (_, traj) = Propagator::default(SpacecraftDynamics::new(OrbitalDynamics::two_body()))
        .with(sc, almanac)
        .for_duration_with_traj(92.0 * Unit::Minute)
        .expect("propagation succeeded");
    (orbit, traj)
}

fn parts(e: Epoch) -> EpochParts {
    let (centuries, nanoseconds) = e.duration.to_parts();
    EpochParts { centuries, nanoseconds, time_scale: u8::from(e.time_scale) }
}

fn epoch(p: EpochParts) -> Epoch {
    Epoch::from_duration(
        Duration::from_parts(p.centuries, p.nanoseconds),
        TimeScale::from(p.time_scale),
    )
}

fn meters(km: f64) -> Scalar {
    Scalar((km * 1000.0).to_bits())
}

fn sample(sc: &Spacecraft) -> StateSample {
    let r = sc.orbit.radius_km;
    let v = sc.orbit.velocity_km_s;
    StateSample {
        epoch: parts(sc.orbit.epoch),
        position_m: Vec3 { x: meters(r.x), y: meters(r.y), z: meters(r.z) },
        velocity_m_s: Vec3 { x: meters(v.x), y: meters(v.y), z: meters(v.z) },
    }
}

/// The document of the trajectory's states in the configured window.
fn export(traj: &Trajectory, cfg: CzmlExportCfg) -> CzmlDocument {
    let raw: Vec<StateSample> = traj.states.iter().map(sample).collect();
    let (start, end) =
        export_window(
            &cfg,
            traj.states.first().map(|s| parts(s.orbit.epoch)),
            traj.states.last().map(|s| parts(s.orbit.epoch)),
        )
        .expect("trajectory has states");
    let states = match cfg.step {
        None => collect_states(&raw, start, end),
        Some(step) => traj
            .every_between(
                Duration::from_parts(step.centuries, step.nanoseconds),
                epoch(start),
                epoch(end),
            )
            .map(|s| sample(&s))
            .collect(),
    };
    spacecraft_document(&cfg, &states).expect("export succeeded")
}

fn value(s: Scalar) -> f64 {
    f64::from_bits(s.0)
}

fn cartesian_velocity(doc: &CzmlDocument) -> Vec<f64> {
    doc.0[1].position.as_ref().unwrap().cartesian_velocity.as_ref().unwrap().iter().map(|s| value(*s)).collect()
}

// ---------------------------------------------------------------------------
// Document structure
// ---------------------------------------------------------------------------

#[test]
fn czml_is_valid_json_array() {
    let (_, traj) = propagate_leo();
    let doc = export(&traj, CzmlExportCfg::new("Test SC"));
    assert!(!doc.0.is_empty());
}

#[test]
fn document_header_is_first_packet() {
    let (_, traj) = propagate_leo();
    let doc = export(&traj, CzmlExportCfg::new("My Mission"));
    assert_eq!(doc.0[0].id, "document");
    assert_eq!(doc.0[0].name.as_deref(), Some("My Mission"));
    assert_eq!(doc.0[0].version.as_deref(), Some("1.0"));
}

#[test]
fn spacecraft_packet_is_second() {
    let (_, traj) = propagate_leo();
    let doc = export(&traj, CzmlExportCfg::new("SC").without_path().without_label());
    assert_eq!(doc.0.len(), 2, "header + spacecraft");
    assert_eq!(doc.0[1].id, "spacecraft");
}

// ---------------------------------------------------------------------------
// Clock
// ---------------------------------------------------------------------------

#[test]
fn document_has_clock_with_correct_interval() {
    let (_, traj) = propagate_leo();
    let doc = export(&traj, CzmlExportCfg::new("SC"));
    let clock = doc.0[0].clock.as_ref().unwrap();
    let availability = doc.0[1].availability.as_ref().unwrap();
    assert_eq!(&clock.interval, availability);
    assert_eq!(clock.range, ClockRange::LoopStop);
    assert_eq!(clock.step, ClockStep::SystemClockMultiplier);
    assert_eq!(value(clock.multiplier), 60.0);
}

#[test]
fn clock_multiplier_is_configurable() {
    let (_, traj) = propagate_leo();
    let doc = export(
        &traj,
        CzmlExportCfg::new("SC").with_clock_multiplier(Scalar(300.0f64.to_bits())),
    );
    assert_eq!(value(doc.0[0].clock.as_ref().unwrap().multiplier), 300.0);
}

// ---------------------------------------------------------------------------
// Availability interval
// ---------------------------------------------------------------------------

#[test]
fn availability_matches_trajectory_endpoints() {
    let (_, traj) = propagate_leo();
    let doc = export(&traj, CzmlExportCfg::new("SC"));
    let availability = doc.0[1].availability.as_ref().unwrap();
    let parts: Vec<&str> = availability.split('/').collect();
    assert_eq!(parts.len(), 2);
    assert!(!parts[0].is_empty());
    assert!(!parts[1].is_empty());
    assert_ne!(parts[0], parts[1]);
}

// ---------------------------------------------------------------------------
// Position array
// ---------------------------------------------------------------------------

#[test]
fn position_reference_frame_is_inertial() {
    let (_, traj) = propagate_leo();
    let doc = export(&traj, CzmlExportCfg::new("SC"));
    assert_eq!(doc.0[1].position.as_ref().unwrap().reference_frame, ReferenceFrame::Inertial);
}

#[test]
fn position_uses_hermite_interpolation() {
    let (_, traj) = propagate_leo();
    let doc = export(&traj, CzmlExportCfg::new("SC"));
    let pos = doc.0[1].position.as_ref().unwrap();
    assert_eq!(pos.interpolation_algorithm, Some(InterpolationAlgorithm::Hermite));
    assert_eq!(pos.interpolation_degree, Some(5));
    assert!(pos.cartesian_velocity.is_some());
    assert!(pos.cartesian.is_none());
}

#[test]
fn cartesian_velocity_length_is_7_times_state_count() {
    let (_, traj) = propagate_leo();
    let doc = export(&traj, CzmlExportCfg::new("SC"));
    let cv = cartesian_velocity(&doc);
    assert_eq!(cv.len(), 7 * traj.states.len());
}

#[test]
fn first_position_offset_is_zero() {
    let (_, traj) = propagate_leo();
    let doc = export(&traj, CzmlExportCfg::new("SC"));
    let cv = cartesian_velocity(&doc);
    assert_eq!(cv[0], 0.0);
}

#[test]
fn first_position_matches_initial_orbit_state() {
    let (initial_orbit, traj) = propagate_leo();
    let doc = export(&traj, CzmlExportCfg::new("SC"));
    let cv = cartesian_velocity(&doc);

    let tol = 1.0; // 1 m (propagator may shift the epoch slightly)
    assert!((cv[1] - initial_orbit.radius_km.x * 1000.0).abs() < tol);
    assert!((cv[2] - initial_orbit.radius_km.y * 1000.0).abs() < tol);
    assert!((cv[3] - initial_orbit.radius_km.z * 1000.0).abs() < tol);
    assert!((cv[4] - initial_orbit.velocity_km_s.x * 1000.0).abs() < 0.01);
    assert!((cv[5] - initial_orbit.velocity_km_s.y * 1000.0).abs() < 0.01);
    assert!((cv[6] - initial_orbit.velocity_km_s.z * 1000.0).abs() < 0.01);
}

// ---------------------------------------------------------------------------
// Fixed-step sampling
// ---------------------------------------------------------------------------

#[test]
fn fixed_step_produces_uniform_sample_count() {
    let (_, traj) = propagate_leo();
    let step = 60.0 * Unit::Second;
    let (centuries, nanoseconds) = step.to_parts();
    let doc = export(
        &traj,
        CzmlExportCfg::new("SC").with_step(nyx_czml::TimeSpan { centuries, nanoseconds }),
    );
    let cv = cartesian_velocity(&doc);
    assert_eq!(cv.len() % 7, 0);
    let n = cv.len() / 7;
    assert!(n > 85 && n < 100, "expected ~93 samples at 60s step, got {n}");
}

// ---------------------------------------------------------------------------
// Optional features
// ---------------------------------------------------------------------------

#[test]
fn path_packet_present_by_default() {
    let (_, traj) = propagate_leo();
    let doc = export(&traj, CzmlExportCfg::default());
    let path = doc.0[1].path.as_ref().unwrap();
    assert!(path.show);
    assert_eq!(value(path.lead_time), 0.0);
}

#[test]
fn label_present_by_default() {
    let (_, traj) = propagate_leo();
    let doc = export(&traj, CzmlExportCfg::new("My SC"));
    let label = doc.0[1].label.as_ref().unwrap();
    assert_eq!(label.text, "My SC");
    assert!(label.show);
}

#[test]
fn without_path_omits_path_key() {
    let (_, traj) = propagate_leo();
    let doc = export(&traj, CzmlExportCfg::new("SC").without_path());
    assert!(doc.0[1].path.is_none());
}

#[test]
fn without_label_omits_label_key() {
    let (_, traj) = propagate_leo();
    let doc = export(&traj, CzmlExportCfg::new("SC").without_label());
    assert!(doc.0[1].label.is_none());
}

#[test]
fn time_window_keeps_only_states_inside() {
    let (_, traj) = propagate_leo();
    let start = traj.first().orbit.epoch + 10.0 * Unit::Minute;
    let end = traj.first().orbit.epoch + 20.0 * Unit::Minute;
    let inside = traj
        .states
        .iter()
        .filter(|s| s.orbit.epoch >= start && s.orbit.epoch <= end)
        .count();
    let doc = export(&traj, CzmlExportCfg::new("SC").with_time_window(parts(start), parts(end)));
    assert!(inside > 0);
    assert_eq!(cartesian_velocity(&doc).len(), 7 * inside);
}
