use nyx_czml::czml::{CzmlDocument, CzmlMaterial, CzmlPacket, CzmlPath, CzmlPosition};
use hifitime::Unit;
use nyx_czml::{
    ClockRange, ClockStep, CzmlExportCfg, InterpolationAlgorithm, ReferenceFrame, Scalar,
    SensorConfig, EpochParts, TimeSpan,
};

fn num(x: f64) -> Scalar {
    Scalar(x.to_bits())
}

fn value(s: Scalar) -> f64 {
    f64::from_bits(s.0)
}

// --- CzmlDocument ---

#[test]
fn document_starts_with_header() {
    let doc = CzmlDocument::new("My Mission");
    assert_eq!(doc.0[0].id, "document");
    assert_eq!(doc.0[0].name.as_deref(), Some("My Mission"));
    assert_eq!(doc.0[0].version.as_deref(), Some("1.0"));
}

#[test]
fn push_adds_packet_after_header() {
    let mut doc = CzmlDocument::new("Test");
    doc.push(CzmlPacket {
        id: "sat-1".to_string(),
        name: Some("Satellite".to_string()),
        ..Default::default()
    });
    assert_eq!(doc.0.len(), 2);
    assert_eq!(doc.0[1].id, "sat-1");
}

#[test]
fn push_keeps_header_first() {
    let mut doc = CzmlDocument::new("Test");
    doc.push(CzmlPacket { id: "a".to_string(), ..Default::default() });
    doc.push(CzmlPacket { id: "b".to_string(), ..Default::default() });
    assert_eq!(doc.0.len(), 3);
    assert_eq!(doc.0[0].id, "document");
    assert_eq!(doc.0[1].id, "a");
    assert_eq!(doc.0[2].id, "b");
}

#[test]
fn default_packet_is_bare() {
    let packet = CzmlPacket { id: "sc".to_string(), name: Some("SC".to_string()), ..Default::default() };
    assert!(packet.version.is_none());
    assert!(packet.availability.is_none());
    assert!(packet.clock.is_none());
    assert!(packet.position.is_none());
    assert!(packet.path.is_none());
    assert!(packet.label.is_none());
    assert!(packet.ellipse.is_none());
    assert!(packet.point.is_none());
}

// --- CZML position array layout ---

#[test]
fn hermite_array_has_7_values_per_state() {
    let two_states: Vec<Scalar> = vec![
        0.0, 1000.0, 2000.0, 3000.0, 100.0, 200.0, 300.0, // state 0
        60.0, 1100.0, 2100.0, 3100.0, 110.0, 210.0, 310.0, // state 1
    ]
    .into_iter()
    .map(num)
    .collect();
    let pos = CzmlPosition {
        epoch: "2024-01-01T00:00:00Z".to_string(),
        reference_frame: ReferenceFrame::Inertial,
        interpolation_algorithm: Some(InterpolationAlgorithm::Hermite),
        interpolation_degree: Some(5),
        cartesian_velocity: Some(two_states),
        cartesian: None,
    };
    let arr = pos.cartesian_velocity.as_ref().unwrap();
    assert_eq!(arr.len(), 14, "2 states × 7 values each");
    assert_eq!(value(arr[0]), 0.0);
    assert_eq!(value(arr[1]), 1000.0);
    assert!(pos.cartesian.is_none());
}

#[test]
fn material_solid_color_rgba() {
    let mat = CzmlMaterial::solid([255, 128, 0, 200]);
    let rgba = mat.solid_color.color.rgba;
    assert_eq!(rgba[0], 255);
    assert_eq!(rgba[1], 128);
    assert_eq!(rgba[2], 0);
    assert_eq!(rgba[3], 200);
}

#[test]
fn path_keeps_its_times() {
    let path = CzmlPath {
        show: true,
        width: num(1.5),
        material: CzmlMaterial::solid([255, 255, 0, 200]),
        lead_time: num(0.0),
        trail_time: num(5400.0),
        resolution: num(60.0),
    };
    assert_eq!(value(path.lead_time), 0.0);
    assert_eq!(value(path.trail_time), 5400.0);
}

// --- Clock ---

#[test]
fn clock_on_document_header() {
    let mut doc = CzmlDocument::new("Test");
    doc.set_clock("2024-01-01T00:00:00Z", "2024-01-02T00:00:00Z", num(60.0));
    let clock = doc.0[0].clock.as_ref().unwrap();
    assert_eq!(clock.interval, "2024-01-01T00:00:00Z/2024-01-02T00:00:00Z");
    assert_eq!(clock.current_time, "2024-01-01T00:00:00Z");
    assert_eq!(value(clock.multiplier), 60.0);
    assert_eq!(clock.range, ClockRange::LoopStop);
    assert_eq!(clock.step, ClockStep::SystemClockMultiplier);
}

#[test]
fn clock_absent_when_not_set() {
    let doc = CzmlDocument::new("Test");
    assert!(doc.0[0].clock.is_none());
}

#[test]
fn set_clock_leaves_other_packets() {
    let mut doc = CzmlDocument::new("Test");
    doc.push(CzmlPacket { id: "sat".to_string(), ..Default::default() });
    doc.set_clock("a", "b", num(2.0));
    assert_eq!(doc.0.len(), 2);
    assert!(doc.0[1].clock.is_none());
    assert_eq!(doc.0[0].id, "document");
    assert_eq!(doc.0[0].clock.as_ref().unwrap().interval, "a/b");
}

// --- Config defaults ---

#[test]
fn export_cfg_defaults() {
    let cfg = CzmlExportCfg::default();
    assert!(cfg.show_path);
    assert!(cfg.show_label);
    assert!(!cfg.show_ground_track);
    assert!(cfg.sensor.is_none());
    assert!(cfg.step.is_none(), "default should be raw knots");
    assert_eq!(value(cfg.trail_time_s), 5400.0);
}

#[test]
fn export_cfg_default_values() {
    let cfg = CzmlExportCfg::default();
    assert_eq!(cfg.name, "Spacecraft");
    assert_eq!(cfg.object_id, "spacecraft");
    assert_eq!(cfg.path_color, [255, 255, 0, 200]);
    assert_eq!(cfg.ground_track_color, [0, 200, 100, 200]);
    assert_eq!(value(cfg.clock_multiplier), 60.0);
    assert!(cfg.start_epoch.is_none());
    assert!(cfg.end_epoch.is_none());
}

#[test]
fn export_cfg_builder_methods() {

    let step = 60.0 * Unit::Second;
    let (centuries, nanoseconds) = step.to_parts();
    let cfg = CzmlExportCfg::new("Sat")
        .with_step(TimeSpan { centuries, nanoseconds })
        .with_ground_track()
        .with_trail_time(num(3600.0))
        .without_label()
        .with_sensor(SensorConfig { half_angle_deg: num(45.0), color: [255, 0, 0, 100] });

    assert_eq!(cfg.name, "Sat");
    assert!(cfg.step.is_some());
    assert!(cfg.show_ground_track);
    assert_eq!(value(cfg.trail_time_s), 3600.0);
    assert!(!cfg.show_label);
    assert!(cfg.sensor.is_some());
    assert_eq!(value(cfg.sensor.unwrap().half_angle_deg), 45.0);
}

#[test]
fn export_cfg_other_builders() {
    let start = EpochParts { centuries: 1, nanoseconds: 10, time_scale: 0 };
    let end = EpochParts { centuries: 1, nanoseconds: 20, time_scale: 0 };
    let cfg = CzmlExportCfg::new("Sat")
        .with_time_window(start, end)
        .with_path_color([1, 2, 3, 4])
        .with_ground_track_color([5, 6, 7, 8])
        .without_path()
        .with_clock_multiplier(num(300.0));
    assert_eq!(cfg.start_epoch, Some(start));
    assert_eq!(cfg.end_epoch, Some(end));
    assert_eq!(cfg.path_color, [1, 2, 3, 4]);
    assert_eq!(cfg.ground_track_color, [5, 6, 7, 8]);
    assert!(!cfg.show_path);
    assert!(cfg.show_label);
    assert_eq!(value(cfg.clock_multiplier), 300.0);
}
