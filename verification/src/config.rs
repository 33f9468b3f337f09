use vstd::prelude::*;
use vstd::string::StringExecFns;

use crate::scalar::{Scalar, NINETY_MINUTES_S_BITS, SIXTY_BITS};
use crate::time::{EpochParts, TimeSpan};

verus! {

/// Circular, nadir-pointing sensor footprint configuration.
#[derive(Clone, Copy, Debug)]
pub struct SensorConfig {
    /// Half-angle of the sensor cone in degrees.
    pub half_angle_deg: Scalar,
    /// Fill color of the footprint ellipse.
    pub color: [u8; 4],
}

/// Configuration for CZML export.
#[derive(Clone, Debug)]
pub struct CzmlExportCfg {
    /// Display name for the spacecraft and document.
    pub name: String,
    /// Packet id of the spacecraft; must be unique within the document.
    pub object_id: String,
    /// Sampling interval: `None` keeps the trajectory's own states,
    /// `Some(step)` resamples at uniform intervals.
    pub step: Option<TimeSpan>,
    /// Start of the exported window (defaults to the trajectory start).
    pub start_epoch: Option<EpochParts>,
    /// End of the exported window (defaults to the trajectory end).
    pub end_epoch: Option<EpochParts>,
    /// Render the orbital trail behind the spacecraft.
    pub show_path: bool,
    /// Seconds of orbital trail shown behind the spacecraft.
    pub trail_time_s: Scalar,
    /// Color of the orbital trail and of the spacecraft point.
    pub path_color: [u8; 4],
    /// Render the spacecraft name as a label.
    pub show_label: bool,
    /// Add a ground-track packet (the sub-satellite path on the surface).
    pub show_ground_track: bool,
    /// Color of the ground track.
    pub ground_track_color: [u8; 4],
    /// If set, add a sensor-footprint packet.
    pub sensor: Option<SensorConfig>,
    /// Timeline playback speed as a multiple of wall time.
    pub clock_multiplier: Scalar,
}

/// The settings of a default configuration, the name aside: raw states over
/// the whole trajectory, a ninety-minute yellow trail, a label, no ground
/// track, no sensor, playback at sixty times wall time.
pub open spec fn has_default_settings(c: CzmlExportCfg) -> bool {
    &&& c.object_id@ == "spacecraft"@
    &&& c.step is None
    &&& c.start_epoch is None
    &&& c.end_epoch is None
    &&& c.show_path
    &&& c.trail_time_s == Scalar(NINETY_MINUTES_S_BITS)
    &&& c.path_color == [255u8, 255u8, 0u8, 200u8]
    &&& c.show_label
    &&& !c.show_ground_track
    &&& c.ground_track_color == [0u8, 200u8, 100u8, 200u8]
    &&& c.sensor is None
    &&& c.clock_multiplier == Scalar(SIXTY_BITS)
}

impl Default for CzmlExportCfg {
    /// The default configuration, named `Spacecraft`.
    fn default() -> (c: CzmlExportCfg)
        ensures
            c.name@ == "Spacecraft"@,
            has_default_settings(c),
    {
        CzmlExportCfg::new("Spacecraft")
    }
}

impl CzmlExportCfg {
    /// The default configuration under another name.
    pub fn new(name: &str) -> (c: CzmlExportCfg)
        ensures
            c.name@ == name@,
            has_default_settings(c),
    {
        CzmlExportCfg {
            name: String::from_str(name),
            object_id: String::from_str("spacecraft"),
            step: None,
            start_epoch: None,
            end_epoch: None,
            show_path: true,
            trail_time_s: Scalar(NINETY_MINUTES_S_BITS),
            path_color: [255u8, 255u8, 0u8, 200u8],
            show_label: true,
            show_ground_track: false,
            ground_track_color: [0u8, 200u8, 100u8, 200u8],
            sensor: None,
            clock_multiplier: Scalar(SIXTY_BITS),
        }
    }

    /// Resamples at uniform intervals of `step`.
    pub fn with_step(self, step: TimeSpan) -> (c: CzmlExportCfg)
        ensures
            c == (CzmlExportCfg { step: Some(step), ..self }),
    {
        CzmlExportCfg { step: Some(step), ..self }
    }

    /// Exports only the window `[start, end]`.
    pub fn with_time_window(self, start: EpochParts, end: EpochParts) -> (c: CzmlExportCfg)
        ensures
            c == (CzmlExportCfg { start_epoch: Some(start), end_epoch: Some(end), ..self }),
    {
        CzmlExportCfg { start_epoch: Some(start), end_epoch: Some(end), ..self }
    }

    /// Colors the trail and the spacecraft point.
    pub fn with_path_color(self, rgba: [u8; 4]) -> (c: CzmlExportCfg)
        ensures
            c == (CzmlExportCfg { path_color: rgba, ..self }),
    {
        CzmlExportCfg { path_color: rgba, ..self }
    }

    /// Adds the ground-track packet.
    pub fn with_ground_track(self) -> (c: CzmlExportCfg)
        ensures
            c == (CzmlExportCfg { show_ground_track: true, ..self }),
    {
        CzmlExportCfg { show_ground_track: true, ..self }
    }

    /// Colors the ground track.
    pub fn with_ground_track_color(self, rgba: [u8; 4]) -> (c: CzmlExportCfg)
        ensures
            c == (CzmlExportCfg { ground_track_color: rgba, ..self }),
    {
        CzmlExportCfg { ground_track_color: rgba, ..self }
    }

    /// Adds the sensor-footprint packet.
    pub fn with_sensor(self, sensor: SensorConfig) -> (c: CzmlExportCfg)
        ensures
            c == (CzmlExportCfg { sensor: Some(sensor), ..self }),
    {
        CzmlExportCfg { sensor: Some(sensor), ..self }
    }

    /// Leaves out the trail.
    pub fn without_path(self) -> (c: CzmlExportCfg)
        ensures
            c == (CzmlExportCfg { show_path: false, ..self }),
    {
        CzmlExportCfg { show_path: false, ..self }
    }

    /// Leaves out the label.
    pub fn without_label(self) -> (c: CzmlExportCfg)
        ensures
            c == (CzmlExportCfg { show_label: false, ..self }),
    {
        CzmlExportCfg { show_label: false, ..self }
    }

    /// Shows `seconds` of trail.
    pub fn with_trail_time(self, seconds: Scalar) -> (c: CzmlExportCfg)
        ensures
            c == (CzmlExportCfg { trail_time_s: seconds, ..self }),
    {
        CzmlExportCfg { trail_time_s: seconds, ..self }
    }

    /// Plays the timeline at `multiplier` times wall time.
    pub fn with_clock_multiplier(self, multiplier: Scalar) -> (c: CzmlExportCfg)
        ensures
            c == (CzmlExportCfg { clock_multiplier: multiplier, ..self }),
    {
        CzmlExportCfg { clock_multiplier: multiplier, ..self }
    }
}

} // verus!
