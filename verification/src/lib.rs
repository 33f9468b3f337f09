//! Building CZML documents (the JSON scene format read by CesiumJS) for
//! spacecraft trajectories.
//!
//! The library assembles the document structure: the header packet with its
//! timeline clock, the spacecraft packet with its time-sampled position, and
//! the optional ground-track and sensor-footprint packets. Real numbers are
//! carried as [`Scalar`] values (binary64 bit patterns) and are never computed
//! with here; epochs are held by their `hifitime` parts, and ordered,
//! formatted and differenced through `hifitime`.

pub mod config;
pub mod czml;
pub mod error;
pub mod exporter;
pub mod footprint;
pub mod groundtrack;
pub mod samples;
pub mod scalar;
pub mod time;

pub use config::{CzmlExportCfg, SensorConfig};
pub use czml::{
    ClockRange, ClockStep, CzmlClock, CzmlColorHolder, CzmlDocument, CzmlEllipse, CzmlLabel,
    CzmlMaterial, CzmlPacket, CzmlPath, CzmlPoint, CzmlPosition, CzmlSampledDouble,
    CzmlSolidColor, HeightReference, InterpolationAlgorithm, ReferenceFrame,
};
pub use error::CzmlError;
pub use exporter::{add_surface_packets, export_window, needs_surface_states, spacecraft_document};
pub use samples::{collect_states, StateSample, SurfaceSample, Timestamped, Vec3};
pub use scalar::Scalar;
pub use time::{EpochParts, TimeSpan};
