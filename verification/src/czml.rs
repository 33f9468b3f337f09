use std::sync::Arc;

use vstd::prelude::*;
use vstd::string::StringExecFns;

use crate::scalar::Scalar;

verus! {

// ---------------------------------------------------------------------------
// Enums
// ---------------------------------------------------------------------------
/// Frame in which Cartesian positions are given (`INERTIAL` or `FIXED`).
#[derive(Clone, Copy, Debug, PartialEq, Eq, Structural)]
pub enum ReferenceFrame {
    Inertial,
    Fixed,
}

/// Interpolation that Cesium applies between samples
/// (`HERMITE`, `LAGRANGE`, `LINEAR`).
#[derive(Clone, Copy, Debug, PartialEq, Eq, Structural)]
pub enum InterpolationAlgorithm {
    Hermite,
    Lagrange,
    Linear,
}

/// How a surface primitive is placed (`CLAMP_TO_GROUND`, `RELATIVE_TO_GROUND`).
#[derive(Clone, Copy, Debug, PartialEq, Eq, Structural)]
pub enum HeightReference {
    ClampToGround,
    RelativeToGround,
}

// ---------------------------------------------------------------------------
// Clock
// ---------------------------------------------------------------------------
/// What the timeline does at its end (`LOOP_STOP`, `LOOP_RESTART`, `CLAMPED`).
#[derive(Clone, Copy, Debug, PartialEq, Eq, Structural)]
pub enum ClockRange {
    LoopStop,
    LoopRestart,
    Clamped,
}

/// How the timeline advances (`SYSTEM_CLOCK_MULTIPLIER`, `TICK_DEPENDENT`,
/// `SYSTEM_CLOCK`).
#[derive(Clone, Copy, Debug, PartialEq, Eq, Structural)]
pub enum ClockStep {
    SystemClockMultiplier,
    TickDependent,
    SystemClock,
}

/// The timeline clock of a document.
#[derive(Clone, Debug)]
pub struct CzmlClock {
    /// ISO 8601 interval `start/end`.
    pub interval: String,
    pub current_time: String,
    /// Playback speed relative to wall time.
    pub multiplier: Scalar,
    pub range: ClockRange,
    pub step: ClockStep,
}

// ---------------------------------------------------------------------------
// Color and material
// ---------------------------------------------------------------------------
/// CZML color as an RGBA array `[r, g, b, a]` with values 0–255.
#[derive(Clone, Copy, Debug)]
pub struct CzmlColorHolder {
    pub rgba: [u8; 4],
}

#[derive(Clone, Copy, Debug)]
pub struct CzmlSolidColor {
    pub color: CzmlColorHolder,
}

#[derive(Clone, Copy, Debug)]
pub struct CzmlMaterial {
    pub solid_color: CzmlSolidColor,
}

impl CzmlMaterial {
    /// A solid-color material of the given RGBA color.
    pub fn solid(rgba: [u8; 4]) -> (m: CzmlMaterial)
        ensures
            m.solid_color.color.rgba == rgba,
    {
        CzmlMaterial { solid_color: CzmlSolidColor { color: CzmlColorHolder { rgba } } }
    }
}

// ---------------------------------------------------------------------------
// Position
// ---------------------------------------------------------------------------
/// Time-sampled Cartesian position in meters.
///
/// With `HERMITE`, `cartesian_velocity` holds 7 values per sample
/// `[t, x, y, z, vx, vy, vz]`; with `LAGRANGE`/`LINEAR`, `cartesian` holds 4
/// values per sample `[t, x, y, z]`. Times are seconds from `epoch`.
#[derive(Clone, Debug)]
pub struct CzmlPosition {
    /// ISO 8601 reference epoch.
    pub epoch: String,
    pub reference_frame: ReferenceFrame,
    pub interpolation_algorithm: Option<InterpolationAlgorithm>,
    pub interpolation_degree: Option<u32>,
    pub cartesian_velocity: Option<Vec<Scalar>>,
    pub cartesian: Option<Vec<Scalar>>,
}

// ---------------------------------------------------------------------------
// Path, label, point
// ---------------------------------------------------------------------------
/// Orbit trail rendered behind (and optionally ahead of) the object.
#[derive(Clone, Copy, Debug)]
pub struct CzmlPath {
    pub show: bool,
    pub width: Scalar,
    pub material: CzmlMaterial,
    /// Seconds of future trajectory to show.
    pub lead_time: Scalar,
    /// Seconds of past trajectory to show.
    pub trail_time: Scalar,
    /// Rendering resolution in seconds.
    pub resolution: Scalar,
}

/// Text label attached to the object.
#[derive(Clone, Debug)]
pub struct CzmlLabel {
    pub text: String,
    pub font: String,
    pub style: String,
    pub fill_color: CzmlColorHolder,
    pub outline_color: CzmlColorHolder,
    pub outline_width: Scalar,
    pub horizontal_origin: String,
    pub show: bool,
}

/// Small dot rendered at the object's position.
#[derive(Clone, Copy, Debug)]
pub struct CzmlPoint {
    pub pixel_size: Scalar,
    pub color: CzmlColorHolder,
    pub show: bool,
}

// ---------------------------------------------------------------------------
// Ellipse
// ---------------------------------------------------------------------------
/// A time-sampled scalar: alternating `[t0, v0, t1, v1, ...]`.
///
/// The samples are shared through an `Arc`, so that two fields can hold the
/// same allocation.
#[derive(Clone, Debug)]
pub struct CzmlSampledDouble {
    pub epoch: String,
    pub interpolation_algorithm: Option<InterpolationAlgorithm>,
    pub number: Arc<Vec<Scalar>>,
}

/// Sensor footprint ellipse on the Earth surface.
#[derive(Clone, Debug)]
pub struct CzmlEllipse {
    pub semi_major_axis: CzmlSampledDouble,
    pub semi_minor_axis: CzmlSampledDouble,
    pub material: CzmlMaterial,
    pub height_reference: HeightReference,
    pub show: bool,
}

// ---------------------------------------------------------------------------
// Packets and documents
// ---------------------------------------------------------------------------
/// One CZML packet; absent parts are `None`.
#[derive(Clone, Debug)]
pub struct CzmlPacket {
    pub id: String,
    pub name: Option<String>,
    pub version: Option<String>,
    /// ISO 8601 interval `start/end`.
    pub availability: Option<String>,
    pub clock: Option<CzmlClock>,
    pub position: Option<CzmlPosition>,
    pub path: Option<CzmlPath>,
    pub label: Option<CzmlLabel>,
    pub ellipse: Option<CzmlEllipse>,
    pub point: Option<CzmlPoint>,
}

/// A packet with the given id and nothing else.
pub open spec fn is_bare_packet(p: CzmlPacket, id: Seq<char>) -> bool {
    &&& p.id@ == id
    &&& p.name is None
    &&& p.version is None
    &&& p.availability is None
    &&& p.clock is None
    &&& p.position is None
    &&& p.path is None
    &&& p.label is None
    &&& p.ellipse is None
    &&& p.point is None
}

impl Default for CzmlPacket {
    fn default() -> (p: CzmlPacket)
        ensures
            is_bare_packet(p, Seq::empty()),
    {
        CzmlPacket {
            id: String::new(),
            name: None,
            version: None,
            availability: None,
            clock: None,
            position: None,
            path: None,
            label: None,
            ellipse: None,
            point: None,
        }
    }
}

/// The text `start/end` of an ISO 8601 interval.
pub open spec fn interval_of(start: Seq<char>, end: Seq<char>) -> Seq<char> {
    start + "/"@ + end
}

/// An interval text is the start, one `/`, then the end.
pub proof fn lemma_interval_text(start: Seq<char>, end: Seq<char>)
    ensures
        interval_of(start, end).len() == start.len() + 1 + end.len(),
        interval_of(start, end).subrange(0, start.len() as int) == start,
        interval_of(start, end)[start.len() as int] == '/',
        interval_of(start, end).subrange(start.len() + 1int, interval_of(start, end).len() as int)
            == end,
{
    reveal_strlit("/");
    let t = interval_of(start, end);
    assert(t.subrange(0, start.len() as int) =~= start);
    assert(t.subrange(start.len() + 1int, t.len() as int) =~= end);
}

/// Joins two instants into the interval text `start/end`.
pub fn interval_text(start: &str, end: &str) -> (s: String)
    ensures
        s@ == interval_of(start@, end@),
{
    let s = String::from_str(start);
    let s = s.concat("/");
    s.concat(end)
}

/// The clock that the document header carries for a timeline running from
/// `start` to `end` at `multiplier` times wall time.
pub open spec fn is_timeline_clock(
    c: CzmlClock,
    start: Seq<char>,
    end: Seq<char>,
    multiplier: Scalar,
) -> bool {
    &&& c.interval@ == interval_of(start, end)
    &&& c.current_time@ == start
    &&& c.multiplier == multiplier
    &&& c.range == ClockRange::LoopStop
    &&& c.step == ClockStep::SystemClockMultiplier
}

/// A timeline clock stands at the start of its interval, plays at the given
/// speed and stops at the end.
pub proof fn lemma_timeline_clock(c: CzmlClock, start: Seq<char>, end: Seq<char>, multiplier: Scalar)
    requires
        is_timeline_clock(c, start, end, multiplier),
    ensures
        c.interval@.subrange(0, c.current_time@.len() as int) == c.current_time@,
        c.current_time@ == start,
        c.interval@.subrange(start.len() + 1int, c.interval@.len() as int) == end,
        c.multiplier == multiplier,
        c.range == ClockRange::LoopStop,
{
    lemma_interval_text(start, end);
}

/// The document header packet: id `document`, version `1.0`.
pub open spec fn is_header(p: CzmlPacket) -> bool {
    &&& p.id@ == "document"@
    &&& p.version matches Some(v) && v@ == "1.0"@
}

/// Two packets hold the same values in every part but the clock.
pub open spec fn same_but_clock(p: CzmlPacket, q: CzmlPacket) -> bool {
    &&& p.id == q.id
    &&& p.name == q.name
    &&& p.version == q.version
    &&& p.availability == q.availability
    &&& p.position == q.position
    &&& p.path == q.path
    &&& p.label == q.label
    &&& p.ellipse == q.ellipse
    &&& p.point == q.point
}

/// A CZML document: a JSON array of packets whose first is the header.
#[derive(Clone, Debug)]
pub struct CzmlDocument(pub Vec<CzmlPacket>);

impl CzmlDocument {
    /// A document whose first packet is the header.
    pub open spec fn wf(&self) -> bool {
        self.0@.len() >= 1 && is_header(self.0@[0])
    }

    /// A document holding only its header, named `name`, without a clock.
    pub fn new(name: &str) -> (doc: CzmlDocument)
        ensures
            doc.wf(),
            doc.0@.len() == 1,
            doc.0@[0].name matches Some(n) && n@ == name@,
            doc.0@[0].id@ == "document"@,
            doc.0@[0].version matches Some(v) && v@ == "1.0"@,
            doc.0@[0].availability is None,
            doc.0@[0].clock is None,
            doc.0@[0].position is None,
            doc.0@[0].path is None,
            doc.0@[0].label is None,
            doc.0@[0].ellipse is None,
            doc.0@[0].point is None,
    {
        let header = CzmlPacket {
            id: String::from_str("document"),
            name: Some(String::from_str(name)),
            version: Some(String::from_str("1.0")),
            availability: None,
            clock: None,
            position: None,
            path: None,
            label: None,
            ellipse: None,
            point: None,
        };
        let mut packets: Vec<CzmlPacket> = Vec::new();
        packets.push(header);
        CzmlDocument(packets)
    }

    /// Sets the timeline clock on the header packet: the interval
    /// `start/end`, the current time `start`, playback at `multiplier` times
    /// wall time, stopping at the end. Nothing else changes.
    pub fn set_clock(&mut self, start: &str, end: &str, multiplier: Scalar)
        requires
            old(self).0@.len() >= 1,
        ensures
            final(self).0@.len() == old(self).0@.len(),
            final(self).0@[0].clock matches Some(c) && is_timeline_clock(c, start@, end@, multiplier),
            same_but_clock(final(self).0@[0], old(self).0@[0]),
            forall|i: int| 1 <= i < old(self).0@.len() ==> final(self).0@[i] == old(self).0@[i],
    {
        let clock = CzmlClock {
            interval: interval_text(start, end),
            current_time: String::from_str(start),
            multiplier,
            range: ClockRange::LoopStop,
            step: ClockStep::SystemClockMultiplier,
        };
        self.0[0].clock = Some(clock);
    }

    /// Appends a packet after those already in the document.
    pub fn push(&mut self, packet: CzmlPacket)
        ensures
            final(self).0@ == old(self).0@.push(packet),
    {
        self.0.push(packet);
    }
}

} // verus!
