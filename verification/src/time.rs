use vstd::prelude::*;

use hifitime::{Duration, Epoch, TimeScale};

use crate::scalar::Scalar;

verus! {

/// An epoch as `hifitime` stores it: its duration since the reference epoch
/// of its time scale (whole centuries and nanoseconds into the century) and
/// the time scale, by `hifitime`'s code for it (`u8::from(TimeScale)`: 0 TAI,
/// 1 TT, 2 ET, 3 TDB, 4 UTC, 5 GPST, 6 GST, 7 BDT, 8 QZSST, 9 TCG, 10 TCB,
/// 11 TL, 12 TCL; any other code reads as TAI).
///
/// Every time computation on it goes through `hifitime`, which rebuilds the
/// epoch with `Duration::from_parts` (and so normalizes the parts).
#[derive(Clone, Copy, Debug, PartialEq, Eq, Structural)]
pub struct EpochParts {
    pub centuries: i16,
    pub nanoseconds: u64,
    pub time_scale: u8,
}

/// A length of time, held as centuries and nanoseconds (the parts of a
/// `hifitime::Duration`).
#[derive(Clone, Copy, Debug, PartialEq, Eq, Structural)]
pub struct TimeSpan {
    pub centuries: i16,
    pub nanoseconds: u64,
}

/// The parts of the TAI duration of an epoch, as `hifitime` computes them
/// (`Epoch::to_tai_duration().to_parts()`).
pub uninterp spec fn tai_parts(centuries: i16, nanoseconds: u64, time_scale: u8) -> (i16, u64);

/// The TAI parts of an epoch.
pub open spec fn tai_of(e: EpochParts) -> (i16, u64) {
    tai_parts(e.centuries, e.nanoseconds, e.time_scale)
}

/// Parts compared centuries first, then nanoseconds (the order of the tuple
/// `(i16, u64)`).
pub open spec fn parts_le(a: (i16, u64), b: (i16, u64)) -> bool {
    a.0 < b.0 || (a.0 == b.0 && a.1 <= b.1)
}

/// `a` is at or before `b`, in `hifitime`'s order of epochs: their TAI parts
/// compared centuries first.
pub open spec fn epoch_le(a: EpochParts, b: EpochParts) -> bool {
    parts_le(tai_of(a), tai_of(b))
}

/// `hifitime`'s code of the UTC time scale (`u8::from(TimeScale::UTC)`).
pub const UTC_CODE: u8 = 4;

/// `hifitime`'s order of epochs is total and transitive, every epoch is at or
/// before itself, and two epochs each at or before the other are the same
/// TAI instant.
pub proof fn lemma_epoch_order(a: EpochParts, b: EpochParts, c: EpochParts)
    ensures
        epoch_le(a, a),
        epoch_le(a, b) || epoch_le(b, a),
        epoch_le(a, b) && epoch_le(b, c) ==> epoch_le(a, c),
        epoch_le(a, b) && epoch_le(b, a) ==> tai_of(a) == tai_of(b),
{
}

/// The ISO 8601 text that `hifitime` gives for an epoch with these parts,
/// once converted to the time scale of code `target`.
pub uninterp spec fn iso8601_in(
    centuries: i16,
    nanoseconds: u64,
    time_scale: u8,
    target: u8,
) -> Seq<char>;

/// The ISO 8601 text of an epoch with these parts, in UTC.
pub open spec fn iso8601_utc(centuries: i16, nanoseconds: u64, time_scale: u8) -> Seq<char> {
    iso8601_in(centuries, nanoseconds, time_scale, UTC_CODE)
}

/// The ISO 8601 UTC text of an epoch.
pub open spec fn iso_of(e: EpochParts) -> Seq<char> {
    iso8601_utc(e.centuries, e.nanoseconds, e.time_scale)
}

/// The binary64 encoding of the seconds that `hifitime` gives for
/// `to - from` (the `Duration` between the two epochs, counted in the time
/// scale of `to`), both epochs given by their parts.
pub uninterp spec fn elapsed_seconds_bits(
    to_centuries: i16,
    to_nanoseconds: u64,
    to_time_scale: u8,
    from_centuries: i16,
    from_nanoseconds: u64,
    from_time_scale: u8,
) -> u64;

/// Whether `a` is at or before `b`.
///
/// Calls `<Epoch as PartialOrd>::le` of `hifitime` on the two epochs, built
/// by `Epoch::from_duration(Duration::from_parts(..), TimeScale::from(..))`.
/// Trusted: the answer compares the TAI parts named by `tai_parts`, centuries
/// first, as `Ord for Epoch` does (`to_tai_duration().to_parts().cmp(..)`).
#[verifier::external_body]
pub(crate) fn epoch_not_after(a: EpochParts, b: EpochParts) -> (r: bool)
    ensures
        r == parts_le(
            tai_parts(a.centuries, a.nanoseconds, a.time_scale),
            tai_parts(b.centuries, b.nanoseconds, b.time_scale),
        ),
{
    let a = Epoch::from_duration(
        Duration::from_parts(a.centuries, a.nanoseconds),
        TimeScale::from(a.time_scale),
    );
    let b = Epoch::from_duration(
        Duration::from_parts(b.centuries, b.nanoseconds),
        TimeScale::from(b.time_scale),
    );
    a <= b
}

/// Formats an epoch as ISO 8601 in the time scale of code `target`.
///
/// Calls `Epoch::from_duration(Duration::from_parts(..), TimeScale::from(..))`,
/// then `Epoch::to_time_scale(TimeScale::from(target))` and
/// `Epoch::to_isoformat` of `hifitime`. Trusted: the text is the one named by
/// `iso8601_in` for the epoch's parts and the target; nothing else is claimed
/// of it.
#[verifier::external_body]
fn epoch_to_iso_in(epoch: EpochParts, target: u8) -> (s: String)
    ensures
        s@ == iso8601_in(epoch.centuries, epoch.nanoseconds, epoch.time_scale, target),
{
    Epoch::from_duration(
        Duration::from_parts(epoch.centuries, epoch.nanoseconds),
        TimeScale::from(epoch.time_scale),
    ).to_time_scale(TimeScale::from(target)).to_isoformat()
}

/// The ISO 8601 text of an epoch in UTC, the time scale of CZML documents.
pub(crate) fn epoch_to_iso(epoch: EpochParts) -> (s: String)
    ensures
        s@ == iso_of(epoch),
{
    epoch_to_iso_in(epoch, UTC_CODE)
}

/// Seconds from `from` to `to`, as `hifitime` computes them.
///
/// Builds both epochs as `epoch_to_iso` does, subtracts them (`Epoch - Epoch`,
/// a `Duration` counted in the time scale of `to`) and converts with
/// `Duration::to_seconds`; the result is kept by its bit pattern. Trusted:
/// the result is the value named by `elapsed_seconds_bits` for the two
/// epochs, and it is `+0.0` when the two epochs have the same parts (the
/// difference is then the zero `Duration`, whose `to_seconds` is
/// `0.0 + 0.0`).
#[verifier::external_body]
pub(crate) fn seconds_between(to: EpochParts, from: EpochParts) -> (r: Scalar)
    ensures
        r.0 == elapsed_seconds_bits(
            to.centuries,
            to.nanoseconds,
            to.time_scale,
            from.centuries,
            from.nanoseconds,
            from.time_scale,
        ),
        to == from ==> r.0 == 0u64,
{
    let to = Epoch::from_duration(
        Duration::from_parts(to.centuries, to.nanoseconds),
        TimeScale::from(to.time_scale),
    );
    let from = Epoch::from_duration(
        Duration::from_parts(from.centuries, from.nanoseconds),
        TimeScale::from(from.time_scale),
    );
    Scalar((to - from).to_seconds().to_bits())
}

} // verus!
