//! Timestamps as kept in inode attributes: whole seconds since the Unix epoch
//! (negative before it) and the nanoseconds within that second.

use std::time::SystemTime;
use vstd::prelude::*;

verus! {

#[verifier::external_type_specification]
#[verifier::external_body]
pub struct ExSystemTime(SystemTime);

/// `std::time::SystemTime::now`. Nothing is stated of the instant it reads.
#[verifier::external_body]
fn system_now() -> SystemTime {
    SystemTime::now()
}

/// The offset of an instant from the Unix epoch, as
/// `SystemTime::duration_since(UNIX_EPOCH)` gives it: `Ok` with the whole
/// seconds and sub-second nanoseconds elapsed since the epoch, or, for an
/// instant before the epoch, `Err` with how far before it the instant lies.
pub uninterp spec fn epoch_offset(t: SystemTime) -> Result<(u64, u32), (u64, u32)>;

/// The instant `UNIX_EPOCH + Duration::new(secs, nsecs)`.
pub uninterp spec fn epoch_after(secs: u64, nsecs: u32) -> SystemTime;

/// The instant `UNIX_EPOCH - Duration::new(secs, nsecs)`.
pub uninterp spec fn epoch_before(secs: u64, nsecs: u32) -> SystemTime;

/// The instant at an offset from the epoch: after it for `Ok`, before it for
/// `Err`.
pub open spec fn instant_of(offset: Result<(u64, u32), (u64, u32)>) -> SystemTime {
    match offset {
        Ok((s, n)) => epoch_after(s, n),
        Err((s, n)) => epoch_before(s, n),
    }
}

/// An offset as `duration_since(UNIX_EPOCH)` reports it for an instant that
/// a `SystemTime` holds on Unix: nanoseconds below one second, seconds within
/// `i64`, and an instant before the epoch lying a non-zero time before it.
pub open spec fn reported_offset(offset: Result<(u64, u32), (u64, u32)>) -> bool {
    match offset {
        Ok((s, n)) => s <= i64::MAX && n < 1_000_000_000,
        Err((s, n)) => s <= i64::MAX && n < 1_000_000_000 && (s > 0 || n > 0),
    }
}

/// `SystemTime::duration_since(UNIX_EPOCH)`, with the `Duration` (or, for an
/// instant before the epoch, the error's `duration()`) given as whole seconds
/// and sub-second nanoseconds: the offset named `epoch_offset`. The
/// documentation of `Duration::subsec_nanos` states that the nanoseconds are
/// below one second. The duration is the time elapsed from the epoch to `t`
/// (in the error, from `t` to the epoch, which is non-zero), and on Unix
/// targets a `SystemTime` holds whole seconds and nanoseconds exactly: so `t`
/// is the epoch moved by that duration, and an instant that is the epoch
/// moved by a duration reports that duration.
#[verifier::external_body]
fn since_epoch(t: &SystemTime) -> (r: Result<(u64, u32), (u64, u32)>)
    ensures
        r == epoch_offset(*t),
        match r {
            Ok((_, n)) => n < 1_000_000_000,
            Err((_, n)) => n < 1_000_000_000,
        },
        *t == instant_of(r),
        forall|o: Result<(u64, u32), (u64, u32)>| #![trigger instant_of(o)]
            r == o <== reported_offset(o) && *t == instant_of(o),
{
    match t.duration_since(SystemTime::UNIX_EPOCH) {
        Ok(d) => Ok((d.as_secs(), d.subsec_nanos())),
        Err(e) => Err((e.duration().as_secs(), e.duration().subsec_nanos())),
    }
}

/// `UNIX_EPOCH + Duration::new(secs, nsecs)`, the instant named
/// `epoch_after`. On Unix targets a `SystemTime` holds a signed 64-bit count
/// of seconds, so every such instant with `secs <= i64::MAX` is
/// representable and the addition does not panic.
#[verifier::external_body]
fn epoch_plus(secs: u64, nsecs: u32) -> (r: SystemTime)
    requires
        secs <= i64::MAX,
        nsecs < 1_000_000_000,
    ensures
        r == epoch_after(secs, nsecs),
{
    SystemTime::UNIX_EPOCH + std::time::Duration::new(secs, nsecs)
}

/// `UNIX_EPOCH - Duration::new(secs, nsecs)`, the instant named
/// `epoch_before`, under the same bounds as `epoch_plus`.
#[verifier::external_body]
fn epoch_minus(secs: u64, nsecs: u32) -> (r: SystemTime)
    requires
        secs <= i64::MAX,
        nsecs < 1_000_000_000,
    ensures
        r == epoch_before(secs, nsecs),
{
    SystemTime::UNIX_EPOCH - std::time::Duration::new(secs, nsecs)
}

/// The signed seconds for an offset of `secs` seconds before the epoch: the
/// negation of `secs` read as an `i64`. (The one value whose negation does
/// not fit, `i64::MIN`, is kept as it is.)
pub open spec fn negated_seconds(secs: u64) -> i64 {
    if (secs as i64) == i64::MIN {
        i64::MIN
    } else {
        (-(secs as i64)) as i64
    }
}

/// The timestamp of an instant whose offset from the epoch is `offset`
/// (`Ok` at or after the epoch, `Err` before it).
pub open spec fn timestamp_of(offset: Result<(u64, u32), (u64, u32)>) -> (i64, u32) {
    match offset {
        Ok((s, n)) => (s as i64, n),
        Err((s, n)) => (negated_seconds(s), n),
    }
}

/// The timestamp for an offset from the epoch as `since_epoch` reports it.
pub fn timestamp_from_offset(offset: Result<(u64, u32), (u64, u32)>) -> (r: (i64, u32))
    ensures
        r == timestamp_of(offset),
{
    match offset {
        Ok((s, n)) => (s as i64, n),
        Err((s, n)) => {
            let v: i64 = s as i64;
            if v == i64::MIN {
                (i64::MIN, n)
            } else {
                (-v, n)
            }
        },
    }
}

/// The timestamp of `system_time`: seconds since the epoch and nanoseconds,
/// with the seconds negated for an instant before the epoch.
pub fn time_from_system_time(system_time: &SystemTime) -> (r: (i64, u32))
    ensures
        r == timestamp_of(epoch_offset(*system_time)),
        r.1 < 1_000_000_000,
        *system_time == instant_of(epoch_offset(*system_time)),
        forall|o: Result<(u64, u32), (u64, u32)>| #![trigger instant_of(o)]
            reported_offset(o) && *system_time == instant_of(o) ==> r == timestamp_of(o),
{
    timestamp_from_offset(since_epoch(system_time))
}

/// The timestamp of the current instant.
pub fn time_now() -> (r: (i64, u32))
    ensures
        r.1 < 1_000_000_000,
{
    time_from_system_time(&system_now())
}

/// Whether `system_time_from_time` can represent the instant: `secs` is not
/// `i64::MIN`, and the whole seconds on either side of the epoch, with the
/// nanoseconds beyond one second carried into them, fit in an `i64`.
pub open spec fn representable_time(secs: i64, nsecs: u32) -> bool {
    &&& secs > i64::MIN
    &&& (if secs >= 0 { secs as int } else { -secs }) + nsecs / 1_000_000_000 <= i64::MAX
}

/// Whether `system_time_from_time` accepts `secs` and `nsecs`.
pub fn is_representable_time(secs: i64, nsecs: u32) -> (r: bool)
    ensures
        r == representable_time(secs, nsecs),
{
    if secs == i64::MIN {
        return false;
    }
    let magnitude: u64 = if secs >= 0 { secs as u64 } else { (-secs) as u64 };
    let carry: u64 = (nsecs / 1_000_000_000) as u64;
    magnitude + carry <= i64::MAX as u64
}

/// The offset from the epoch of the instant that `system_time_from_time`
/// gives: nanoseconds beyond one second are carried into the seconds, and
/// negative seconds lie before the epoch.
pub open spec fn time_offset(secs: i64, nsecs: u32) -> Result<(u64, u32), (u64, u32)> {
    let carry = nsecs / 1_000_000_000;
    let nanos = (nsecs % 1_000_000_000) as u32;
    if secs >= 0 {
        Ok(((secs + carry) as u64, nanos))
    } else {
        Err(((-secs + carry) as u64, nanos))
    }
}

/// The instant `secs` seconds and `nsecs` nanoseconds after the epoch (for
/// `secs >= 0`), or `-secs` seconds and `nsecs` nanoseconds before it, with
/// nanoseconds beyond one second carried into the seconds as
/// `Duration::new` does.
pub fn system_time_from_time(secs: i64, nsecs: u32) -> (r: SystemTime)
    requires
        representable_time(secs, nsecs),
    ensures
        r == instant_of(time_offset(secs, nsecs)),
{
    let carry: u64 = (nsecs / 1_000_000_000) as u64;
    let nanos: u32 = nsecs % 1_000_000_000;
    if secs >= 0 {
        epoch_plus(secs as u64 + carry, nanos)
    } else {
        epoch_minus((-secs) as u64 + carry, nanos)
    }
}

/// A timestamp (with nanoseconds below one second) turned into an instant
/// lies at an offset that `duration_since` reports as such, and that offset
/// gives the timestamp back: `time_from_system_time` undoes
/// `system_time_from_time`.
pub proof fn lemma_time_round_trip(secs: i64, nsecs: u32)
    requires
        representable_time(secs, nsecs),
        nsecs < 1_000_000_000,
    ensures
        reported_offset(time_offset(secs, nsecs)),
        timestamp_of(time_offset(secs, nsecs)) == (secs, nsecs),
{
}

/// An instant at a reported offset, other than one less than a second before
/// the epoch, is what `system_time_from_time` builds from its timestamp:
/// `system_time_from_time` undoes `time_from_system_time` there.
pub proof fn lemma_instant_round_trip(offset: Result<(u64, u32), (u64, u32)>)
    requires
        reported_offset(offset),
        !(offset matches Err((s, _)) && s == 0),
    ensures
        representable_time(timestamp_of(offset).0, timestamp_of(offset).1),
        time_offset(timestamp_of(offset).0, timestamp_of(offset).1) == offset,
{
}

} // verus!
