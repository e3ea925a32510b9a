use vstd::prelude::*;

use crate::timestamp::{valid_nanos, valid_offset_secs, Timestamp};

verus! {

/// Relies on chrono::Utc::now: one read of the system clock, handed back as
/// whole seconds since the Unix epoch and the subsecond nanoseconds. chrono
/// keeps the subsecond part strictly below two billion nanoseconds (values
/// of one billion and above stand for a leap second).
#[verifier::external_body]
pub(crate) fn utc_now_raw() -> (r: (i64, u32))
    ensures
        valid_nanos(r.1),
{
    let now = chrono::Utc::now();
    (now.timestamp(), now.timestamp_subsec_nanos())
}

/// Relies on chrono's local timezone lookup (DateTime::with_timezone with
/// chrono::Local): the offset east of UTC, in seconds, at which the
/// process's local civil time expresses the given instant. chrono's
/// FixedOffset keeps every offset strictly within one day of UTC. An
/// instant outside chrono's representable range is reported at offset zero.
#[verifier::external_body]
pub(crate) fn local_offset_at_raw(secs: i64, nanos: u32) -> (r: i32)
    ensures
        valid_offset_secs(r as int),
{
    match chrono::DateTime::from_timestamp(secs, nanos) {
        Some(utc) => utc.with_timezone(&chrono::Local).offset().local_minus_utc(),
        None => 0,
    }
}

/// A timezone representation: it can express any instant as a timestamp at
/// some offset east of UTC.
pub trait Zone: Sized {
    /// The zone itself is representable: where it carries a fixed offset,
    /// that offset stays strictly within one day of UTC.
    spec fn valid(self) -> bool;

    /// The offsets east of UTC, in seconds, at which this zone may express
    /// an instant.
    spec fn expresses(self, offset_secs: int) -> bool;

    /// Decides at run time whether the zone is representable.
    fn check_valid(&self) -> (b: bool)
        ensures
            b == self.valid(),
    ;

    /// Expresses the given instant in this zone: the instant is kept
    /// exactly, only the offset is the zone's own.
    fn express(&self, secs: i64, nanos: u32) -> (r: Timestamp)
        requires
            self.valid(),
            valid_nanos(nanos),
        ensures
            r.wf(),
            r.secs == secs,
            r.nanos == nanos,
            self.expresses(r.offset_secs as int),
    ;
}

/// Coordinated Universal Time: every timestamp is expressed at offset zero.
#[derive(Clone, Copy, Debug)]
pub struct Utc;

impl Zone for Utc {
    open spec fn valid(self) -> bool {
        true
    }

    open spec fn expresses(self, offset_secs: int) -> bool {
        offset_secs == 0
    }

    fn check_valid(&self) -> bool {
        true
    }

    fn express(&self, secs: i64, nanos: u32) -> Timestamp {
        Timestamp::new(secs, nanos, 0)
    }
}

/// The process's local civil time: timestamps are expressed at whatever
/// offset the environment's timezone rules give for the instant.
#[derive(Clone, Copy, Debug)]
pub struct Local;

impl Zone for Local {
    open spec fn valid(self) -> bool {
        true
    }

    open spec fn expresses(self, offset_secs: int) -> bool {
        valid_offset_secs(offset_secs)
    }

    fn check_valid(&self) -> bool {
        true
    }

    fn express(&self, secs: i64, nanos: u32) -> Timestamp {
        let offset_secs = local_offset_at_raw(secs, nanos);
        Timestamp::new(secs, nanos, offset_secs)
    }
}

/// A fixed-offset zone family: every timestamp is expressed `hours * 3600`
/// seconds east of UTC, with no daylight-saving adjustment. The hour count
/// is a configuration value, representable only strictly within one day of
/// UTC; nothing checks it before a default value is built. At that point
/// an out-of-range count is refused rather than wrapped or truncated:
/// `DateTimeDefaultNow::try_default_in` hands back `None`, and
/// `DateTimeDefaultNow::default_in` demands a representable zone up front.
#[derive(Clone, Copy, Debug)]
pub struct FixedOffsetHours {
    /// Whole hours east of UTC; negative values lie west.
    pub hours: i32,
}

impl Zone for FixedOffsetHours {
    open spec fn valid(self) -> bool {
        -24 < self.hours < 24
    }

    open spec fn expresses(self, offset_secs: int) -> bool {
        offset_secs == self.hours * 3600
    }

    fn check_valid(&self) -> bool {
        -24 < self.hours && self.hours < 24
    }

    fn express(&self, secs: i64, nanos: u32) -> Timestamp {
        Timestamp::new(secs, nanos, self.hours * 3600)
    }
}

impl Default for Utc {
    fn default() -> (r: Utc)
        ensures
            r == Utc,
    {
        Utc
    }
}

impl Default for Local {
    fn default() -> (r: Local)
        ensures
            r == Local,
    {
        Local
    }
}

impl Default for FixedOffsetHours {
    fn default() -> (r: FixedOffsetHours)
        ensures
            r == (FixedOffsetHours { hours: 0 }),
    {
        FixedOffsetHours { hours: 0 }
    }
}

} // verus!
