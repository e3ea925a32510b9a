use vstd::prelude::*;

use crate::timestamp::{valid_nanos, Timestamp};
use crate::zone::{utc_now_raw, FixedOffsetHours, Local, Utc, Zone};

verus! {

/// A timestamp whose default value is the current time, expressed in the
/// zone `Z`. Apart from default construction the wrapper is a transparent
/// proxy for the wrapped timestamp: it converts to and from it, compares
/// equal and ordered exactly as the wrapped value does, and exposes it by
/// reference for every read.
#[derive(Clone, Copy, Debug)]
pub struct DateTimeDefaultNow<Z> where Z: Zone {
    /// The wrapped timestamp.
    pub timestamp: Timestamp,
    /// The zone the wrapper builds default values in.
    pub zone: Z,
}

impl<Z: Zone> DateTimeDefaultNow<Z> {
    /// A default value built in this zone carries a well-formed timestamp
    /// expressed at one of the zone's own offsets.
    pub open spec fn in_zone(self) -> bool {
        self.timestamp.wf() && self.zone.expresses(self.timestamp.offset_secs as int)
    }

    /// The current time, expressed in the given zone. One read of the
    /// system clock; for a fixed-offset zone the reading is then
    /// re-expressed at the zone's offset, the instant unchanged.
    pub fn default_in(zone: Z) -> (r: Self)
        requires
            zone.valid(),
        ensures
            r.zone == zone,
            r.in_zone(),
    {
        let (secs, nanos) = utc_now_raw();
        let timestamp = zone.express(secs, nanos);
        DateTimeDefaultNow { timestamp, zone }
    }

    /// The current time in the given zone, or `None` for a zone whose
    /// offset is not representable: the checked form of `default_in`,
    /// for a zone that nothing validated earlier.
    pub fn try_default_in(zone: Z) -> (r: Option<Self>)
        ensures
            r is Some <==> zone.valid(),
            r is Some ==> r->0.zone == zone && r->0.in_zone(),
    {
        if zone.check_valid() {
            Some(Self::default_in(zone))
        } else {
            None
        }
    }

    /// The default value built from a given clock reading instead of the
    /// system clock: the instant is kept exactly and expressed in the
    /// given zone.
    pub fn default_from_instant(zone: Z, secs: i64, nanos: u32) -> (r: Self)
        requires
            zone.valid(),
            valid_nanos(nanos),
        ensures
            r.zone == zone,
            r.in_zone(),
            r.timestamp.secs == secs,
            r.timestamp.nanos == nanos,
    {
        let timestamp = zone.express(secs, nanos);
        DateTimeDefaultNow { timestamp, zone }
    }

    /// The checked form of `default_from_instant`: `None` exactly when the
    /// zone's offset is not representable or the subsecond part is out of
    /// range.
    pub fn try_default_from_instant(zone: Z, secs: i64, nanos: u32) -> (r: Option<Self>)
        ensures
            r is Some <==> zone.valid() && valid_nanos(nanos),
            r is Some ==> r->0.zone == zone && r->0.in_zone() && r->0.timestamp.secs == secs
                && r->0.timestamp.nanos == nanos,
    {
        if zone.check_valid() && nanos < crate::timestamp::MAX_NANOS {
            Some(Self::default_from_instant(zone, secs, nanos))
        } else {
            None
        }
    }

    /// Wraps an existing timestamp verbatim: no clock access, no failure,
    /// no validation.
    pub fn from_timestamp_in(zone: Z, timestamp: Timestamp) -> (r: Self)
        ensures
            r.timestamp == timestamp,
            r.zone == zone,
    {
        DateTimeDefaultNow { timestamp, zone }
    }

    /// The wrapped timestamp, by reference: every read the timestamp
    /// offers is reached through this one accessor.
    pub fn as_timestamp(&self) -> (r: &Timestamp)
        ensures
            r == self.timestamp,
    {
        &self.timestamp
    }

    /// The wrapped timestamp, by value.
    pub fn into_timestamp(self) -> (r: Timestamp)
        ensures
            r == self.timestamp,
    {
        self.timestamp
    }
}

impl Default for DateTimeDefaultNow<Utc> {
    /// The current time in UTC.
    fn default() -> (r: Self)
        ensures
            r.zone == Utc,
            r.in_zone(),
            r.timestamp.offset_secs == 0,
    {
        Self::default_in(Utc)
    }
}

impl Default for DateTimeDefaultNow<Local> {
    /// The current time in the process's local civil time.
    fn default() -> (r: Self)
        ensures
            r.zone == Local,
            r.in_zone(),
    {
        Self::default_in(Local)
    }
}

impl From<Timestamp> for DateTimeDefaultNow<Utc> {
    /// Wraps an existing timestamp verbatim.
    fn from(timestamp: Timestamp) -> (r: Self) {
        DateTimeDefaultNow { timestamp, zone: Utc }
    }
}

impl vstd::std_specs::convert::FromSpecImpl<Timestamp> for DateTimeDefaultNow<Utc> {
    open spec fn obeys_from_spec() -> bool {
        true
    }

    open spec fn from_spec(timestamp: Timestamp) -> Self {
        DateTimeDefaultNow { timestamp, zone: Utc }
    }
}

impl From<Timestamp> for DateTimeDefaultNow<Local> {
    /// Wraps an existing timestamp verbatim.
    fn from(timestamp: Timestamp) -> (r: Self) {
        DateTimeDefaultNow { timestamp, zone: Local }
    }
}

impl vstd::std_specs::convert::FromSpecImpl<Timestamp> for DateTimeDefaultNow<Local> {
    open spec fn obeys_from_spec() -> bool {
        true
    }

    open spec fn from_spec(timestamp: Timestamp) -> Self {
        DateTimeDefaultNow { timestamp, zone: Local }
    }
}

impl<Z: Zone> From<DateTimeDefaultNow<Z>> for Timestamp {
    /// Unwraps the timestamp, verbatim.
    fn from(wrapper: DateTimeDefaultNow<Z>) -> (r: Timestamp) {
        wrapper.timestamp
    }
}

impl<Z: Zone> vstd::std_specs::convert::FromSpecImpl<DateTimeDefaultNow<Z>> for Timestamp {
    open spec fn obeys_from_spec() -> bool {
        true
    }

    open spec fn from_spec(wrapper: DateTimeDefaultNow<Z>) -> Timestamp {
        wrapper.timestamp
    }
}

impl<Z: Zone> vstd::std_specs::cmp::PartialEqSpecImpl for DateTimeDefaultNow<Z> {
    open spec fn obeys_eq_spec() -> bool {
        true
    }

    open spec fn eq_spec(&self, other: &DateTimeDefaultNow<Z>) -> bool {
        self.timestamp.same_instant(other.timestamp)
    }
}

impl<Z: Zone> PartialEq for DateTimeDefaultNow<Z> {
    /// Two wrappers compare as their wrapped timestamps do: by instant.
    fn eq(&self, other: &DateTimeDefaultNow<Z>) -> (r: bool) {
        self.timestamp == other.timestamp
    }
}

impl<Z: Zone> vstd::std_specs::cmp::PartialEqSpecImpl<Timestamp> for DateTimeDefaultNow<Z> {
    open spec fn obeys_eq_spec() -> bool {
        true
    }

    open spec fn eq_spec(&self, other: &Timestamp) -> bool {
        self.timestamp.same_instant(*other)
    }
}

impl<Z: Zone> PartialEq<Timestamp> for DateTimeDefaultNow<Z> {
    /// A wrapper compares to a raw timestamp as the wrapped one does.
    fn eq(&self, other: &Timestamp) -> (r: bool) {
        self.timestamp == *other
    }
}

impl<Z: Zone> vstd::std_specs::cmp::PartialEqSpecImpl<DateTimeDefaultNow<Z>> for Timestamp {
    open spec fn obeys_eq_spec() -> bool {
        true
    }

    open spec fn eq_spec(&self, other: &DateTimeDefaultNow<Z>) -> bool {
        self.same_instant(other.timestamp)
    }
}

impl<Z: Zone> PartialEq<DateTimeDefaultNow<Z>> for Timestamp {
    /// A raw timestamp compares to a wrapper as it does to the wrapped one.
    fn eq(&self, other: &DateTimeDefaultNow<Z>) -> (r: bool) {
        *self == other.timestamp
    }
}

impl<Z: Zone> vstd::std_specs::cmp::PartialOrdSpecImpl for DateTimeDefaultNow<Z> {
    open spec fn obeys_partial_cmp_spec() -> bool {
        true
    }

    open spec fn partial_cmp_spec(&self, other: &DateTimeDefaultNow<Z>) -> Option<
        core::cmp::Ordering,
    > {
        Some(self.timestamp.cmp_spec(other.timestamp))
    }
}

impl<Z: Zone> PartialOrd for DateTimeDefaultNow<Z> {
    /// Two wrappers order as their wrapped timestamps do: by instant.
    fn partial_cmp(&self, other: &DateTimeDefaultNow<Z>) -> (r: Option<core::cmp::Ordering>) {
        self.timestamp.partial_cmp(&other.timestamp)
    }
}

impl<Z: Zone> vstd::std_specs::cmp::PartialOrdSpecImpl<Timestamp> for DateTimeDefaultNow<Z> {
    open spec fn obeys_partial_cmp_spec() -> bool {
        true
    }

    open spec fn partial_cmp_spec(&self, other: &Timestamp) -> Option<core::cmp::Ordering> {
        Some(self.timestamp.cmp_spec(*other))
    }
}

impl<Z: Zone> PartialOrd<Timestamp> for DateTimeDefaultNow<Z> {
    /// A wrapper orders against a raw timestamp as the wrapped one does.
    fn partial_cmp(&self, other: &Timestamp) -> (r: Option<core::cmp::Ordering>) {
        self.timestamp.partial_cmp(other)
    }
}

impl<Z: Zone> vstd::std_specs::cmp::PartialOrdSpecImpl<DateTimeDefaultNow<Z>> for Timestamp {
    open spec fn obeys_partial_cmp_spec() -> bool {
        true
    }

    open spec fn partial_cmp_spec(&self, other: &DateTimeDefaultNow<Z>) -> Option<
        core::cmp::Ordering,
    > {
        Some(self.cmp_spec(other.timestamp))
    }
}

impl<Z: Zone> PartialOrd<DateTimeDefaultNow<Z>> for Timestamp {
    /// A raw timestamp orders against a wrapper as it does against the
    /// wrapped one.
    fn partial_cmp(&self, other: &DateTimeDefaultNow<Z>) -> (r: Option<core::cmp::Ordering>) {
        self.partial_cmp(&other.timestamp)
    }
}

} // verus!
