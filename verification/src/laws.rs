use vstd::prelude::*;

use crate::default_now::DateTimeDefaultNow;
use crate::timestamp::Timestamp;
use crate::zone::{FixedOffsetHours, Local, Utc, Zone};
use vstd::std_specs::cmp::{PartialEqSpec, PartialOrdSpec};
use vstd::std_specs::convert::FromSpec;

verus! {

/// A fixed-offset default equals the UTC default re-expressed at
/// `hours * 3600` seconds east of UTC: built from the same clock reading,
/// the two carry the same instant, and the fixed-offset one carries it at
/// the zone's own offset.
pub proof fn lemma_fixed_default_matches_utc(
    zone: FixedOffsetHours,
    utc_default: DateTimeDefaultNow<Utc>,
    fixed_default: DateTimeDefaultNow<FixedOffsetHours>,
    secs: i64,
    nanos: u32,
)
    requires
        zone.valid(),
        utc_default.zone == Utc,
        utc_default.in_zone(),
        utc_default.timestamp.secs == secs,
        utc_default.timestamp.nanos == nanos,
        fixed_default.zone == zone,
        fixed_default.in_zone(),
        fixed_default.timestamp.secs == secs,
        fixed_default.timestamp.nanos == nanos,
    ensures
        fixed_default.timestamp == utc_default.timestamp.with_offset_secs_spec(
            (zone.hours * 3600) as i32,
        ),
        fixed_default.timestamp.same_instant(utc_default.timestamp),
{
}

/// Wrapping a raw timestamp in any zone and converting back yields a value
/// equal to the original, verbatim.
pub proof fn lemma_round_trip<Z: Zone>(zone: Z, t: Timestamp)
    ensures
        <Timestamp as FromSpec<DateTimeDefaultNow<Z>>>::from_spec(
            (DateTimeDefaultNow { timestamp: t, zone }),
        ) == t,
{
}

/// Converting a raw timestamp into a UTC wrapper through `from` and back
/// through `into` yields the original, verbatim.
pub proof fn lemma_from_into_round_trip_utc(t: Timestamp)
    ensures
        <Timestamp as FromSpec<DateTimeDefaultNow<Utc>>>::from_spec(
            <DateTimeDefaultNow<Utc> as FromSpec<Timestamp>>::from_spec(t),
        ) == t,
{
}

/// Converting a raw timestamp into a local-time wrapper through `from` and
/// back through `into` yields the original, verbatim.
pub proof fn lemma_from_into_round_trip_local(t: Timestamp)
    ensures
        <Timestamp as FromSpec<DateTimeDefaultNow<Local>>>::from_spec(
            <DateTimeDefaultNow<Local> as FromSpec<Timestamp>>::from_spec(t),
        ) == t,
{
}

/// Equality between a wrapper and a raw timestamp is symmetric: the
/// wrapper equals the raw value exactly when the raw value equals the
/// wrapper.
pub proof fn lemma_eq_symmetric<Z: Zone>(w: DateTimeDefaultNow<Z>, t: Timestamp)
    ensures
        w.eq_spec(&t) == t.eq_spec(&w),
{
}

/// Equality between two wrappers is symmetric.
pub proof fn lemma_eq_symmetric_wrappers<Z: Zone>(
    a: DateTimeDefaultNow<Z>,
    b: DateTimeDefaultNow<Z>,
)
    ensures
        a.eq_spec(&b) == b.eq_spec(&a),
{
}

/// Two wrappers order exactly as their wrapped timestamps do.
pub proof fn lemma_cmp_consistent_wrappers<Z: Zone>(
    a: DateTimeDefaultNow<Z>,
    b: DateTimeDefaultNow<Z>,
)
    ensures
        a.partial_cmp_spec(&b) == a.timestamp.partial_cmp_spec(&b.timestamp),
{
}

/// A wrapper orders against a raw timestamp, from either side, exactly as
/// the wrapped timestamp does against that raw value.
pub proof fn lemma_cmp_consistent_mixed<Z: Zone>(w: DateTimeDefaultNow<Z>, t: Timestamp)
    ensures
        w.partial_cmp_spec(&t) == w.timestamp.partial_cmp_spec(&t),
        t.partial_cmp_spec(&w) == t.partial_cmp_spec(&w.timestamp),
{
}

/// A wrapper and a raw timestamp compare equal exactly when neither orders
/// strictly before the other: equality and ordering agree, and both ignore
/// the offsets.
pub proof fn lemma_eq_matches_cmp<Z: Zone>(w: DateTimeDefaultNow<Z>, t: Timestamp)
    ensures
        w.eq_spec(&t) <==> w.partial_cmp_spec(&t) == Some(core::cmp::Ordering::Equal),
{
}

} // verus!
