use vstd::prelude::*;

verus! {

/// Offsets east of UTC are strictly smaller than one day, in seconds.
pub const MAX_OFFSET_SECS: i32 = 86_400;

/// Subsecond nanoseconds stay strictly below two billion; values of one
/// billion and above stand for a leap second.
pub const MAX_NANOS: u32 = 2_000_000_000;

/// An instant in time paired with the fixed offset east of UTC in which it
/// is expressed.
///
/// The instant itself is the pair of `secs` (seconds since the Unix epoch,
/// counted in UTC) and `nanos` (the subsecond part). The offset only says
/// how the instant is displayed; equality and ordering compare the instant
/// alone, so the same instant expressed at two offsets compares equal.
#[derive(Clone, Copy, Debug)]
pub struct Timestamp {
    /// Seconds of the instant since the Unix epoch, counted in UTC.
    pub secs: i64,
    /// Subsecond nanoseconds of the instant.
    pub nanos: u32,
    /// Offset east of UTC, in seconds, in which the instant is expressed.
    pub offset_secs: i32,
}

/// A valid subsecond part: below two billion nanoseconds.
pub open spec fn valid_nanos(nanos: u32) -> bool {
    nanos < MAX_NANOS
}

/// A valid offset east of UTC: strictly within one day, in seconds.
pub open spec fn valid_offset_secs(offset_secs: int) -> bool {
    -(MAX_OFFSET_SECS as int) < offset_secs < MAX_OFFSET_SECS as int
}

impl Timestamp {
    /// Well-formed: the subsecond part and the offset are in range.
    pub open spec fn wf(self) -> bool {
        valid_nanos(self.nanos) && valid_offset_secs(self.offset_secs as int)
    }

    /// Both values name the same instant, whatever their offsets.
    pub open spec fn same_instant(self, other: Timestamp) -> bool {
        self.secs == other.secs && self.nanos == other.nanos
    }

    /// This value's instant comes strictly before the other's.
    pub open spec fn instant_before(self, other: Timestamp) -> bool {
        self.secs < other.secs || (self.secs == other.secs && self.nanos < other.nanos)
    }

    /// How two timestamps order: by instant alone.
    pub open spec fn cmp_spec(self, other: Timestamp) -> core::cmp::Ordering {
        if self.instant_before(other) {
            core::cmp::Ordering::Less
        } else if self.same_instant(other) {
            core::cmp::Ordering::Equal
        } else {
            core::cmp::Ordering::Greater
        }
    }

    /// The same instant re-expressed at another offset.
    pub open spec fn with_offset_secs_spec(self, offset_secs: i32) -> Timestamp {
        Timestamp { secs: self.secs, nanos: self.nanos, offset_secs }
    }

    /// Builds a timestamp from its parts.
    pub fn new(secs: i64, nanos: u32, offset_secs: i32) -> (r: Timestamp)
        requires
            valid_nanos(nanos),
            valid_offset_secs(offset_secs as int),
        ensures
            r == (Timestamp { secs, nanos, offset_secs }),
            r.wf(),
    {
        Timestamp { secs, nanos, offset_secs }
    }

    /// Builds a timestamp from its parts, rejecting out-of-range ones.
    pub fn try_new(secs: i64, nanos: u32, offset_secs: i32) -> (r: Option<Timestamp>)
        ensures
            valid_nanos(nanos) && valid_offset_secs(offset_secs as int) <==> r is Some,
            r is Some ==> r->0 == (Timestamp { secs, nanos, offset_secs }) && r->0.wf(),
    {
        if nanos < MAX_NANOS && -MAX_OFFSET_SECS < offset_secs && offset_secs < MAX_OFFSET_SECS {
            Some(Timestamp { secs, nanos, offset_secs })
        } else {
            None
        }
    }

    /// The same instant re-expressed at another offset east of UTC.
    pub fn with_offset_secs(self, offset_secs: i32) -> (r: Timestamp)
        requires
            valid_offset_secs(offset_secs as int),
        ensures
            r == self.with_offset_secs_spec(offset_secs),
            r.same_instant(self),
    {
        Timestamp { secs: self.secs, nanos: self.nanos, offset_secs }
    }

    /// Seconds of the instant since the Unix epoch, counted in UTC.
    pub fn secs(&self) -> (r: i64)
        ensures
            r == self.secs,
    {
        self.secs
    }

    /// Subsecond nanoseconds of the instant.
    pub fn nanos(&self) -> (r: u32)
        ensures
            r == self.nanos,
    {
        self.nanos
    }

    /// Offset east of UTC, in seconds, in which the instant is expressed.
    pub fn offset_secs(&self) -> (r: i32)
        ensures
            r == self.offset_secs,
    {
        self.offset_secs
    }
}

impl vstd::std_specs::cmp::PartialEqSpecImpl for Timestamp {
    open spec fn obeys_eq_spec() -> bool {
        true
    }

    open spec fn eq_spec(&self, other: &Timestamp) -> bool {
        self.same_instant(*other)
    }
}

impl PartialEq for Timestamp {
    fn eq(&self, other: &Timestamp) -> (r: bool) {
        self.secs == other.secs && self.nanos == other.nanos
    }
}

impl vstd::std_specs::cmp::PartialOrdSpecImpl for Timestamp {
    open spec fn obeys_partial_cmp_spec() -> bool {
        true
    }

    open spec fn partial_cmp_spec(&self, other: &Timestamp) -> Option<core::cmp::Ordering> {
        Some(self.cmp_spec(*other))
    }
}

impl PartialOrd for Timestamp {
    fn partial_cmp(&self, other: &Timestamp) -> (r: Option<core::cmp::Ordering>) {
        if self.secs < other.secs {
            Some(core::cmp::Ordering::Less)
        } else if self.secs > other.secs {
            Some(core::cmp::Ordering::Greater)
        } else if self.nanos < other.nanos {
            Some(core::cmp::Ordering::Less)
        } else if self.nanos > other.nanos {
            Some(core::cmp::Ordering::Greater)
        } else {
            Some(core::cmp::Ordering::Equal)
        }
    }
}

} // verus!
