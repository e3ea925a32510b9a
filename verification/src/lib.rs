mod default_now;
mod laws;
mod timestamp;
mod zone;

pub use default_now::DateTimeDefaultNow;
pub use laws::lemma_cmp_consistent_mixed;
pub use laws::lemma_cmp_consistent_wrappers;
pub use laws::lemma_eq_matches_cmp;
pub use laws::lemma_eq_symmetric;
pub use laws::lemma_eq_symmetric_wrappers;
pub use laws::lemma_fixed_default_matches_utc;
pub use laws::lemma_from_into_round_trip_local;
pub use laws::lemma_from_into_round_trip_utc;
pub use laws::lemma_round_trip;
pub use timestamp::valid_nanos;
pub use timestamp::valid_offset_secs;
pub use timestamp::Timestamp;
pub use timestamp::MAX_NANOS;
pub use timestamp::MAX_OFFSET_SECS;
pub use zone::FixedOffsetHours;
pub use zone::Local;
pub use zone::Utc;
pub use zone::Zone;
