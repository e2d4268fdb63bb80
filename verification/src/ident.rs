//! Time-sortable 128-bit identifiers.
//!
//! An identifier carries a millisecond timestamp in its 48 high bits and 80
//! random bits below them, so that identifiers sort by the time they were
//! minted for.

use rand::rngs::StdRng;
use vstd::prelude::*;

verus! {

/// The number of values that the random part of an identifier ranges over:
/// two to the power of 80.
pub const RANDOM_SPAN: u128 = 0x1_0000_0000_0000_0000_0000;

/// The exclusive upper bound of the timestamp part of an identifier: two to
/// the power of 48.
pub const TIMESTAMP_LIMIT: u64 = 0x1_0000_0000_0000;

/// Declares `rand::rngs::StdRng`, the random generator that identifiers draw
/// their low bits from. A generator is handed through to where an identifier
/// is minted; nothing is known or claimed of its state.
#[verifier::external_type_specification]
#[verifier::external_body]
pub struct ExStdRng(rand::rngs::StdRng);

/// A point in time, in whole milliseconds since the Unix epoch, within the
/// range that an identifier can carry.
#[derive(Clone, Copy, Debug, PartialEq, Eq, Structural)]
pub struct Timestamp {
    millis: u64,
}

impl View for Timestamp {
    type V = int;

    closed spec fn view(&self) -> int {
        self.millis as int
    }
}

impl Timestamp {
    #[verifier::type_invariant]
    spec fn in_range(self) -> bool {
        self.millis < TIMESTAMP_LIMIT
    }

    /// The timestamp of `millis` milliseconds after the epoch, or `None` where
    /// `millis` is negative or too large for an identifier.
    pub fn from_millis(millis: i64) -> (ts: Option<Timestamp>)
        ensures
            ts is Some <==> 0 <= millis < TIMESTAMP_LIMIT,
            ts is Some ==> ts->0@ == millis,
    {
        if 0 <= millis && millis < 0x1_0000_0000_0000 {
            Some(Timestamp { millis: millis as u64 })
        } else {
            None
        }
    }

    /// Milliseconds since the epoch.
    pub fn millis(&self) -> (millis: i64)
        ensures
            millis == self@,
            0 <= millis < TIMESTAMP_LIMIT,
    {
        proof {
            use_type_invariant(self);
        }
        self.millis as i64
    }
}

/// The millisecond timestamp that the 48 high bits of `id` encode.
pub open spec fn id_timestamp(id: u128) -> int {
    id as int / RANDOM_SPAN as int
}

/// Calls `ulid::Ulid::from_datetime_with_source` for the instant `millis`
/// milliseconds after the epoch, which std's `SystemTime` and `Duration`
/// make of the count. The crate puts the low 48 bits of the millisecond
/// count above 80 bits drawn from `rng`; for a count below `TIMESTAMP_LIMIT`
/// the high bits are therefore the count itself. Nothing is claimed of the
/// random bits.
#[verifier::external_body]
fn ulid_from_datetime_with_source(millis: u64, rng: &mut StdRng) -> (id: u128)
    requires
        millis < TIMESTAMP_LIMIT,
    ensures
        id_timestamp(id) == millis,
{
    let datetime = std::time::SystemTime::UNIX_EPOCH + std::time::Duration::from_millis(millis);
    ulid::Ulid::from_datetime_with_source(datetime, rng).0
}

/// Calls `ulid::Ulid::timestamp_ms`, which shifts the identifier right by its
/// 80 random bits.
#[verifier::external_body]
fn ulid_timestamp_ms(id: u128) -> (millis: u64)
    ensures
        millis == id_timestamp(id),
{
    ulid::Ulid(id).timestamp_ms()
}

/// Mints a fresh identifier for the instant `ts`: its timestamp part is `ts`,
/// its random part comes from `rng`.
pub fn mint(ts: Timestamp, rng: &mut StdRng) -> (id: u128)
    ensures
        id_timestamp(id) == ts@,
{
    proof {
        use_type_invariant(ts);
    }
    ulid_from_datetime_with_source(ts.millis, rng)
}

/// The instant that `id` was minted for.
pub fn timestamp_of(id: u128) -> (ts: Timestamp)
    ensures
        ts@ == id_timestamp(id),
{
    let millis = ulid_timestamp_ms(id);
    Timestamp { millis }
}

} // verus!
