//! Expiration points and time deltas over block metadata.
//!
//! An expiration is a point (a block height or a unix time) at and after
//! which something counts as expired; a duration is a delta that can be
//! added to block metadata to produce one. Height-based and time-based
//! values never mix.

use vstd::prelude::*;

verus! {

/// What the logic reads of a block: its height and its time in unix
/// seconds.
#[derive(Clone, Copy, Debug, PartialEq, Eq, Structural)]
pub struct BlockInfo {
    /// Block height.
    pub height: u64,
    /// Block time in seconds since the unix epoch.
    pub time: u64,
}

/// At the given point and after, the value counts as expired.
#[derive(Clone, Copy, Debug, PartialEq, Eq, Structural)]
pub enum Expiration {
    /// Expires at this block height.
    AtHeight(u64),
    /// Expires at this time in seconds since the unix epoch.
    AtTime(u64),
    /// Never expires.
    Never,
}

impl Default for Expiration {
    /// The default expiration never expires.
    fn default() -> (r: Self)
        ensures
            r is Never,
    {
        Expiration::Never
    }
}

impl Expiration {
    /// Whether the block has reached this expiration point.
    pub fn is_expired(&self, block: &BlockInfo) -> (r: bool)
        ensures
            r == (match *self {
                Expiration::AtHeight(height) => block.height >= height,
                Expiration::AtTime(time) => block.time >= time,
                Expiration::Never => false,
            }),
    {
        match self {
            Expiration::AtHeight(height) => block.height >= *height,
            Expiration::AtTime(time) => block.time >= *time,
            Expiration::Never => false,
        }
    }
}

/// A delta of time, counted either in blocks or in seconds.
#[derive(Clone, Copy, Debug, PartialEq, Eq, Structural)]
pub enum Duration {
    /// A number of blocks.
    Height(u64),
    /// A number of seconds.
    Time(u64),
}

/// The delta a duration carries, whatever its unit.
pub open spec fn duration_delta(d: Duration) -> u64 {
    match d {
        Duration::Height(h) => h,
        Duration::Time(t) => t,
    }
}

impl Duration {
    /// The expiration this duration produces when counted from the given
    /// block.
    pub fn after(&self, block: &BlockInfo) -> (r: Expiration)
        requires
            *self matches Duration::Height(h) ==> block.height + h <= u64::MAX,
            *self matches Duration::Time(t) ==> block.time + t <= u64::MAX,
        ensures
            r == (match *self {
                Duration::Height(h) => Expiration::AtHeight((block.height + h) as u64),
                Duration::Time(t) => Expiration::AtTime((block.time + t) as u64),
            }),
    {
        match self {
            Duration::Height(h) => Expiration::AtHeight(block.height + h),
            Duration::Time(t) => Expiration::AtTime(block.time + t),
        }
    }

    /// A duration one unit longer, for stepping just past an expiration
    /// point.
    pub fn plus_one(&self) -> (r: Duration)
        requires
            duration_delta(*self) < u64::MAX,
        ensures
            r == (match *self {
                Duration::Height(h) => Duration::Height((h + 1) as u64),
                Duration::Time(t) => Duration::Time((t + 1) as u64),
            }),
    {
        match self {
            Duration::Height(h) => Duration::Height(h + 1),
            Duration::Time(t) => Duration::Time(t + 1),
        }
    }

    /// The sum of two deltas of the same unit; deltas of different units
    /// cannot be combined.
    pub fn add_duration(self, rhs: Duration) -> (r: Option<Duration>)
        requires
            duration_delta(self) + duration_delta(rhs) <= u64::MAX,
        ensures
            r == (match (self, rhs) {
                (Duration::Time(t), Duration::Time(t2)) => Some(
                    Duration::Time((t + t2) as u64),
                ),
                (Duration::Height(h), Duration::Height(h2)) => Some(
                    Duration::Height((h + h2) as u64),
                ),
                _ => None::<Duration>,
            }),
    {
        match (self, rhs) {
            (Duration::Time(t), Duration::Time(t2)) => Some(Duration::Time(t + t2)),
            (Duration::Height(h), Duration::Height(h2)) => Some(Duration::Height(h + h2)),
            _ => None,
        }
    }

    /// This delta repeated `rhs` times.
    pub fn scale(self, rhs: u64) -> (r: Duration)
        requires
            duration_delta(self) * rhs <= u64::MAX,
        ensures
            r == (match self {
                Duration::Time(t) => Duration::Time((t * rhs) as u64),
                Duration::Height(h) => Duration::Height((h * rhs) as u64),
            }),
    {
        match self {
            Duration::Time(t) => Duration::Time(t * rhs),
            Duration::Height(h) => Duration::Height(h * rhs),
        }
    }
}

} // verus!
