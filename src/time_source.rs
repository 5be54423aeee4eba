use vstd::prelude::*;

verus! {

/// A calendar date and time as the FAT filesystem stamps it on files.
#[derive(PartialEq, Eq, Structural, Clone, Copy, Debug)]
pub struct Timestamp {
    /// Add 1970 to get the calendar year.
    pub year_since_1970: u8,
    /// Add one to get the calendar month.
    pub zero_indexed_month: u8,
    /// Add one to get the day of the month.
    pub zero_indexed_day: u8,
    pub hours: u8,
    pub minutes: u8,
    pub seconds: u8,
}

impl Timestamp {
    /// Midnight of the first of January 1970.
    pub open spec fn epoch() -> Timestamp {
        Timestamp {
            year_since_1970: 0,
            zero_indexed_month: 0,
            zero_indexed_day: 0,
            hours: 0,
            minutes: 0,
            seconds: 0,
        }
    }
}

/// A clock for file timestamps on a device without a real-time clock: every
/// file is stamped with the epoch.
pub struct DummyTimeSource;

impl DummyTimeSource {
    pub fn get_timestamp(&self) -> (r: Timestamp)
        ensures
            r == Timestamp::epoch(),
    {
        Timestamp {
            year_since_1970: 0,
            zero_indexed_month: 0,
            zero_indexed_day: 0,
            hours: 0,
            minutes: 0,
            seconds: 0,
        }
    }
}

} // verus!
