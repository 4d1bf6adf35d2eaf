//! Date and time functions.

use vstd::prelude::*;
use crate::expr::Expr;

verus! {

/// The `Date` function constructs a date from an ISO 8601 string such as
/// `"1970-01-01"`.
#[derive(Debug)]
pub struct Date {
    pub date: Expr,
}

impl Date {
    pub fn new(dateish: Expr) -> (r: Self)
        ensures
            r.date == dateish,
    {
        Self { date: dateish }
    }
}

/// The unit a numeric epoch offset is counted in.
#[derive(Clone, Copy, Debug)]
pub enum EpochUnit {
    Second,
    Millisecond,
    Microsecond,
    Nanosecond,
}

/// The wire name of an epoch unit.
pub open spec fn epoch_unit_text(u: EpochUnit) -> Seq<char> {
    match u {
        EpochUnit::Second => "second"@,
        EpochUnit::Millisecond => "millisecond"@,
        EpochUnit::Microsecond => "microsecond"@,
        EpochUnit::Nanosecond => "nanosecond"@,
    }
}

/// The `Epoch` function constructs a timestamp offset from the Unix epoch
/// by a number of the given units.
#[derive(Debug)]
pub struct Epoch {
    pub epoch: Expr,
    pub unit: EpochUnit,
}

impl Epoch {
    pub fn new(num: Expr, unit: EpochUnit) -> (r: Self)
        ensures
            r.epoch == num,
            r.unit == unit,
    {
        Self { epoch: num, unit }
    }
}

/// The `Time` function constructs a timestamp from an ISO 8601 string such
/// as `"1970-01-01T00:00:00+00:00"`.
#[derive(Debug)]
pub struct Time {
    pub time: Expr,
}

impl Time {
    pub fn new(timeish: Expr) -> (r: Self)
        ensures
            r.time == timeish,
    {
        Self { time: timeish }
    }
}

} // verus!
