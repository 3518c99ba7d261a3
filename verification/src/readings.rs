use vstd::prelude::*;

use crate::dates::{date_le, date_lt, lemma_day_number_order, spec_day_number, Date};

verus! {

/// The largest magnitude, in thousandths of a kilowatt-hour, accepted for
/// a meter or inverter value: one million kilowatt-hours.
pub const MAX_READING_MILLIKWH: i64 = 1_000_000_000;

/// The largest magnitude, in thousandths of a kilowatt-hour per day, that
/// a per-day change can reach: the difference of two readings.
pub const MAX_CHANGE_MILLIKWH: i64 = 2_000_000_000;

/// A collection of readings for a given date. Energies are cumulative
/// meter and inverter values in thousandths of a kilowatt-hour.
#[derive(Clone, Copy, PartialEq, Eq, Structural, Debug)]
pub struct Reading {
    /// The date the readings were made.
    pub date: Date,
    /// The total generated energy from the inverter.
    pub generation: i64,
    /// The total energy exported to the grid, from the electricity meter.
    pub exports: i64,
    /// The total energy imported from the grid, from the electricity meter.
    pub imports: i64,
}

impl Reading {
    /// A well-formed reading: a well-formed date, and every energy within
    /// the accepted magnitude.
    pub open spec fn wf(self) -> bool {
        self.date.wf() && -MAX_READING_MILLIKWH <= self.generation <= MAX_READING_MILLIKWH
            && -MAX_READING_MILLIKWH <= self.exports <= MAX_READING_MILLIKWH
            && -MAX_READING_MILLIKWH <= self.imports <= MAX_READING_MILLIKWH
    }

    /// True if the reading is well-formed.
    pub fn is_well_formed(&self) -> (r: bool)
        ensures
            r == self.wf(),
    {
        self.date.is_well_formed() && -MAX_READING_MILLIKWH <= self.generation && self.generation
            <= MAX_READING_MILLIKWH && -MAX_READING_MILLIKWH <= self.exports && self.exports
            <= MAX_READING_MILLIKWH && -MAX_READING_MILLIKWH <= self.imports && self.imports
            <= MAX_READING_MILLIKWH
    }
}

/// Two readings, the first being earlier than the second.
#[derive(Clone, Copy, PartialEq, Eq, Structural, Debug)]
pub struct ReadingPair {
    pub first: Reading,
    pub second: Reading,
}

impl ReadingPair {
    /// A well-formed pair: both readings well-formed.
    pub open spec fn wf(self) -> bool {
        self.first.wf() && self.second.wf()
    }

    /// True if both readings of the pair are well-formed.
    pub fn is_well_formed(&self) -> (r: bool)
        ensures
            r == self.wf(),
    {
        self.first.is_well_formed() && self.second.is_well_formed()
    }

    /// The number of whole calendar days from the first reading's date to
    /// the second's; negative when the second date is the earlier one.
    pub fn days_spanned(&self) -> (r: i64)
        requires
            self.wf(),
        ensures
            r == spec_day_number(self.second.date) - spec_day_number(self.first.date),
    {
        self.second.date.day_number() as i64 - self.first.date.day_number() as i64
    }
}

/// Amounts of energy from dusk on one day to dusk on the next, in
/// thousandths of a kilowatt-hour per day. May be an average depending on
/// how often the meter is read.
#[derive(Clone, Copy, PartialEq, Eq, Structural, Debug)]
pub struct DiurnalChange {
    /// The inverter generation.
    pub generation: i64,
    /// The energy exported to the grid.
    pub exports: i64,
    /// The energy imported from the grid.
    pub imports: i64,
}

impl DiurnalChange {
    /// A well-formed change: every rate within the reachable magnitude.
    pub open spec fn wf(self) -> bool {
        -MAX_CHANGE_MILLIKWH <= self.generation <= MAX_CHANGE_MILLIKWH && -MAX_CHANGE_MILLIKWH
            <= self.exports <= MAX_CHANGE_MILLIKWH && -MAX_CHANGE_MILLIKWH <= self.imports
            <= MAX_CHANGE_MILLIKWH
    }

    /// True if every rate of the change is within the reachable magnitude.
    pub fn is_well_formed(&self) -> (r: bool)
        ensures
            r == self.wf(),
    {
        -MAX_CHANGE_MILLIKWH <= self.generation && self.generation <= MAX_CHANGE_MILLIKWH
            && -MAX_CHANGE_MILLIKWH <= self.exports && self.exports <= MAX_CHANGE_MILLIKWH
            && -MAX_CHANGE_MILLIKWH <= self.imports && self.imports <= MAX_CHANGE_MILLIKWH
    }
}

/// A pair of readings whose dates span no positive number of days cannot
/// be averaged per day.
#[derive(Clone, Copy, PartialEq, Eq, Structural, Debug)]
pub enum ChangeError {
    /// The second reading's date is the same as, or earlier than, the
    /// first reading's date.
    DegenerateRange,
}

/// Integer division rounding toward zero; meaningful only when `b != 0`.
pub open spec fn div_trunc(a: int, b: int) -> int {
    let q = abs_int(a) / abs_int(b);
    if (a < 0) == (b < 0) {
        q
    } else {
        -q
    }
}

/// The absolute value of an integer.
pub open spec fn abs_int(a: int) -> int {
    if a < 0 {
        -a
    } else {
        a
    }
}

/// Division of an `i64` by a nonzero `i64`, rounding toward zero.
pub(crate) fn div_trunc_i64(a: i64, b: i64) -> (r: i64)
    requires
        -i64::MAX <= a,
        -i64::MAX <= b,
        b != 0,
    ensures
        r == div_trunc(a as int, b as int),
        abs_int(r as int) <= abs_int(a as int),
{
    let an: u64 = if a < 0 {
        (-a) as u64
    } else {
        a as u64
    };
    let bn: u64 = if b < 0 {
        (-b) as u64
    } else {
        b as u64
    };
    let q: u64 = an / bn;
    assert(q <= an);
    if (a < 0) != (b < 0) {
        -(q as i64)
    } else {
        q as i64
    }
}

/// Given two readings on different days, calculate the change in the
/// values per day: each difference divided by the days spanned, rounded
/// toward zero. A pair whose dates span zero or fewer days is rejected
/// with the degenerate-range error rather than divided by.
pub fn find_change(pair: &ReadingPair) -> (r: Result<DiurnalChange, ChangeError>)
    requires
        pair.wf(),
    ensures
        match r {
            Ok(c) => {
                let days = spec_day_number(pair.second.date) - spec_day_number(pair.first.date);
                &&& days > 0
                &&& date_lt(pair.first.date, pair.second.date)
                &&& c.generation == div_trunc(pair.second.generation - pair.first.generation, days)
                &&& c.exports == div_trunc(pair.second.exports - pair.first.exports, days)
                &&& c.imports == div_trunc(pair.second.imports - pair.first.imports, days)
                &&& c.wf()
            },
            Err(e) => {
                &&& e == ChangeError::DegenerateRange
                &&& date_le(pair.second.date, pair.first.date)
            },
        },
        r is Err <==> spec_day_number(pair.second.date) <= spec_day_number(pair.first.date),
        pair.first.date == pair.second.date ==> r is Err,
{
    proof {
        lemma_day_number_order(pair.first.date, pair.second.date);
    }
    let days = pair.days_spanned();
    if days <= 0 {
        return Err(ChangeError::DegenerateRange);
    }
    let generation = div_trunc_i64(pair.second.generation - pair.first.generation, days);
    let exports = div_trunc_i64(pair.second.exports - pair.first.exports, days);
    let imports = div_trunc_i64(pair.second.imports - pair.first.imports, days);
    Ok(DiurnalChange { generation, exports, imports })
}

} // verus!
