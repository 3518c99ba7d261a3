use vstd::prelude::*;

use crate::readings::{abs_int, div_trunc, div_trunc_i64, DiurnalChange, MAX_CHANGE_MILLIKWH};

verus! {

/// The largest magnitude, in millionths of a currency unit per
/// kilowatt-hour, accepted for a tariff: one thousand currency units.
pub const MAX_TARIFF_MICRO: i64 = 1_000_000_000;

/// The scale of a fraction: parts per million.
pub const FRACTION_SCALE: i64 = 1_000_000;

/// Tariffs set by the energy retailer, in millionths of a currency unit
/// per kilowatt-hour.
#[derive(Clone, Copy, PartialEq, Eq, Structural, Debug)]
pub struct Tariffs {
    /// Money paid to export energy to the grid.
    pub export: i64,
    /// Money charged to import energy from the grid.
    pub import: i64,
}

impl Tariffs {
    /// A well-formed pair of tariffs: both within the accepted magnitude.
    pub open spec fn wf(self) -> bool {
        -MAX_TARIFF_MICRO <= self.export <= MAX_TARIFF_MICRO && -MAX_TARIFF_MICRO <= self.import
            <= MAX_TARIFF_MICRO
    }

    /// True if both tariffs are within the accepted magnitude.
    pub fn is_well_formed(&self) -> (r: bool)
        ensures
            r == self.wf(),
    {
        -MAX_TARIFF_MICRO <= self.export && self.export <= MAX_TARIFF_MICRO && -MAX_TARIFF_MICRO
            <= self.import && self.import <= MAX_TARIFF_MICRO
    }
}

/// Information related to energy produced and consumed directly.
#[derive(Clone, Copy, PartialEq, Eq, Structural, Debug)]
pub struct SelfConsumption {
    /// The energy consumed on site without passing through the grid, in
    /// thousandths of a kilowatt-hour.
    pub kwh: i64,
    /// Self consumption as a share of the total energy used for the
    /// period, in parts per million.
    pub fraction_of_total_use: i64,
    /// Self consumption as a share of what was generated on site, in
    /// parts per million.
    pub fraction_of_generation: i64,
}

/// How much money was saved during this period, in billionths of a
/// currency unit.
#[derive(Clone, Copy, PartialEq, Eq, Structural, Debug)]
pub struct Savings {
    /// The amount saved due to energy self-consumed.
    pub from_self_consumption: i64,
    /// The amount earned by exporting energy to the grid.
    pub from_exports: i64,
    /// Overall savings due to solar.
    pub total: i64,
}

/// A simple data structure for storing a variety of information about
/// energy consumption and production. Energies are in thousandths of a
/// kilowatt-hour per day, money in billionths of a currency unit per day.
#[derive(Clone, Copy, PartialEq, Eq, Structural, Debug)]
pub struct Calculation {
    /// The amount of generated energy.
    pub generation_kwh: i64,
    /// The amount of energy imported from the grid.
    pub grid_import_kwh: i64,
    /// The amount of energy exported to the grid.
    pub grid_export_kwh: i64,
    /// The total amount of energy consumed.
    pub total_consumption_kwh: i64,
    /// Information related to self consumption.
    pub self_consumption: SelfConsumption,
    /// The amount of money saved.
    pub savings: Savings,
}

impl Calculation {
    /// The ranges every calculation built from well-formed inputs stays in.
    pub open spec fn wf(self) -> bool {
        &&& -MAX_CHANGE_MILLIKWH <= self.generation_kwh <= MAX_CHANGE_MILLIKWH
        &&& -MAX_CHANGE_MILLIKWH <= self.grid_import_kwh <= MAX_CHANGE_MILLIKWH
        &&& -MAX_CHANGE_MILLIKWH <= self.grid_export_kwh <= MAX_CHANGE_MILLIKWH
        &&& -2 * MAX_CHANGE_MILLIKWH <= self.self_consumption.kwh <= 2 * MAX_CHANGE_MILLIKWH
        &&& -3 * MAX_CHANGE_MILLIKWH <= self.total_consumption_kwh <= 3 * MAX_CHANGE_MILLIKWH
        &&& -2 * MAX_CHANGE_MILLIKWH * FRACTION_SCALE <= self.self_consumption.fraction_of_total_use
            <= 2 * MAX_CHANGE_MILLIKWH * FRACTION_SCALE
        &&& -2 * MAX_CHANGE_MILLIKWH * FRACTION_SCALE
            <= self.self_consumption.fraction_of_generation <= 2 * MAX_CHANGE_MILLIKWH
            * FRACTION_SCALE
        &&& -4_000_000_000_000_000_000 <= self.savings.from_self_consumption
            <= 4_000_000_000_000_000_000
        &&& -2_000_000_000_000_000_000 <= self.savings.from_exports <= 2_000_000_000_000_000_000
        &&& -6_000_000_000_000_000_000 <= self.savings.total <= 6_000_000_000_000_000_000
    }
}

/// The share that `num` is of `den`, in parts per million, rounded toward
/// zero; zero when the denominator is zero, as a defined stand-in for an
/// undefined ratio.
pub open spec fn fraction_ppm(num: int, den: int) -> int {
    if den == 0 {
        0
    } else {
        div_trunc(num * FRACTION_SCALE, den)
    }
}

/// A fraction of a whole stays between zero and one: whenever the part
/// does not exceed the whole, the share in parts per million lies
/// between zero and one million.
pub proof fn lemma_fraction_in_unit_range(num: int, den: int)
    requires
        0 <= num <= den,
    ensures
        0 <= fraction_ppm(num, den) <= FRACTION_SCALE,
{
    if den != 0 {
        let x = num * (FRACTION_SCALE as int);
        let y = den * (FRACTION_SCALE as int);
        assert(0 <= x <= y) by (nonlinear_arith)
            requires
                0 <= num <= den,
                x == num * (FRACTION_SCALE as int),
                y == den * (FRACTION_SCALE as int),
        ;
        vstd::arithmetic::div_mod::lemma_div_is_ordered(x, y, den);
        vstd::arithmetic::div_mod::lemma_div_multiples_vanish(FRACTION_SCALE as int, den);
        vstd::arithmetic::div_mod::lemma_div_pos_is_pos(x, den);
    }
}

/// For a change whose exports stay within its generation and whose
/// imports are not negative, both fractions of the calculation are
/// shares between zero and one.
pub proof fn lemma_normal_change_fractions(change: DiurnalChange)
    requires
        0 <= change.exports <= change.generation,
        0 <= change.imports,
    ensures
        0 <= fraction_ppm(change.generation - change.exports, change.generation as int)
            <= FRACTION_SCALE,
        0 <= fraction_ppm(
            change.generation - change.exports,
            change.generation - change.exports + change.imports,
        ) <= FRACTION_SCALE,
{
    lemma_fraction_in_unit_range(
        change.generation - change.exports,
        change.generation as int,
    );
    lemma_fraction_in_unit_range(
        change.generation - change.exports,
        change.generation - change.exports + change.imports,
    );
}

/// The share that `num` is of `den`, in parts per million.
pub(crate) fn fraction_ppm_i64(num: i64, den: i64) -> (r: i64)
    requires
        -4 * MAX_CHANGE_MILLIKWH <= num <= 4 * MAX_CHANGE_MILLIKWH,
        -i64::MAX <= den,
    ensures
        r == fraction_ppm(num as int, den as int),
        abs_int(r as int) <= abs_int(num as int) * FRACTION_SCALE,
{
    if den == 0 {
        0
    } else {
        assert(-8_000_000_000_000_000 <= num * FRACTION_SCALE <= 8_000_000_000_000_000
            && abs_int(num * FRACTION_SCALE) == abs_int(num as int) * FRACTION_SCALE)
            by (nonlinear_arith)
            requires
                -4 * MAX_CHANGE_MILLIKWH <= num <= 4 * MAX_CHANGE_MILLIKWH,
        ;
        div_trunc_i64(num * FRACTION_SCALE, den)
    }
}

/// Calculate a variety of values related to energy consumption and
/// production and return the information as a Calculation.
///
/// Self-consumed energy is what was generated and not exported; the total
/// consumption adds what was imported. Each fraction is a share in parts
/// per million, zero when its denominator is zero. Savings price the
/// self-consumed energy at the import tariff and the exported energy at
/// the export tariff.
pub fn calculate(change: DiurnalChange, tariffs: Tariffs) -> (r: Calculation)
    requires
        change.wf(),
        tariffs.wf(),
    ensures
        r.generation_kwh == change.generation,
        r.grid_import_kwh == change.imports,
        r.grid_export_kwh == change.exports,
        r.self_consumption.kwh == change.generation - change.exports,
        r.total_consumption_kwh == r.self_consumption.kwh + r.grid_import_kwh,
        r.self_consumption.fraction_of_generation == fraction_ppm(
            change.generation - change.exports,
            change.generation as int,
        ),
        r.self_consumption.fraction_of_total_use == fraction_ppm(
            change.generation - change.exports,
            change.generation - change.exports + change.imports,
        ),
        r.savings.from_self_consumption == (change.generation - change.exports) * tariffs.import,
        r.savings.from_exports == change.exports * tariffs.export,
        r.savings.total == r.savings.from_self_consumption + r.savings.from_exports,
        r.wf(),
{
    let self_consumption_kwh = change.generation - change.exports;
    let total_consumption_kwh = self_consumption_kwh + change.imports;
    let self_consumption = SelfConsumption {
        kwh: self_consumption_kwh,
        fraction_of_generation: fraction_ppm_i64(self_consumption_kwh, change.generation),
        fraction_of_total_use: fraction_ppm_i64(self_consumption_kwh, total_consumption_kwh),
    };
    assert(-4_000_000_000_000_000_000 <= self_consumption_kwh * tariffs.import
        <= 4_000_000_000_000_000_000) by (nonlinear_arith)
        requires
            -2 * MAX_CHANGE_MILLIKWH <= self_consumption_kwh <= 2 * MAX_CHANGE_MILLIKWH,
            -MAX_TARIFF_MICRO <= tariffs.import <= MAX_TARIFF_MICRO,
    ;
    assert(-2_000_000_000_000_000_000 <= change.exports * tariffs.export
        <= 2_000_000_000_000_000_000) by (nonlinear_arith)
        requires
            -MAX_CHANGE_MILLIKWH <= change.exports <= MAX_CHANGE_MILLIKWH,
            -MAX_TARIFF_MICRO <= tariffs.export <= MAX_TARIFF_MICRO,
    ;
    let from_self_consumption = self_consumption_kwh * tariffs.import;
    let from_exports = change.exports * tariffs.export;
    let savings = Savings {
        from_exports,
        from_self_consumption,
        total: from_exports + from_self_consumption,
    };
    assert(abs_int(self_consumption.fraction_of_generation as int) <= 2 * MAX_CHANGE_MILLIKWH
        * FRACTION_SCALE) by (nonlinear_arith)
        requires
            abs_int(self_consumption.fraction_of_generation as int) <= abs_int(
                self_consumption_kwh as int,
            ) * FRACTION_SCALE,
            -2 * MAX_CHANGE_MILLIKWH <= self_consumption_kwh <= 2 * MAX_CHANGE_MILLIKWH,
    ;
    assert(abs_int(self_consumption.fraction_of_total_use as int) <= 2 * MAX_CHANGE_MILLIKWH
        * FRACTION_SCALE) by (nonlinear_arith)
        requires
            abs_int(self_consumption.fraction_of_total_use as int) <= abs_int(
                self_consumption_kwh as int,
            ) * FRACTION_SCALE,
            -2 * MAX_CHANGE_MILLIKWH <= self_consumption_kwh <= 2 * MAX_CHANGE_MILLIKWH,
    ;
    Calculation {
        generation_kwh: change.generation,
        grid_import_kwh: change.imports,
        grid_export_kwh: change.exports,
        total_consumption_kwh,
        self_consumption,
        savings,
    }
}

} // verus!
