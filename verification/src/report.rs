use vstd::prelude::*;

use crate::calc::Calculation;
use crate::text::{fixed2_seq, fixed2_string};

verus! {

/// How many thousandths of a kilowatt-hour make one displayed hundredth.
pub const ENERGY_UNITS_PER_HUNDREDTH: i64 = 10;

/// How many parts per million make one displayed hundredth of a percent.
pub const FRACTION_UNITS_PER_HUNDREDTH: i64 = 100;

/// How many billionths of a currency unit make one displayed hundredth.
pub const MONEY_UNITS_PER_HUNDREDTH: i64 = 10_000_000;

/// The report text for a calculation: average daily traffic, the self
/// consumption block, and the daily savings block, every number shown
/// with two decimal places and fractions shown as percentages.
pub open spec fn report_seq(c: Calculation) -> Seq<char> {
    "Average daily traffic:\n"@ + "    Generation: "@ + fixed2_seq(
        c.generation_kwh as int,
        ENERGY_UNITS_PER_HUNDREDTH as int,
    ) + " kWh\n"@ + "    Exports:    "@ + fixed2_seq(
        c.grid_export_kwh as int,
        ENERGY_UNITS_PER_HUNDREDTH as int,
    ) + " kWh\n"@ + "    Imports:    "@ + fixed2_seq(
        c.grid_import_kwh as int,
        ENERGY_UNITS_PER_HUNDREDTH as int,
    ) + " kWh\n"@ + "    Total use:  "@ + fixed2_seq(
        c.total_consumption_kwh as int,
        ENERGY_UNITS_PER_HUNDREDTH as int,
    ) + " kWh\n"@ + "Self consumption:\n"@ + "    Daily:          "@ + fixed2_seq(
        c.self_consumption.kwh as int,
        ENERGY_UNITS_PER_HUNDREDTH as int,
    ) + " kWh\n"@ + "    % of total:     "@ + fixed2_seq(
        c.self_consumption.fraction_of_total_use as int,
        FRACTION_UNITS_PER_HUNDREDTH as int,
    ) + "%\n"@ + "    % of generated: "@ + fixed2_seq(
        c.self_consumption.fraction_of_generation as int,
        FRACTION_UNITS_PER_HUNDREDTH as int,
    ) + "%\n"@ + "Daily savings:\n"@ + "   By self-consumption: $"@ + fixed2_seq(
        c.savings.from_self_consumption as int,
        MONEY_UNITS_PER_HUNDREDTH as int,
    ) + "\n"@ + "   From exports:        $"@ + fixed2_seq(
        c.savings.from_exports as int,
        MONEY_UNITS_PER_HUNDREDTH as int,
    ) + "\n"@ + "   Total:               $"@ + fixed2_seq(
        c.savings.total as int,
        MONEY_UNITS_PER_HUNDREDTH as int,
    ) + "\n"@
}

impl Calculation {
    /// Renders the calculation as the human-readable report.
    pub fn render(&self) -> (r: String)
        requires
            self.wf(),
        ensures
            r@ == report_seq(*self),
    {
        let mut s = String::new();
        s.append("Average daily traffic:\n");
        s.append("    Generation: ");
        let part = fixed2_string(self.generation_kwh, ENERGY_UNITS_PER_HUNDREDTH);
        s.append(part.as_str());
        s.append(" kWh\n");
        s.append("    Exports:    ");
        let part = fixed2_string(self.grid_export_kwh, ENERGY_UNITS_PER_HUNDREDTH);
        s.append(part.as_str());
        s.append(" kWh\n");
        s.append("    Imports:    ");
        let part = fixed2_string(self.grid_import_kwh, ENERGY_UNITS_PER_HUNDREDTH);
        s.append(part.as_str());
        s.append(" kWh\n");
        s.append("    Total use:  ");
        let part = fixed2_string(self.total_consumption_kwh, ENERGY_UNITS_PER_HUNDREDTH);
        s.append(part.as_str());
        s.append(" kWh\n");
        s.append("Self consumption:\n");
        s.append("    Daily:          ");
        let part = fixed2_string(self.self_consumption.kwh, ENERGY_UNITS_PER_HUNDREDTH);
        s.append(part.as_str());
        s.append(" kWh\n");
        s.append("    % of total:     ");
        let part = fixed2_string(
            self.self_consumption.fraction_of_total_use,
            FRACTION_UNITS_PER_HUNDREDTH,
        );
        s.append(part.as_str());
        s.append("%\n");
        s.append("    % of generated: ");
        let part = fixed2_string(
            self.self_consumption.fraction_of_generation,
            FRACTION_UNITS_PER_HUNDREDTH,
        );
        s.append(part.as_str());
        s.append("%\n");
        s.append("Daily savings:\n");
        s.append("   By self-consumption: $");
        let part = fixed2_string(self.savings.from_self_consumption, MONEY_UNITS_PER_HUNDREDTH);
        s.append(part.as_str());
        s.append("\n");
        s.append("   From exports:        $");
        let part = fixed2_string(self.savings.from_exports, MONEY_UNITS_PER_HUNDREDTH);
        s.append(part.as_str());
        s.append("\n");
        s.append("   Total:               $");
        let part = fixed2_string(self.savings.total, MONEY_UNITS_PER_HUNDREDTH);
        s.append(part.as_str());
        s.append("\n");
        proof {
            assert(s@ =~= report_seq(*self));
        }
        s
    }
}

} // verus!
