use nrgaccounts::calc::{calculate, Tariffs};
use nrgaccounts::readings::DiurnalChange;

// Tariffs in millionths of a currency unit per kWh: import 2.0, export 1.0.
fn tariffs() -> Tariffs {
    Tariffs { export: 1_000_000, import: 2_000_000 }
}

#[test]
fn generation_kwh() {
    let change = DiurnalChange { generation: 3_000, imports: 2_000, exports: 2_000 };

    let expected = change.generation;
    let calculation = calculate(change, tariffs());
    assert_eq!(calculation.generation_kwh, expected);
}

#[test]
fn grid_import_kwh() {
    let change = DiurnalChange { generation: 3_000, imports: 1_000, exports: 2_000 };

    let expected = change.imports;
    let calculation = calculate(change, tariffs());
    assert_eq!(calculation.grid_import_kwh, expected);
}

#[test]
fn grid_export_kwh() {
    let change = DiurnalChange { generation: 3_000, imports: 1_000, exports: 2_000 };
    let expected = change.exports;
    let calculation = calculate(change, tariffs());
    assert_eq!(calculation.grid_export_kwh, expected);
}

#[test]
fn total_consumption_kwh() {
    let change = DiurnalChange { generation: 3_000, imports: 2_000, exports: 1_000 };
    // 4.0 kWh in thousandths.
    let expected = 4_000;
    let calculation = calculate(change, tariffs());
    assert_eq!(calculation.total_consumption_kwh, expected);
}

#[test]
fn self_consumption_kwh() {
    let change = DiurnalChange { generation: 3_000, imports: 2_000, exports: 1_000 };
    // 2.0 kWh in thousandths.
    let expected = 2_000;
    let calculation = calculate(change, tariffs());
    assert_eq!(calculation.self_consumption.kwh, expected);
}

#[test]
fn fraction_of_total_use() {
    let change = DiurnalChange { generation: 3_000, imports: 2_000, exports: 1_000 };
    // 0.5 in parts per million.
    let expected = 500_000;
    let calculation = calculate(change, tariffs());
    assert_eq!(calculation.self_consumption.fraction_of_total_use, expected);
}

#[test]
fn fraction_of_generation() {
    let change = DiurnalChange { generation: 10_000, imports: 4_000, exports: 2_500 };
    // 0.75 in parts per million.
    let expected = 750_000;
    let calculation = calculate(change, tariffs());
    assert_eq!(calculation.self_consumption.fraction_of_generation, expected);
}

#[test]
fn savings_from_self_consumption() {
    let change = DiurnalChange { generation: 3_000, imports: 2_000, exports: 1_000 };
    // 2.0 kWh at the import tariff, in billionths of a currency unit.
    let expected = 2_000 * tariffs().import;
    let calculation = calculate(change, tariffs());
    assert_eq!(calculation.savings.from_self_consumption, expected);
}

#[test]
fn savings_from_exports() {
    let change = DiurnalChange { generation: 3_000, imports: 2_000, exports: 3_000 };
    // 3.0 kWh at the export tariff, in billionths of a currency unit.
    let expected = 3_000 * tariffs().export;
    let calculation = calculate(change, tariffs());
    assert_eq!(calculation.savings.from_exports, expected);
}

#[test]
fn savings_total() {
    let change = DiurnalChange { generation: 7_000, imports: 2_000, exports: 3_000 };
    // 4.0 kWh at the import tariff plus 3.0 kWh at the export tariff.
    let expected = 4_000 * tariffs().import + 3_000 * tariffs().export;
    let calculation = calculate(change, tariffs());
    assert_eq!(calculation.savings.total, expected);
}

#[test]
fn test_tariffs() {
    // Import 0.50 and export 0.10 currency units per kWh, in millionths.
    let tariffs = Tariffs { import: 500_000, export: 100_000 };

    let change = DiurnalChange { generation: 12_000, imports: 20_000, exports: 2_000 };

    assert_eq!(tariffs.import, 500_000);
    assert_eq!(tariffs.export, 100_000);

    let calculation = calculate(change, tariffs);

    assert_eq!(calculation.self_consumption.kwh, 10_000, "Self consumption wrong.");
    assert_eq!(calculation.grid_export_kwh, 2_000, "Grid export kwh wrong.");
    // 0.20 currency units in billionths.
    assert_eq!(calculation.savings.from_exports, 200_000_000, "Export savings wrong.");
    // 5.0 currency units in billionths.
    assert_eq!(calculation.savings.from_self_consumption, 5_000_000_000, "Self consumption savings wrong.");
    // 5.20 currency units in billionths.
    assert_eq!(calculation.savings.total, 5_200_000_000, "Total savings wrong.");
}

#[test]
fn published_tariff_scenario() {
    // Import 25.752 and export 7.135 currency units per kWh.
    let tariffs = Tariffs { import: 25_752_000, export: 7_135_000 };
    let change = DiurnalChange { generation: 3_000, imports: 2_000, exports: 1_000 };

    let calculation = calculate(change, tariffs);

    // 2.0 kWh self-consumed, 4.0 kWh total consumption.
    assert_eq!(calculation.self_consumption.kwh, 2_000);
    assert_eq!(calculation.total_consumption_kwh, 4_000);
    // 51.504, 7.135 and 58.639 currency units, in billionths.
    assert_eq!(calculation.savings.from_self_consumption, 51_504_000_000);
    assert_eq!(calculation.savings.from_exports, 7_135_000_000);
    assert_eq!(calculation.savings.total, 58_639_000_000);
}

#[test]
fn total_consumption_is_self_consumption_plus_imports() {
    let change = DiurnalChange { generation: 8_250, imports: 1_125, exports: 9_500 };
    let calculation = calculate(change, tariffs());
    assert_eq!(
        calculation.total_consumption_kwh,
        calculation.self_consumption.kwh + calculation.grid_import_kwh
    );
}

#[test]
fn zero_generation_gives_zero_fraction() {
    let change = DiurnalChange { generation: 0, imports: 2_000, exports: 0 };
    let calculation = calculate(change, tariffs());
    assert_eq!(calculation.self_consumption.fraction_of_generation, 0);
}

#[test]
fn zero_total_consumption_gives_zero_fraction() {
    let change = DiurnalChange { generation: 1_000, imports: 0, exports: 1_000 };
    let calculation = calculate(change, tariffs());
    assert_eq!(calculation.total_consumption_kwh, 0);
    assert_eq!(calculation.self_consumption.fraction_of_total_use, 0);
}

#[test]
fn negative_self_consumption_propagates() {
    // Exports exceeding generation is malformed input, passed through as is.
    let change = DiurnalChange { generation: 1_000, imports: 3_000, exports: 2_500 };
    let calculation = calculate(change, tariffs());
    assert_eq!(calculation.self_consumption.kwh, -1_500);
    assert_eq!(calculation.total_consumption_kwh, 1_500);
    assert_eq!(calculation.savings.from_self_consumption, -1_500 * tariffs().import);
}
