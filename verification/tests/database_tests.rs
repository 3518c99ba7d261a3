use nrgaccounts::database::{most_recent_of, row_to_reading, Database, StoreError};
use nrgaccounts::dates::Date;
use nrgaccounts::readings::Reading;

fn date(year: u16, month: u8, day: u8) -> Date {
    Date::new(year, month, day).expect("a valid date")
}

#[test]
fn row_to_reading_ok() {
    // Energies 10.0, 20.0 and 5.5 kWh in thousandths.
    let reading = row_to_reading("2010-10-10", 10_000, 20_000, 5_500).expect("a good row");

    assert_eq!(reading.date, date(2010, 10, 10));
    assert_eq!(reading.generation, 10_000);
    assert_eq!(reading.imports, 20_000);
    assert_eq!(reading.exports, 5_500);
}

#[test]
fn row_with_bad_date_is_refused() {
    assert_eq!(row_to_reading("not-a-date", 0, 0, 0), Err(StoreError::BadRow));
    assert_eq!(row_to_reading("2010-13-10", 0, 0, 0), Err(StoreError::BadRow));
}

#[test]
fn row_with_oversized_energy_is_refused() {
    assert_eq!(
        row_to_reading("2010-10-10", 1_000_000_001, 0, 0),
        Err(StoreError::BadRow)
    );
}

#[test]
fn table_exists() {
    let db = Database::open(":memory:").expect("an in-memory database");
    assert!(db.table_exists("reading").expect("a table lookup"));
}

#[test]
fn add_retrieve_reading() {
    let db = Database::open(":memory:").expect("an in-memory database");

    let reading_in = Reading {
        date: date(2019, 10, 4),
        generation: 3_000,
        imports: 5_000,
        exports: 1_000,
    };

    match db.get_reading_for_date(reading_in.date).expect("a lookup") {
        None => (),
        _ => panic!("Unexpected got a result."),
    }

    db.add_reading(&reading_in).expect("an insert");

    let reading_out = match db.get_reading_for_date(reading_in.date).expect("a lookup") {
        Some(reading) => reading,
        None => panic!("No reading returned for date {}.", reading_in.date.iso_string()),
    };

    assert_eq!(reading_in.date, reading_out.date);
    assert_eq!(reading_in.generation, reading_out.generation);
    assert_eq!(reading_in.imports, reading_out.imports);
    assert_eq!(reading_in.exports, reading_out.exports);
}

#[test]
fn most_recent_reading_ok() {
    let db = Database::open(":memory:").expect("an in-memory database");

    let reading_1 = Reading {
        date: date(2019, 10, 10),
        generation: 30_000,
        imports: 20_000,
        exports: 5_000,
    };

    // Most recent reading.
    let reading_2 = Reading {
        date: date(2019, 10, 12),
        generation: 29_000,
        imports: 19_000,
        exports: 4_000,
    };

    let reading_3 = Reading {
        date: date(2019, 10, 11),
        generation: 28_000,
        imports: 18_000,
        exports: 3_000,
    };

    db.add_reading(&reading_1).expect("an insert");
    db.add_reading(&reading_2).expect("an insert");
    db.add_reading(&reading_3).expect("an insert");

    let most_recent = db.most_recent_reading().expect("a lookup").unwrap();

    assert_eq!(most_recent.date, reading_2.date);
    assert_eq!(most_recent.generation, reading_2.generation);
    assert_eq!(most_recent.imports, reading_2.imports);
    assert_eq!(most_recent.exports, reading_2.exports);
}

#[test]
fn most_recent_reading_of_empty_store_is_none() {
    let db = Database::open(":memory:").expect("an in-memory database");
    assert_eq!(db.most_recent_reading().expect("a lookup"), None);
}

#[test]
fn number_of_readings_ok() {
    let db = Database::open(":memory:").expect("an in-memory database");

    let reading_1 = Reading {
        date: date(2019, 10, 10),
        generation: 30_000,
        imports: 20_000,
        exports: 5_000,
    };

    let reading_2 = Reading {
        date: date(2019, 10, 11),
        generation: 60_000,
        imports: 30_000,
        exports: 10_000,
    };

    let reading_3 = Reading {
        date: date(2019, 10, 12),
        generation: 90_000,
        imports: 60_000,
        exports: 20_000,
    };

    assert_eq!(db.number_of_readings().expect("a count"), 0);
    db.add_reading(&reading_1).expect("an insert");
    assert_eq!(db.number_of_readings().expect("a count"), 1);
    db.add_reading(&reading_2).expect("an insert");
    assert_eq!(db.number_of_readings().expect("a count"), 2);
    db.add_reading(&reading_3).expect("an insert");
    assert_eq!(db.number_of_readings().expect("a count"), 3);
}

#[test]
fn second_reading_for_a_date_is_refused() {
    let db = Database::open(":memory:").expect("an in-memory database");
    let reading = Reading {
        date: date(2019, 10, 4),
        generation: 3_000,
        imports: 5_000,
        exports: 1_000,
    };
    db.add_reading(&reading).expect("an insert");
    assert_eq!(db.add_reading(&reading), Err(StoreError::Sqlite));
}

#[test]
fn most_recent_of_picks_latest_date() {
    let readings = vec![
        Reading { date: date(2019, 10, 10), generation: 1, imports: 2, exports: 3 },
        Reading { date: date(2019, 10, 12), generation: 4, imports: 5, exports: 6 },
        Reading { date: date(2019, 10, 11), generation: 7, imports: 8, exports: 9 },
    ];
    let best = most_recent_of(&readings).expect("a nonempty list");
    assert_eq!(best.date, date(2019, 10, 12));
    assert_eq!(most_recent_of(&Vec::new()), None);
}

#[test]
fn open_reuses_existing_schema() {
    let db = Database::open(":memory:").expect("an in-memory database");
    // Creating the schema again on the same connection must not be needed:
    // the table is already reported as present.
    assert!(db.table_exists("reading").expect("a table lookup"));
    assert!(!db.table_exists("nothing_here").expect("a table lookup"));
}
