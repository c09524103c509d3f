//! The published constant table, checked against the constants themselves.
//!
//! The table is normative: an independent implementation is built from it rather than from this
//! source, so a drifted constant is two implementations computing different requirements forever.
//! The table below is section 2 of the published rules, verbatim.

use dig_mirror_collateral::{
    CENSUS_FINALITY_DEPTH_BLOCKS, DEADBAND_HIGH_MICROS, DEADBAND_LOW_MICROS,
    DIG_BASE_UNITS_PER_DIG, DOWN_STEP_DENOM, EQUILIBRIUM_PER_STORE_DIG_BASE_UNITS,
    HANDICAP_MAX_DIG_BASE_UNITS, HANDICAP_ZERO_AT_OWNERS, MIN_REQUIRED_PER_STORE_DIG_BASE_UNITS,
    MULT_BOOTSTRAP_MICROS, MULT_CEILING_MICROS, MULT_FLOOR_MICROS, MULT_SCALE,
    PARTICIPATION_WEIGHT, SIGNAL_CAP_MICROS, SYNC_ASSUMED_DISHONEST_DENOM, SYNC_MAX_SAMPLE,
    SYNC_MIN_POPULATION, UP_STEP_DENOM, VOLUME_WEIGHT,
};

/// Section 2 of the published rules.
const CONSTANT_TABLE: &str = r"## 2. Constants

| name | value | category |
|---|---|---|
| `DIG_BASE_UNITS_PER_DIG` | `1_000` | arbitrary but fixed (the CAT denomination) |
| `EQUILIBRIUM_PER_STORE_DIG_BASE_UNITS` | `5_000` | load-bearing |
| `MULT_SCALE` | `1_000_000` | arbitrary but fixed |
| `MULT_BOOTSTRAP_MICROS` | `1_000_000` | arbitrary but fixed |
| `MULT_FLOOR_MICROS` | `20_000` | load-bearing |
| `MULT_CEILING_MICROS` | `1_000_000_000_000` | arbitrary but fixed |
| `DEADBAND_LOW_MICROS` | `950_000` | load-bearing |
| `DEADBAND_HIGH_MICROS` | `1_100_000` | load-bearing |
| `UP_STEP_DENOM` | `8` | load-bearing |
| `DOWN_STEP_DENOM` | `16` | load-bearing |
| `PARTICIPATION_WEIGHT` | `3` | load-bearing |
| `VOLUME_WEIGHT` | `1` | load-bearing |
| `SIGNAL_CAP_MICROS` | `100_000_000` | arbitrary but fixed |
| `HANDICAP_MAX_DIG_BASE_UNITS` | `4_000` | load-bearing |
| `HANDICAP_ZERO_AT_OWNERS` | `1_000` | load-bearing |
| `MIN_REQUIRED_PER_STORE_DIG_BASE_UNITS` | `1` | load-bearing |
| `CENSUS_FINALITY_DEPTH_BLOCKS` | `32` | arbitrary but fixed |
| `SYNC_MAX_SAMPLE` | `9` | arbitrary but fixed, not consensus |
| `SYNC_MIN_POPULATION` | `20` | arbitrary but fixed, not consensus |
| `SYNC_ASSUMED_DISHONEST_DENOM` | `5` | load-bearing for the confidence claim |

## 2a. Protocol versions
";

/// Every `(name, value)` row the table is expected to carry, bound to the real constant.
fn constants() -> Vec<(&'static str, u64)> {
    vec![
        ("DIG_BASE_UNITS_PER_DIG", DIG_BASE_UNITS_PER_DIG),
        ("EQUILIBRIUM_PER_STORE_DIG_BASE_UNITS", EQUILIBRIUM_PER_STORE_DIG_BASE_UNITS),
        ("MULT_SCALE", MULT_SCALE),
        ("MULT_BOOTSTRAP_MICROS", MULT_BOOTSTRAP_MICROS),
        ("MULT_FLOOR_MICROS", MULT_FLOOR_MICROS),
        ("MULT_CEILING_MICROS", MULT_CEILING_MICROS),
        ("DEADBAND_LOW_MICROS", DEADBAND_LOW_MICROS),
        ("DEADBAND_HIGH_MICROS", DEADBAND_HIGH_MICROS),
        ("UP_STEP_DENOM", UP_STEP_DENOM),
        ("DOWN_STEP_DENOM", DOWN_STEP_DENOM),
        ("PARTICIPATION_WEIGHT", PARTICIPATION_WEIGHT),
        ("VOLUME_WEIGHT", VOLUME_WEIGHT),
        ("SIGNAL_CAP_MICROS", SIGNAL_CAP_MICROS),
        ("HANDICAP_MAX_DIG_BASE_UNITS", HANDICAP_MAX_DIG_BASE_UNITS),
        ("HANDICAP_ZERO_AT_OWNERS", HANDICAP_ZERO_AT_OWNERS),
        ("MIN_REQUIRED_PER_STORE_DIG_BASE_UNITS", MIN_REQUIRED_PER_STORE_DIG_BASE_UNITS),
        ("CENSUS_FINALITY_DEPTH_BLOCKS", CENSUS_FINALITY_DEPTH_BLOCKS),
        ("SYNC_MAX_SAMPLE", SYNC_MAX_SAMPLE),
        ("SYNC_MIN_POPULATION", SYNC_MIN_POPULATION),
        ("SYNC_ASSUMED_DISHONEST_DENOM", SYNC_ASSUMED_DISHONEST_DENOM),
    ]
}

/// The rows of the section-2 table, as `(name, value)`.
fn spec_rows() -> Vec<(String, u64)> {
    let section = CONSTANT_TABLE
        .split("## 2. Constants")
        .nth(1)
        .expect("the table has a section 2");

    section
        .lines()
        .take_while(|line| !line.starts_with("## "))
        .filter_map(|line| {
            let mut cells = line.trim().strip_prefix('|')?.split('|');
            let name = cells.next()?.trim().strip_prefix('`')?.strip_suffix('`')?;
            let value = cells.next()?.trim().strip_prefix('`')?.strip_suffix('`')?;
            let value = value.replace('_', "").parse::<u64>().ok()?;
            Some((name.to_owned(), value))
        })
        .collect()
}

/// Each constant holds exactly the value the table publishes for it.
#[test]
fn spec_constant_table_matches_the_constants() {
    let rows = spec_rows();
    for (name, actual) in constants() {
        let (_, documented) = rows
            .iter()
            .find(|(row_name, _)| row_name == name)
            .unwrap_or_else(|| panic!("section 2 has no row for `{name}`"));
        assert_eq!(
            *documented, actual,
            "the table publishes {name} = {documented}, the crate defines {actual}"
        );
    }
}

/// The table carries no row the check above never looked at.
#[test]
fn spec_constant_table_has_no_unchecked_rows() {
    let rows = spec_rows();
    let known = constants();

    assert_eq!(
        rows.len(),
        known.len(),
        "section 2 publishes {} constants and this test binds {}",
        rows.len(),
        known.len()
    );

    for (name, _) in &rows {
        assert!(
            known.iter().any(|(known_name, _)| known_name == name),
            "section 2 publishes `{name}`, which no constant in this test is bound to"
        );
    }
}

/// The parser is not vacuous: it finds the table, and it reads real values out of it.
#[test]
fn spec_table_parser_is_not_vacuous() {
    let rows = spec_rows();
    assert!(
        rows.len() >= 19,
        "parsed only {} rows from section 2",
        rows.len()
    );
    assert_eq!(
        rows.iter()
            .find(|(name, _)| name == "DEADBAND_HIGH_MICROS")
            .map(|(_, value)| *value),
        Some(1_100_000),
        "the parser did not read a known row correctly"
    );
}
