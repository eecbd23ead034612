use agile_dashboard::error::AppError;
use agile_dashboard::region::ApiConfig;
use agile_dashboard::region::Region;
use agile_dashboard::time::parse_instant;
use agile_dashboard::time::half_hour_floor;
use agile_dashboard::time::slot_of_instant;
use agile_dashboard::time::day_of_instant;
use chrono::TimeZone;
use chrono::Utc;

#[test]
fn region_codes_parse_in_either_case() {
    assert_eq!(Region::from_code("m").unwrap(), Region::from_code("M").unwrap());
    assert_eq!(Region::from_code("M").unwrap(), Region::M);
    assert_eq!("c".parse::<Region>().unwrap(), Region::C);
    match Region::from_code("I") {
        Err(AppError::ConfigError(msg)) => assert_eq!(msg, "Invalid region code: I"),
        _ => panic!("Expected ConfigError"),
    }
    assert!(Region::from_code("O").is_err());
    assert!(Region::from_code("").is_err());
    assert!(Region::from_code("MM").is_err());
}

#[test]
fn fourteen_regions_round_trip_their_codes() {
    let all = Region::all();
    assert_eq!(all.len(), 14);
    for r in all {
        assert_eq!(Region::from_code(r.code()).unwrap(), r);
        assert_eq!(Region::from_code(&r.code().to_lowercase()).unwrap(), r);
        assert!(!r.description().is_empty());
    }
    assert_eq!(Region::default(), Region::C);
    assert_eq!(Region::C.description(), "London");
}

#[test]
fn rates_url_for_region() {
    let config = ApiConfig::new().with_region(Region::H);
    assert_eq!(
        config.url(),
        "https://api.octopus.energy/v1/products/AGILE-24-10-01/electricity-tariffs/E-1R-AGILE-24-10-01-H/standard-unit-rates/"
    );
    assert_eq!(ApiConfig::new().region, Region::C);
}

#[test]
fn live_and_historical_windows() {
    let now = Utc.with_ymd_and_hms(2025, 10, 4, 15, 42, 7).unwrap().timestamp();
    let config = ApiConfig::new();
    let base = "https://api.octopus.energy/v1/products/AGILE-24-10-01/electricity-tariffs/E-1R-AGILE-24-10-01-C/standard-unit-rates/";
    assert_eq!(
        config.live_url(now),
        format!("{base}?period_from=2025-10-04T00:00:00Z&period_to=2025-10-06T00:00:00Z")
    );
    assert_eq!(
        config.historical_url(now, 7),
        format!("{base}?period_from=2025-09-27T00:00:00Z&period_to=2025-10-04T00:00:00Z")
    );
    assert_eq!(
        config.window_url("a", "b"),
        format!("{base}?period_from=a&period_to=b")
    );
}

#[test]
fn timestamps_with_and_without_seconds() {
    assert_eq!(parse_instant("2024-01-20T12:00:00Z"), Some(1_705_752_000));
    assert_eq!(parse_instant("2026-01-12T19:30Z"), Some(Utc.with_ymd_and_hms(2026, 1, 12, 19, 30, 0).unwrap().timestamp()));
    assert_eq!(parse_instant("2024-01-20T13:00:00+01:00"), Some(1_705_752_000));
    assert_eq!(parse_instant("2024-01-20 12:00"), None);
    assert_eq!(parse_instant(""), None);
    assert_eq!(parse_instant("Z"), None);
}

#[test]
fn instant_arithmetic() {
    assert_eq!(half_hour_floor(3599), 1800);
    assert_eq!(half_hour_floor(-1), -1800);
    assert_eq!(slot_of_instant(-1), 47);
    assert_eq!(slot_of_instant(86_400 + 1800 * 5 + 7), 5);
    assert_eq!(day_of_instant(-1), -1);
    assert_eq!(day_of_instant(86_399), 0);
    assert_eq!(day_of_instant(i64::MIN), i64::MIN.div_euclid(86_400));
}
