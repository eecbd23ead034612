use agile_dashboard::rates::Rate;
use agile_dashboard::rates::Rates;
use agile_dashboard::error::AppError;
use chrono::Duration;
use chrono::TimeZone;
use chrono::Utc;

fn micros(pence: f64) -> i64 {
    (pence * 1_000_000.0).round() as i64
}

fn at(y: i32, mo: u32, d: u32, h: u32, mi: u32) -> i64 {
    Utc.with_ymd_and_hms(y, mo, d, h, mi, 0).unwrap().timestamp()
}

fn rate(value: f64, valid_from: i64, valid_to: i64) -> Rate {
    Rate {
        value_inc_vat: micros(value),
        value_exc_vat: micros(value / 1.05),
        valid_from,
        valid_to,
    }
}

fn make_rate(hour: u32, value: f64) -> Rate {
    rate(value, at(2024, 1, 15, hour, 0), at(2024, 1, 15, hour, 30))
}

fn create_test_rates() -> Vec<Rate> {
    vec![
        rate(15.5, at(2025, 10, 4, 0, 0), at(2025, 10, 4, 0, 30)),
        rate(20.3, at(2025, 10, 4, 0, 30), at(2025, 10, 4, 1, 0)),
        rate(18.7, at(2025, 10, 4, 1, 0), at(2025, 10, 4, 1, 30)),
    ]
}

fn create_current_time_rates() -> Vec<Rate> {
    let now = Utc::now();
    let past = (now - Duration::minutes(15)).timestamp();
    let future = (now + Duration::minutes(15)).timestamp();
    vec![
        rate(25.5, past, future),
        rate(30.0, future, future + 3600),
    ]
}

fn today_at(h: u32, mi: u32) -> i64 {
    let today = Utc::now().date_naive();
    Utc.from_utc_datetime(&today.and_hms_opt(h, mi, 0).unwrap()).timestamp()
}

#[test]
fn test_rate_at_finds_correct_rate() {
    let rates = Rates::new(vec![make_rate(10, 15.0), make_rate(11, 20.0), make_rate(12, 25.0)]);
    let time = at(2024, 1, 15, 11, 15);
    let rate = rates.rate_at(time).unwrap();
    assert_eq!(rate.value_inc_vat, micros(20.0));
}

#[test]
fn test_next_rate_finds_following_slot() {
    let valid_from_1 = at(2024, 1, 15, 10, 0);
    let valid_to_1 = at(2024, 1, 15, 10, 30);
    let valid_from_2 = valid_to_1;
    let valid_to_2 = at(2024, 1, 15, 11, 0);
    let rates = Rates::new(vec![
        rate(15.0, valid_from_1, valid_to_1),
        rate(20.0, valid_from_2, valid_to_2),
    ]);
    let time = at(2024, 1, 15, 10, 15);
    let next = rates.next_rate(time).unwrap();
    assert_eq!(next.value_inc_vat, micros(20.0));
}

#[test]
fn test_rate_at_returns_none_for_gap() {
    let rates = Rates::new(vec![make_rate(10, 15.0)]);
    let time = at(2024, 1, 15, 10, 45);
    assert!(rates.rate_at(time).is_none());
}

#[test]
fn test_rate_equality() {
    let rate1 = rate(15.5, at(2025, 10, 4, 0, 0), at(2025, 10, 4, 0, 30));
    let rate2 = rate(15.5, at(2025, 10, 4, 0, 0), at(2025, 10, 4, 0, 30));
    assert_eq!(rate1, rate2);
}

#[test]
fn test_rates_new() {
    let rates_vec = create_test_rates();
    let rates = Rates::new(rates_vec.clone());
    assert_eq!(rates.filter_for_today(Utc::now().timestamp()).len(), 0);
}

#[test]
fn test_rates_current_price_found() {
    let rates = Rates::new(create_current_time_rates());
    let result = rates.current_price(Utc::now().timestamp());
    assert!(result.is_ok());
    assert_eq!(result.unwrap(), micros(25.5));
}

#[test]
fn test_rates_current_price_not_found() {
    let past_time = (Utc::now() - Duration::hours(2)).timestamp();
    let older_time = past_time - 3600;
    let rates = Rates::new(vec![rate(15.5, older_time, past_time)]);
    let result = rates.current_price(Utc::now().timestamp());
    assert!(result.is_err());
    match result {
        Err(AppError::DataError(msg)) => {
            assert!(msg.contains("No current rate found"));
        }
        _ => panic!("Expected DataError"),
    }
}

#[test]
fn test_rates_stats_calculation() {
    let rates = Rates::new(create_test_rates());
    let result = rates.stats_at(Utc::now().timestamp());
    assert!(result.is_ok());
    let stats = result.unwrap();
    assert_eq!(stats.min, micros(15.5));
    assert_eq!(stats.max, micros(20.3));
    let avg = stats.avg as f64 / 1_000_000.0;
    assert!((avg - 18.166666666666668).abs() < 0.0001);
    assert_eq!(stats.price_range, "15.50p - 20.30p");
    assert_eq!(stats.current, 0);
}

#[test]
fn test_rates_stats_empty_data() {
    let rates = Rates::new(vec![]);
    let result = rates.stats_at(Utc::now().timestamp());
    assert!(result.is_err());
    match result {
        Err(AppError::DataError(msg)) => {
            assert!(msg.contains("No data available"));
        }
        _ => panic!("Expected DataError"),
    }
}

#[test]
fn test_rates_filter_for_today() {
    let yesterday_noon = today_at(12, 0) - 86_400;
    let rates = Rates::new(vec![
        rate(15.5, yesterday_noon, yesterday_noon + 1800),
        rate(20.3, today_at(12, 0), today_at(12, 30)),
    ]);
    let today_rates = rates.filter_for_today(Utc::now().timestamp());
    assert_eq!(today_rates.len(), 1);
    assert_eq!(today_rates[0].value_inc_vat, micros(20.3));
}

#[test]
fn test_rates_series_data_format() {
    let rates = Rates::new(vec![
        rate(15.5, today_at(0, 0), today_at(0, 30)),
        rate(20.3, today_at(0, 30), today_at(1, 0)),
    ]);
    let result = rates.series_data(Utc::now().timestamp());
    assert!(result.is_ok());
    let (x_data, y_data) = result.unwrap();
    assert_eq!(x_data.len(), y_data.len());
    assert_eq!(x_data.len(), 2);
    assert_eq!(y_data[0], micros(15.5));
    assert_eq!(y_data[1], micros(20.3));
    assert!(x_data[0].contains("00:00"));
}

#[test]
fn test_rates_series_data_sorting() {
    let rates = Rates::new(vec![
        rate(20.3, today_at(1, 0), today_at(1, 30)),
        rate(15.5, today_at(0, 0), today_at(0, 30)),
    ]);
    let result = rates.series_data(Utc::now().timestamp());
    assert!(result.is_ok());
    let (x_data, y_data) = result.unwrap();
    assert_eq!(y_data[0], micros(15.5));
    assert_eq!(y_data[1], micros(20.3));
    assert!(x_data[0].contains("00:00"));
    assert!(x_data[1].contains("01:00"));
}

#[test]
fn new_sorts_by_start() {
    let rates = Rates::new(vec![make_rate(12, 25.0), make_rate(10, 15.0), make_rate(11, 20.0)]);
    let starts: Vec<i64> = rates.rates().iter().map(|r| r.valid_from).collect();
    assert_eq!(starts, vec![at(2024, 1, 15, 10, 0), at(2024, 1, 15, 11, 0), at(2024, 1, 15, 12, 0)]);
    assert_eq!(rates.len(), 3);
    assert!(!rates.is_empty());
}

#[test]
fn rate_at_boundaries_are_half_open() {
    let rates = Rates::new(vec![make_rate(10, 15.0)]);
    assert_eq!(rates.rate_at(at(2024, 1, 15, 10, 0)).unwrap().value_inc_vat, micros(15.0));
    assert!(rates.rate_at(at(2024, 1, 15, 10, 30)).is_none());
    assert!(rates.rate_at(at(2024, 1, 15, 9, 59)).is_none());
    assert!(Rates::new(vec![]).rate_at(0).is_none());
}

#[test]
fn rate_at_gives_covering_interval_over_contiguous_day() {
    let rates: Vec<Rate> = (0..48)
        .map(|k| rate(k as f64, 1_000_000_000 + k * 1800, 1_000_000_000 + (k + 1) * 1800))
        .collect();
    let index = Rates::new(rates);
    for k in 0..48i64 {
        for offset in [0i64, 1, 900, 1799] {
            let r = index.rate_at(1_000_000_000 + k * 1800 + offset).unwrap();
            assert_eq!(r.value_inc_vat, micros(k as f64));
        }
    }
    assert!(index.rate_at(1_000_000_000 + 48 * 1800).is_none());
}

#[test]
fn next_rate_is_none_after_gap_or_outside() {
    let rates = Rates::new(vec![make_rate(10, 15.0), make_rate(11, 20.0)]);
    assert!(rates.next_rate(at(2024, 1, 15, 10, 15)).is_none());
    assert!(rates.next_rate(at(2024, 1, 15, 10, 45)).is_none());
    assert!(rates.next_rate(at(2024, 1, 15, 11, 15)).is_none());
}

#[test]
fn stats_example_outside_range() {
    let rates = Rates::new(create_test_rates());
    for t in [0i64, at(2025, 10, 4, 2, 0), at(2030, 1, 1, 0, 0)] {
        let stats = rates.stats_at(t).unwrap();
        assert_eq!(stats.min, 15_500_000);
        assert_eq!(stats.max, 20_300_000);
        assert_eq!(stats.avg, 18_166_666);
        assert_eq!(stats.current, 0);
        assert_eq!(stats.next, 0);
        assert_eq!(stats.price_range, "15.50p - 20.30p");
    }
}

#[test]
fn stats_at_inside_range_has_current_and_next() {
    let rates = Rates::new(create_test_rates());
    let stats = rates.stats_at(at(2025, 10, 4, 0, 10)).unwrap();
    assert_eq!(stats.current, micros(15.5));
    assert_eq!(stats.next, micros(20.3));
    let last = rates.stats_at(at(2025, 10, 4, 1, 10)).unwrap();
    assert_eq!(last.current, micros(18.7));
    assert_eq!(last.next, 0);
    assert!(last.min <= last.avg && last.avg <= last.max);
}

#[test]
fn stats_at_empty_is_data_error() {
    let rates = Rates::new(vec![]);
    match rates.stats_at(0) {
        Err(AppError::DataError(msg)) => assert_eq!(msg, "No data available"),
        _ => panic!("Expected DataError"),
    }
}

#[test]
fn negative_prices_round_and_sign() {
    let rates = Rates::new(vec![
        rate(-2.345, 0, 1800),
        rate(0.004, 1800, 3600),
    ]);
    let stats = rates.stats_at(0).unwrap();
    assert_eq!(stats.price_range, "-2.35p - 0.00p");
    assert_eq!(stats.avg, (micros(-2.345) + micros(0.004)).div_euclid(2));
}

#[test]
fn calendar_day_boundary_belongs_to_earlier_day() {
    let day = at(2025, 10, 4, 0, 0) / 86_400;
    let rates = Rates::new(vec![
        rate(10.0, at(2025, 10, 3, 23, 30), at(2025, 10, 4, 0, 0)),
        rate(11.0, at(2025, 10, 4, 0, 0), at(2025, 10, 4, 0, 30)),
        rate(12.0, at(2025, 10, 4, 23, 30), at(2025, 10, 5, 0, 0)),
        rate(13.0, at(2025, 10, 5, 0, 0), at(2025, 10, 5, 0, 30)),
    ]);
    let today = rates.filter_for_calendar_day(day);
    let prices: Vec<i64> = today.iter().map(|r| r.value_inc_vat).collect();
    assert_eq!(prices, vec![micros(11.0), micros(12.0)]);
    let yesterday = rates.filter_for_calendar_day(day - 1);
    assert_eq!(yesterday.len(), 1);
    assert_eq!(yesterday[0].value_inc_vat, micros(10.0));
}

#[test]
fn calendar_day_before_epoch() {
    let rates = Rates::new(vec![rate(10.0, -1800, 0), rate(11.0, 0, 1800)]);
    assert_eq!(rates.filter_for_calendar_day(-1).len(), 1);
    assert_eq!(rates.filter_for_calendar_day(0).len(), 1);
    assert_eq!(rates.filter_for_calendar_day(-1)[0].value_inc_vat, micros(10.0));
}

#[test]
fn filter_from_keeps_later_intervals_in_order() {
    let rates = Rates::new(vec![make_rate(12, 25.0), make_rate(10, 15.0), make_rate(11, 20.0)]);
    let later = rates.filter_from(at(2024, 1, 15, 11, 0));
    let prices: Vec<i64> = later.iter().map(|r| r.value_inc_vat).collect();
    assert_eq!(prices, vec![micros(20.0), micros(25.0)]);
    assert_eq!(rates.filter_from(at(2024, 1, 15, 11, 1)).len(), 1);
}

#[test]
fn equal_starts_keep_their_order() {
    let rates = Rates::new(vec![make_rate(11, 3.0), make_rate(10, 1.0), make_rate(11, 2.0), make_rate(10, 4.0)]);
    let prices: Vec<i64> = rates.rates().iter().map(|r| r.value_inc_vat).collect();
    assert_eq!(prices, vec![micros(1.0), micros(4.0), micros(3.0), micros(2.0)]);
    assert_eq!(rates.rate_at(at(2024, 1, 15, 11, 0)).unwrap().value_inc_vat, micros(2.0));
}

#[test]
fn current_and_next_at_a_given_instant() {
    let rates = Rates::new(vec![make_rate(10, 15.0), rate(20.0, at(2024, 1, 15, 10, 30), at(2024, 1, 15, 11, 0))]);
    let t = at(2024, 1, 15, 10, 5);
    assert_eq!(rates.current_rate(t).unwrap().value_inc_vat, micros(15.0));
    assert_eq!(rates.current_price(t), Ok(micros(15.0)));
    assert_eq!(rates.next_price(t), Ok(micros(20.0)));
    match rates.next_price(at(2024, 1, 15, 10, 40)) {
        Err(AppError::DataError(msg)) => assert_eq!(msg, "No next rate found"),
        _ => panic!("Expected DataError"),
    }
}
