use agile_dashboard::carbon::select_current_and_next;
use agile_dashboard::carbon::CarbonIntensity;
use agile_dashboard::carbon::CarbonIntensityData;
use agile_dashboard::carbon::Intensity;
use agile_dashboard::carbon::IntensityIndex;
use agile_dashboard::error::AppError;

fn period(from: i64, forecast: u32, actual: Option<u32>, index: IntensityIndex) -> CarbonIntensityData {
    CarbonIntensityData { from, to: from + 1800, intensity: Intensity { forecast, actual, index } }
}

#[test]
fn index_texts() {
    assert_eq!(IntensityIndex::VeryLow.css_class(), "intensity-very-low");
    assert_eq!(IntensityIndex::VeryHigh.label(), "Very High");
    assert_eq!(IntensityIndex::Moderate.color(), "#f59e0b");
    assert_eq!(IntensityIndex::Low.label(), "Low");
    assert_eq!(IntensityIndex::High.css_class(), "intensity-high");
}

#[test]
fn best_intensity_prefers_actual() {
    assert_eq!(period(0, 91, Some(95), IntensityIndex::Moderate).best_intensity(), 95);
    assert_eq!(period(0, 93, None, IntensityIndex::Low).best_intensity(), 93);
    assert!(!period(0, 93, None, IntensityIndex::Low).has_actual());
}

#[test]
fn selects_latest_measured_and_next_period() {
    let data = vec![
        period(0, 91, Some(95), IntensityIndex::Moderate),
        period(1800, 91, Some(94), IntensityIndex::Moderate),
        period(3600, 93, None, IntensityIndex::Low),
        period(5400, 80, None, IntensityIndex::Low),
    ];
    let now = 4000;
    let ci: CarbonIntensity = select_current_and_next(&data, now).unwrap();
    assert_eq!(ci.latest_intensity(), 94);
    assert_eq!(ci.next_intensity(), 93);
    assert_eq!(ci.latest_period(), (1800, 3600));
    assert_eq!(ci.next_period(), (3600, 5400));
    assert_eq!(ci.intensity_change(), -1);
    assert_eq!(ci.latest_index(), IntensityIndex::Moderate);
    assert_eq!(ci.next_index(), IntensityIndex::Low);
    assert!(ci.has_actual());
}

#[test]
fn selection_errors() {
    let unmeasured = vec![period(0, 91, None, IntensityIndex::Moderate)];
    match select_current_and_next(&unmeasured, 4000) {
        Err(AppError::DataError(m)) => assert_eq!(m, "No period with actual data found in response"),
        _ => panic!("Expected DataError"),
    }
    let all_past = vec![period(0, 91, Some(90), IntensityIndex::Moderate)];
    match select_current_and_next(&all_past, 4000) {
        Err(AppError::DataError(m)) => assert_eq!(m, "No next period found in response"),
        _ => panic!("Expected DataError"),
    }
}
