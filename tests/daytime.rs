use fehther::{classify_daytime, fetch_daytime, Daytime, Mode};

#[test]
fn test_fetch_daytime_mode_on() {
    // Sunrise and sunset times
    let sunrise: i64 = 1747021974;
    let sunset: i64 = 1747077771;
    let sunset_time: i64 = 30; // 30 minutes for sunset/sunrise period
    let modes: Vec<Mode> = vec![Mode::GoldenHourMode];

    // Within the sunrise period: sunrise + 15 minutes
    let current_time = sunrise + 15 * 60;
    let result = fetch_daytime(current_time, sunrise, sunset, &modes, sunset_time);
    assert_eq!(result, Daytime::Sunrise);

    // Within the day: 2 hours after sunrise
    let current_time = sunrise + 2 * 3600;
    let result = fetch_daytime(current_time, sunrise, sunset, &modes, sunset_time);
    assert_eq!(result, Daytime::Day);

    // Within the sunset period: 20 minutes before sunset
    let current_time = sunset - 20 * 60;
    let result = fetch_daytime(current_time, sunrise, sunset, &modes, sunset_time);
    assert_eq!(result, Daytime::Sunset);

    // At night: 2 hours after sunset
    let current_time = sunset + 2 * 3600;
    let result = fetch_daytime(current_time, sunrise, sunset, &modes, sunset_time);
    assert_eq!(result, Daytime::Night);
}

#[test]
fn test_fetch_daytime_mode_off() {
    let sunrise: i64 = 1747021974;
    let sunset: i64 = 1747077771;

    let modes: Vec<Mode> = vec![Mode::DaytimeMode];

    // Middle of the day
    let current_time = sunrise + (sunset - sunrise) / 2;
    let result = fetch_daytime(current_time, sunrise, sunset, &modes, 30);
    assert_eq!(result, Daytime::Day);

    // 2 hours after sunset
    let current_time = sunset + 2 * 3600;
    let result = fetch_daytime(current_time, sunrise, sunset, &modes, 30);
    assert_eq!(result, Daytime::Night);
}

#[test]
fn test_fetch_daytime_edge_cases() {
    let sunrise: i64 = 1747021974;
    let sunset: i64 = 1747077771;
    let sunset_time: i64 = 30;

    let modes_on: Vec<Mode> = vec![Mode::GoldenHourMode];
    let modes_off: Vec<Mode> = vec![Mode::DaytimeMode];

    // Exactly at sunrise
    let current_time = sunrise;
    let result_on_sunrise = fetch_daytime(current_time, sunrise, sunset, &modes_on, sunset_time);
    let result_off_sunrise = fetch_daytime(current_time, sunrise, sunset, &modes_off, sunset_time);
    assert_eq!(result_on_sunrise, Daytime::Sunrise);
    assert_eq!(result_off_sunrise, Daytime::Day);

    // The last second before sunset
    let current_time = sunset - 1;
    let result_on_sunset = fetch_daytime(current_time, sunrise, sunset, &modes_on, sunset_time);
    let result_off_sunset = fetch_daytime(current_time, sunrise, sunset, &modes_off, sunset_time);
    assert_eq!(result_on_sunset, Daytime::Sunset);
    assert_eq!(result_off_sunset, Daytime::Day);
}

#[test]
fn plain_day_includes_both_ends() {
    assert_eq!(classify_daytime(100, 100, 200, false, 10), Daytime::Day);
    assert_eq!(classify_daytime(200, 100, 200, false, 10), Daytime::Day);
    assert_eq!(classify_daytime(150, 100, 200, false, 10), Daytime::Day);
    assert_eq!(classify_daytime(99, 100, 200, false, 10), Daytime::Night);
    assert_eq!(classify_daytime(201, 100, 200, false, 10), Daytime::Night);
}

#[test]
fn golden_hour_boundaries() {
    let sunrise: i64 = 10_000;
    let sunset: i64 = 50_000;
    // half-width of 10 minutes: 600 seconds
    assert_eq!(classify_daytime(sunrise, sunrise, sunset, true, 10), Daytime::Sunrise);
    assert_eq!(classify_daytime(sunrise + 599, sunrise, sunset, true, 10), Daytime::Sunrise);
    assert_eq!(classify_daytime(sunrise + 600, sunrise, sunset, true, 10), Daytime::Day);
    assert_eq!(classify_daytime(sunset - 601, sunrise, sunset, true, 10), Daytime::Day);
    assert_eq!(classify_daytime(sunset - 600, sunrise, sunset, true, 10), Daytime::Sunset);
    assert_eq!(classify_daytime(sunset, sunrise, sunset, true, 10), Daytime::Night);
    assert_eq!(classify_daytime(sunrise - 1, sunrise, sunset, true, 10), Daytime::Night);
}

#[test]
fn golden_hour_overlap_goes_to_sunrise() {
    // windows of 100 minutes on a day of 1000 seconds overlap everywhere
    assert_eq!(classify_daytime(900, 0, 1000, true, 100), Daytime::Sunrise);
}

#[test]
fn golden_hour_extreme_values_do_not_overflow() {
    assert_eq!(
        classify_daytime(i64::MAX - 1, i64::MIN, i64::MAX, true, i64::MAX),
        Daytime::Sunrise
    );
    assert_eq!(classify_daytime(0, i64::MIN, i64::MAX, true, i64::MIN), Daytime::Day);
}

#[test]
fn daytime_display_text() {
    assert_eq!(Daytime::Day.to_string(), "day");
    assert_eq!(Daytime::Night.to_string(), "night");
    assert_eq!(Daytime::Sunrise.to_string(), "Sunrise");
    assert_eq!(Daytime::Sunset.to_string(), "Sunset");
}
