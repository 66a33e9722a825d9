use fehther::{
    fetch_folder_names, is_image_extension, resolve_group, Daytime, Mode, Settings, Sys, Weather,
    WeatherGroup, WeatherResponse, WeatherType,
};

fn settings(path: &str, modes: Vec<Mode>) -> Settings {
    Settings::new(
        "fake-key".to_string(),
        "london".to_string(),
        "UK".to_string(),
        path.to_string(),
        modes,
        false,
        None,
        fetch_folder_names(false, None, None, None, None),
        false,
        vec![],
        30,
        60,
        "--bg-fill".to_string(),
    )
}

fn response(id: i32, sunrise: i32, sunset: i32) -> WeatherResponse {
    WeatherResponse {
        weather: vec![Weather { id, main: "Rain".to_string() }],
        sys: Sys { sunrise, sunset },
    }
}

fn rainy_groups() -> Vec<WeatherGroup> {
    vec![
        WeatherGroup {
            name: "rainy".to_string(),
            members: vec![WeatherType::Drizzle, WeatherType::Rain],
        },
        WeatherGroup {
            name: "wet".to_string(),
            members: vec![WeatherType::Rain, WeatherType::Snow],
        },
    ]
}

#[test]
fn path_daytime_and_weather() {
    let mut s = settings("/wp/", vec![Mode::DaytimeMode, Mode::WeatherMode]);
    s.daytime = Daytime::Day;
    s.weather = WeatherType::Rain;
    s.disabled_daytimes = Some(vec![]);
    assert_eq!(s.fetch_path(), "/wp/day/rain");
}

#[test]
fn path_weather_disabled_for_the_phase() {
    let mut s = settings("/wp/", vec![Mode::DaytimeMode, Mode::WeatherMode]);
    s.daytime = Daytime::Day;
    s.weather = WeatherType::Rain;
    s.disabled_daytimes = Some(vec![Daytime::Day]);
    assert_eq!(s.fetch_path(), "/wp/day");
    s.daytime = Daytime::Night;
    assert_eq!(s.fetch_path(), "/wp/night/rain");
}

#[test]
fn path_degraded_is_base() {
    let mut s = settings("/wp/", vec![Mode::DaytimeMode, Mode::WeatherMode, Mode::CycleMode]);
    s.weather = WeatherType::Rain;
    s.recovery_mode = true;
    assert_eq!(s.fetch_path(), "/wp/");
    let mut t = settings("/wp/", vec![]);
    t.recovery_mode = true;
    assert_eq!(t.fetch_path(), "/wp/");
}

#[test]
fn path_single_segments() {
    let mut s = settings("/wp/", vec![Mode::WeatherMode]);
    s.weather = WeatherType::FewClouds;
    assert_eq!(s.fetch_path(), "/wp/few clouds");
    let mut t = settings("/wp/", vec![Mode::DaytimeMode]);
    t.daytime = Daytime::Sunset;
    assert_eq!(t.fetch_path(), "/wp/sunset");
    let u = settings("/wp/", vec![Mode::CycleMode]);
    assert_eq!(u.fetch_path(), "/wp/");
}

#[test]
fn path_is_the_same_when_asked_twice() {
    let mut s = settings("/wp/", vec![Mode::DaytimeMode, Mode::WeatherMode]);
    s.weather = WeatherType::Snow;
    assert_eq!(s.fetch_path(), s.fetch_path());
}

#[test]
fn groups_first_match_wins() {
    let groups = rainy_groups();
    assert_eq!(resolve_group(WeatherType::Rain, &groups, true), "rainy");
    assert_eq!(resolve_group(WeatherType::Snow, &groups, true), "wet");
    assert_eq!(resolve_group(WeatherType::Rain, &groups, false), "rain");
}

#[test]
fn ungrouped_category_keeps_its_text() {
    let groups = rainy_groups();
    assert_eq!(resolve_group(WeatherType::Mist, &groups, true), "mist");
    assert_eq!(resolve_group(WeatherType::BrokenClouds, &vec![], true), "broken clouds");
}

#[test]
fn path_uses_group_label() {
    let mut s = settings("/wp/", vec![Mode::DaytimeMode, Mode::WeatherMode]);
    s.custom_weather_groups = true;
    s.weather_groups = rainy_groups();
    s.weather = WeatherType::Drizzle;
    s.folder_names = fetch_folder_names(true, Some("foo"), None, None, None);
    assert_eq!(s.check_group(), "rainy");
    assert_eq!(s.fetch_path(), "/wp/foo/rainy");
}

#[test]
fn cycle_resets_on_the_interval() {
    let mut s = settings("/wp/", vec![Mode::CycleMode]);
    s.current_loop = false;
    for k in 1..60 {
        s.check_cycle_mode();
        assert_eq!(s.timer, k);
        assert!(!s.current_loop);
    }
    s.check_cycle_mode();
    assert_eq!(s.timer, 0);
    assert!(s.current_loop);
    s.check_cycle_mode();
    assert_eq!(s.timer, 1);
}

#[test]
fn cycle_tick_applies_once_per_interval() {
    let mut s = settings("/wp/", vec![Mode::CycleMode]);
    // the first tick applies the start-up wallpaper
    assert_eq!(s.tick(None, 0), Some("/wp/".to_string()));
    for _ in 2..60 {
        assert_eq!(s.tick(None, 0), None);
    }
    assert_eq!(s.tick(None, 0), Some("/wp/".to_string()));
    assert_eq!(s.timer, 0);
    assert!(!s.current_loop);
    assert_eq!(s.tick(None, 0), None);
    assert_eq!(s.timer, 1);
}

#[test]
fn failed_fetch_degrades_and_recovery_reapplies() {
    let mut s = settings("/wp/", vec![Mode::DaytimeMode, Mode::WeatherMode]);
    s.current_loop = false;
    assert!(s.needs_weather());
    assert_eq!(s.tick(None, 500), None);
    assert!(s.recovery_mode);
    assert_eq!(s.fetch_path(), "/wp/");
    // the weather comes back unchanged: the path is applied again
    assert_eq!(s.tick(Some(response(800, 100, 1000)), 500), Some("/wp/day/clear".to_string()));
    assert!(!s.recovery_mode);
    assert_eq!(s.tick(Some(response(800, 100, 1000)), 600), None);
}

#[test]
fn weather_and_daytime_changes_apply() {
    let mut s = settings("/wp/", vec![Mode::DaytimeMode, Mode::WeatherMode]);
    assert_eq!(s.tick(Some(response(800, 100, 1000)), 500), Some("/wp/day/clear".to_string()));
    assert_eq!(s.tick(Some(response(501, 100, 1000)), 500), Some("/wp/day/rain".to_string()));
    assert_eq!(s.weather, WeatherType::Rain);
    assert_eq!(s.tick(Some(response(501, 100, 1000)), 2000), Some("/wp/night/rain".to_string()));
    assert_eq!(s.daytime, Daytime::Night);
    assert_eq!(s.tick(Some(response(501, 100, 1000)), 2000), None);
}

#[test]
fn same_group_label_does_not_apply() {
    let mut s = settings("/wp/", vec![Mode::WeatherMode]);
    s.custom_weather_groups = true;
    s.weather_groups = rainy_groups();
    s.weather = WeatherType::Drizzle;
    s.current_loop = false;
    assert_eq!(s.tick(Some(response(501, 100, 1000)), 500), None);
    assert_eq!(s.weather, WeatherType::Rain);
    assert_eq!(s.tick(Some(response(600, 100, 1000)), 500), Some("/wp/wet".to_string()));
}

#[test]
fn check_modes_update_state() {
    let mut s = settings("/wp/", vec![Mode::DaytimeMode]);
    s.current_loop = false;
    s.check_daytime_mode(&response(800, 100, 1000), 1001);
    assert_eq!(s.daytime, Daytime::Night);
    assert!(s.current_loop);
    s.current_loop = false;
    s.golden_hour = true;
    s.sunset_timer = 1;
    s.check_daytime_mode(&response(800, 100, 1000), 120);
    assert_eq!(s.daytime, Daytime::Sunrise);
    s.check_weather_mode(&response(211, 100, 1000));
    assert_eq!(s.weather, WeatherType::Thunder);
}

#[test]
fn feh_arguments_for_images() {
    let s = settings("/wp/", vec![]);
    assert_eq!(s.feh_arguments(&vec![]), None);
    let images = vec!["/wp/a.png".to_string(), "/wp/b.jpg".to_string()];
    assert_eq!(
        s.feh_arguments(&images),
        Some(vec![
            "--bg-fill".to_string(),
            "--randomize".to_string(),
            "/wp/a.png".to_string(),
            "/wp/b.jpg".to_string()
        ])
    );
    assert!(is_image_extension("png"));
    assert!(is_image_extension("jpeg"));
    assert!(!is_image_extension("txt"));
}
