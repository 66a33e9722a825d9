use crate::daytime::Daytime;
use crate::modes::{has_mode, Mode};
use vstd::prelude::*;

verus! {

/// Phase of the day at instant `now` (seconds), given the day's sunrise and
/// sunset and, with golden hour on, the half-width in minutes of the windows
/// that follow sunrise and precede sunset.
///
/// Without golden hour both ends of the day are inclusive. With it the day is
/// `[sunrise, sunset)`; the sunrise window is tested before the sunset
/// window, so an instant that lies in both is `Sunrise`.
pub open spec fn daytime_at(
    now: int,
    sunrise: int,
    sunset: int,
    golden_hour: bool,
    half_width_minutes: int,
) -> Daytime {
    if !golden_hour {
        if sunrise <= now && now <= sunset {
            Daytime::Day
        } else {
            Daytime::Night
        }
    } else {
        let w = half_width_minutes * 60;
        if now < sunrise || now >= sunset {
            Daytime::Night
        } else if now < sunrise + w {
            Daytime::Sunrise
        } else if now >= sunset - w {
            Daytime::Sunset
        } else {
            Daytime::Day
        }
    }
}

/// Classifies `current_time` against the day's sunrise and sunset.
pub fn classify_daytime(
    current_time: i64,
    sunrise: i64,
    sunset: i64,
    golden_hour: bool,
    sunset_limit: i64,
) -> (r: Daytime)
    ensures
        r == daytime_at(
            current_time as int,
            sunrise as int,
            sunset as int,
            golden_hour,
            sunset_limit as int,
        ),
{
    if golden_hour {
        let sunset_secs: i128 = sunset_limit as i128 * 60;
        let now: i128 = current_time as i128;
        if sunrise as i128 <= now && now < sunset as i128 {
            if now < sunrise as i128 + sunset_secs {
                Daytime::Sunrise
            } else if now >= sunset as i128 - sunset_secs {
                Daytime::Sunset
            } else {
                Daytime::Day
            }
        } else {
            Daytime::Night
        }
    } else {
        if sunrise <= current_time && current_time <= sunset {
            Daytime::Day
        } else {
            Daytime::Night
        }
    }
}

/// Classifies `current_time`; golden hour is on when `modes` holds
/// `GoldenHourMode`.
pub fn fetch_daytime(
    current_time: i64,
    sunrise: i64,
    sunset: i64,
    modes: &[Mode],
    sunset_limit: i64,
) -> (r: Daytime)
    ensures
        r == daytime_at(
            current_time as int,
            sunrise as int,
            sunset as int,
            modes@.contains(Mode::GoldenHourMode),
            sunset_limit as int,
        ),
{
    let golden_hour = has_mode(modes, Mode::GoldenHourMode);
    classify_daytime(current_time, sunrise, sunset, golden_hour, sunset_limit)
}

/// Without golden hour, every instant strictly inside the day is `Day` and
/// every instant outside `[sunrise, sunset]` is `Night`; both ends are `Day`.
pub proof fn lemma_plain_day_and_night(now: int, sunrise: int, sunset: int, limit: int)
    ensures
        sunrise < now < sunset ==> daytime_at(now, sunrise, sunset, false, limit) == Daytime::Day,
        (now < sunrise || now > sunset) ==> daytime_at(now, sunrise, sunset, false, limit)
            == Daytime::Night,
        sunrise <= sunset ==> daytime_at(sunrise, sunrise, sunset, false, limit) == Daytime::Day,
        sunrise <= sunset ==> daytime_at(sunset, sunrise, sunset, false, limit) == Daytime::Day,
{
}

/// With golden hour, sunset itself is already `Night`, the first instant of
/// the day is `Sunrise` when the window is not empty, and `sunset - w` is
/// `Sunset` when it lies past the sunrise window.
pub proof fn lemma_golden_hour_edges(sunrise: int, sunset: int, limit: int)
    requires
        sunrise < sunset,
    ensures
        daytime_at(sunset, sunrise, sunset, true, limit) == Daytime::Night,
        limit > 0 ==> daytime_at(sunrise, sunrise, sunset, true, limit) == Daytime::Sunrise,
        limit > 0 && sunrise + limit * 60 <= sunset - limit * 60 ==> daytime_at(
            sunset - limit * 60,
            sunrise,
            sunset,
            true,
            limit,
        ) == Daytime::Sunset,
{
}

} // verus!
