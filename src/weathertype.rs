use crate::modes::same_text;
use vstd::prelude::*;

verus! {

/// Weather category that selects a wallpaper folder.
#[derive(Debug, Clone, Copy, PartialEq, Eq, Structural)]
pub enum WeatherType {
    Clear,
    FewClouds,
    ScatteredClouds,
    BrokenClouds,
    OvercastClouds,
    Drizzle,
    Mist,
    Rain,
    Snow,
    Thunder,
}

/// A configuration token that names no weather category.
#[derive(Debug, Clone, PartialEq)]
pub struct UnknownWeatherType {
    pub token: String,
}

/// What `str::to_lowercase` returns for `s`.
pub uninterp spec fn lower_of(s: Seq<char>) -> Seq<char>;

/// Relies on `str::to_lowercase`: the lowercase form of `s`, which depends on
/// the characters of `s` alone.
#[verifier::external_body]
pub(crate) fn to_lower(s: &str) -> (r: String)
    ensures
        r@ == lower_of(s@),
{
    s.to_lowercase()
}

/// Display text of a category, as used in wallpaper paths.
pub open spec fn weather_text(w: WeatherType) -> Seq<char> {
    match w {
        WeatherType::Clear => "clear"@,
        WeatherType::FewClouds => "few clouds"@,
        WeatherType::ScatteredClouds => "scattered clouds"@,
        WeatherType::BrokenClouds => "broken clouds"@,
        WeatherType::OvercastClouds => "overcast clouds"@,
        WeatherType::Drizzle => "drizzle"@,
        WeatherType::Mist => "mist"@,
        WeatherType::Rain => "rain"@,
        WeatherType::Snow => "snow"@,
        WeatherType::Thunder => "thunder"@,
    }
}

/// Configuration token of a category.
pub open spec fn weather_token(w: WeatherType) -> Seq<char> {
    match w {
        WeatherType::Clear => "clear"@,
        WeatherType::FewClouds => "few-clouds"@,
        WeatherType::ScatteredClouds => "scattered-clouds"@,
        WeatherType::BrokenClouds => "broken-clouds"@,
        WeatherType::OvercastClouds => "overcast-clouds"@,
        WeatherType::Drizzle => "drizzle"@,
        WeatherType::Mist => "mist"@,
        WeatherType::Rain => "rain"@,
        WeatherType::Snow => "snow"@,
        WeatherType::Thunder => "thunder"@,
    }
}

/// The category whose configuration token is `t`, if any.
pub open spec fn weather_for_token(t: Seq<char>) -> Option<WeatherType> {
    if t == weather_token(WeatherType::Clear) {
        Some(WeatherType::Clear)
    } else if t == weather_token(WeatherType::FewClouds) {
        Some(WeatherType::FewClouds)
    } else if t == weather_token(WeatherType::ScatteredClouds) {
        Some(WeatherType::ScatteredClouds)
    } else if t == weather_token(WeatherType::BrokenClouds) {
        Some(WeatherType::BrokenClouds)
    } else if t == weather_token(WeatherType::OvercastClouds) {
        Some(WeatherType::OvercastClouds)
    } else if t == weather_token(WeatherType::Drizzle) {
        Some(WeatherType::Drizzle)
    } else if t == weather_token(WeatherType::Mist) {
        Some(WeatherType::Mist)
    } else if t == weather_token(WeatherType::Rain) {
        Some(WeatherType::Rain)
    } else if t == weather_token(WeatherType::Snow) {
        Some(WeatherType::Snow)
    } else if t == weather_token(WeatherType::Thunder) {
        Some(WeatherType::Thunder)
    } else {
        None
    }
}

/// Whether condition code `id` lies in the half-open range of codes that
/// stands for `w`. `Clear` has no range of its own: it is the default.
pub open spec fn code_in_range(w: WeatherType, id: int) -> bool {
    match w {
        WeatherType::Thunder => 199 <= id < 233,
        WeatherType::Drizzle => 299 <= id < 321,
        WeatherType::Rain => 499 <= id < 532,
        WeatherType::Snow => 599 <= id < 623,
        WeatherType::Mist => 700 <= id < 781,
        WeatherType::FewClouds => id == 801,
        WeatherType::ScatteredClouds => id == 802,
        WeatherType::BrokenClouds => id == 803,
        WeatherType::OvercastClouds => id == 804,
        WeatherType::Clear => false,
    }
}

/// Category of a weather condition code.
pub open spec fn weather_of_code(id: int) -> WeatherType {
    if 199 <= id < 233 {
        WeatherType::Thunder
    } else if 299 <= id < 321 {
        WeatherType::Drizzle
    } else if 499 <= id < 532 {
        WeatherType::Rain
    } else if 599 <= id < 623 {
        WeatherType::Snow
    } else if 700 <= id < 781 {
        WeatherType::Mist
    } else if id == 801 {
        WeatherType::FewClouds
    } else if id == 802 {
        WeatherType::ScatteredClouds
    } else if id == 803 {
        WeatherType::BrokenClouds
    } else if id == 804 {
        WeatherType::OvercastClouds
    } else {
        WeatherType::Clear
    }
}

/// Reads a category from an already lowercased configuration token.
pub fn weathertype_from_token(token: &str) -> (r: Result<WeatherType, UnknownWeatherType>)
    ensures
        r matches Ok(w) ==> weather_for_token(token@) == Some(w),
        r matches Err(e) ==> weather_for_token(token@) is None && e.token@ == token@,
        r is Err <==> weather_for_token(token@) is None,
{
    if same_text(token, "clear") {
        Ok(WeatherType::Clear)
    } else if same_text(token, "few-clouds") {
        Ok(WeatherType::FewClouds)
    } else if same_text(token, "scattered-clouds") {
        Ok(WeatherType::ScatteredClouds)
    } else if same_text(token, "broken-clouds") {
        Ok(WeatherType::BrokenClouds)
    } else if same_text(token, "overcast-clouds") {
        Ok(WeatherType::OvercastClouds)
    } else if same_text(token, "drizzle") {
        Ok(WeatherType::Drizzle)
    } else if same_text(token, "mist") {
        Ok(WeatherType::Mist)
    } else if same_text(token, "rain") {
        Ok(WeatherType::Rain)
    } else if same_text(token, "snow") {
        Ok(WeatherType::Snow)
    } else if same_text(token, "thunder") {
        Ok(WeatherType::Thunder)
    } else {
        Err(UnknownWeatherType { token: token.to_owned() })
    }
}

impl WeatherType {
    /// Display text of the category.
    pub fn to_string(&self) -> (r: String)
        ensures
            r@ == weather_text(*self),
    {
        match self {
            WeatherType::Clear => "clear".to_owned(),
            WeatherType::FewClouds => "few clouds".to_owned(),
            WeatherType::ScatteredClouds => "scattered clouds".to_owned(),
            WeatherType::BrokenClouds => "broken clouds".to_owned(),
            WeatherType::OvercastClouds => "overcast clouds".to_owned(),
            WeatherType::Drizzle => "drizzle".to_owned(),
            WeatherType::Mist => "mist".to_owned(),
            WeatherType::Rain => "rain".to_owned(),
            WeatherType::Snow => "snow".to_owned(),
            WeatherType::Thunder => "thunder".to_owned(),
        }
    }

    /// Reads a category from a configuration token, in any letter case.
    pub fn get_weathertype(weathertype: &str) -> (r: Result<WeatherType, UnknownWeatherType>)
        ensures
            r matches Ok(w) ==> weather_for_token(lower_of(weathertype@)) == Some(w),
            r matches Err(e) ==> e.token@ == weathertype@,
            r is Err <==> weather_for_token(lower_of(weathertype@)) is None,
    {
        let lower = to_lower(weathertype);
        match weathertype_from_token(lower.as_str()) {
            Ok(w) => Ok(w),
            Err(_) => Err(UnknownWeatherType { token: weathertype.to_owned() }),
        }
    }

    /// Category of a weather condition code; codes outside every known
    /// range are `Clear`.
    pub fn condition(id: i32) -> (r: WeatherType)
        ensures
            r == weather_of_code(id as int),
    {
        if 199 <= id && id < 233 {
            WeatherType::Thunder
        } else if 299 <= id && id < 321 {
            WeatherType::Drizzle
        } else if 499 <= id && id < 532 {
            WeatherType::Rain
        } else if 599 <= id && id < 623 {
            WeatherType::Snow
        } else if 700 <= id && id < 781 {
            WeatherType::Mist
        } else if id == 801 {
            WeatherType::FewClouds
        } else if id == 802 {
            WeatherType::ScatteredClouds
        } else if id == 803 {
            WeatherType::BrokenClouds
        } else if id == 804 {
            WeatherType::OvercastClouds
        } else {
            WeatherType::Clear
        }
    }
}

/// The code ranges do not overlap, every code that lies in a range is given
/// that range's category, and every other code is `Clear`.
pub proof fn lemma_condition_total(id: int)
    ensures
        forall|a: WeatherType, b: WeatherType|
            code_in_range(a, id) && code_in_range(b, id) ==> a == b,
        forall|w: WeatherType| code_in_range(w, id) ==> weather_of_code(id) == w,
        (forall|w: WeatherType| !code_in_range(w, id)) ==> weather_of_code(id)
            == WeatherType::Clear,
{
    assert forall|w: WeatherType| code_in_range(w, id) implies weather_of_code(id) == w by {
        match w {
            WeatherType::Clear => {},
            _ => {},
        }
    }
    if forall|w: WeatherType| !code_in_range(w, id) {
        assert(!code_in_range(WeatherType::Thunder, id));
        assert(!code_in_range(WeatherType::Drizzle, id));
        assert(!code_in_range(WeatherType::Rain, id));
        assert(!code_in_range(WeatherType::Snow, id));
        assert(!code_in_range(WeatherType::Mist, id));
        assert(!code_in_range(WeatherType::FewClouds, id));
        assert(!code_in_range(WeatherType::ScatteredClouds, id));
        assert(!code_in_range(WeatherType::BrokenClouds, id));
        assert(!code_in_range(WeatherType::OvercastClouds, id));
    }
}

} // verus!
