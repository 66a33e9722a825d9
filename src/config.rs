use crate::daytime::Daytime;
use crate::modes::{mode_named, same_text, Mode};
use crate::settings::{FolderNames, WeatherGroup};
use crate::weathertype::{lower_of, to_lower, weather_for_token, WeatherType};
use vstd::prelude::*;

verus! {

/// Whether `s` is a non-empty run of ASCII digits.
pub open spec fn all_digits(s: Seq<char>) -> bool {
    s.len() > 0 && forall|i: int| 0 <= i < s.len() ==> '0' <= #[trigger] s[i] && s[i] <= '9'
}

/// Value of a run of ASCII digits, most significant first.
pub open spec fn digits_value(s: Seq<char>) -> int
    decreases s.len(),
{
    if s.len() == 0 {
        0
    } else {
        digits_value(s.drop_last()) * 10 + (s.last() as u32 - '0' as u32)
    }
}

/// Value of a decimal integer written with an optional sign, if `s` is one.
pub open spec fn decimal_value(s: Seq<char>) -> Option<int> {
    if all_digits(s) {
        Some(digits_value(s))
    } else if s.len() > 0 && s[0] == '+' && all_digits(s.drop_first()) {
        Some(digits_value(s.drop_first()))
    } else if s.len() > 0 && s[0] == '-' && all_digits(s.drop_first()) {
        Some(-digits_value(s.drop_first()))
    } else {
        None
    }
}

/// Relies on `str::parse::<i32>`: a decimal integer with an optional `+` or
/// `-` sign and no other characters, that fits in `i32`.
#[verifier::external_body]
fn parse_i32(s: &str) -> (r: Option<i32>)
    ensures
        r == (match decimal_value(s@) {
            Some(v) => if i32::MIN <= v <= i32::MAX {
                Some(v as i32)
            } else {
                None
            },
            None => None,
        }),
{
    s.parse::<i32>().ok()
}

/// Reads a timer setting in minutes and adds one minute; `None` when the
/// text is no `i32` or the sum leaves `i32`.
pub fn fetch_timer(interval: &str) -> (r: Option<i32>)
    ensures
        r == (match decimal_value(interval@) {
            Some(v) => if i32::MIN <= v && v + 1 <= i32::MAX {
                Some((v + 1) as i32)
            } else {
                None
            },
            None => None,
        }),
{
    match parse_i32(interval) {
        Some(v) => v.checked_add(1),
        None => None,
    }
}

/// What `str::split_whitespace` yields for `s`, each piece as a sequence of
/// characters.
pub uninterp spec fn words_of(s: Seq<char>) -> Seq<Seq<char>>;

/// Relies on `str::split_whitespace`: the pieces of `s` between runs of
/// whitespace, in order.
#[verifier::external_body]
fn split_words(s: &str) -> (r: Vec<String>)
    ensures
        r.deep_view() == words_of(s@),
{
    s.split_whitespace().map(String::from).collect()
}

/// Phase named by a word of the disabled-daytimes setting; any word but
/// `sunrise`, `day` and `sunset` stands for the night.
pub open spec fn daytime_of_word(t: Seq<char>) -> Daytime {
    if t == "sunrise"@ {
        Daytime::Sunrise
    } else if t == "day"@ {
        Daytime::Day
    } else if t == "sunset"@ {
        Daytime::Sunset
    } else {
        Daytime::Night
    }
}

/// Phases named by already lowercased words, one for each word.
pub fn daytimes_from_words(words: &Vec<String>) -> (r: Vec<Daytime>)
    ensures
        r@ == words.deep_view().map_values(|t: Seq<char>| daytime_of_word(t)),
{
    let mut r: Vec<Daytime> = Vec::new();
    let mut i: usize = 0;
    while i < words.len()
        invariant
            i <= words@.len(),
            r@ == words.deep_view().take(i as int).map_values(|t: Seq<char>| daytime_of_word(t)),
        decreases words@.len() - i,
    {
        let w = words[i].as_str();
        let d = if same_text(w, "sunrise") {
            Daytime::Sunrise
        } else if same_text(w, "day") {
            Daytime::Day
        } else if same_text(w, "sunset") {
            Daytime::Sunset
        } else {
            Daytime::Night
        };
        r.push(d);
        proof {
            assert(words.deep_view()[i as int] == words@[i as int]@);
            assert(words.deep_view().take(i + 1).map_values(|t: Seq<char>| daytime_of_word(t))
                =~= words.deep_view().take(i as int).map_values(|t: Seq<char>| daytime_of_word(t))
                .push(d));
        }
        i = i + 1;
    }
    assert(words.deep_view().take(words@.len() as int) =~= words.deep_view());
    r
}

/// Reads the disabled-daytimes setting: its words, in any letter case.
pub fn fetch_daytimes(value: &str) -> (r: Vec<Daytime>)
    ensures
        r@ == words_of(lower_of(value@)).map_values(|t: Seq<char>| daytime_of_word(t)),
{
    let lower = to_lower(value);
    let words = split_words(lower.as_str());
    daytimes_from_words(&words)
}

/// Modes switched on by the entries of the modes section, in order: an
/// entry counts when its key names a mode and its value is `true`.
pub open spec fn modes_of(entries: Seq<(String, String)>) -> Seq<Mode>
    decreases entries.len(),
{
    if entries.len() == 0 {
        seq![]
    } else {
        let prev = modes_of(entries.drop_last());
        let e = entries.last();
        match mode_named(e.0@) {
            Some(m) => if e.1@ == "true"@ {
                prev.push(m)
            } else {
                prev
            },
            None => prev,
        }
    }
}

/// Reads the modes that the entries of the modes section switch on.
pub fn fetch_modes(entries: &Vec<(String, String)>) -> (r: Vec<Mode>)
    ensures
        r@ == modes_of(entries@),
{
    let mut r: Vec<Mode> = Vec::new();
    let mut i: usize = 0;
    while i < entries.len()
        invariant
            i <= entries@.len(),
            r@ == modes_of(entries@.take(i as int)),
        decreases entries@.len() - i,
    {
        assert(entries@.take(i + 1).drop_last() =~= entries@.take(i as int));
        let (key, value) = (&entries[i].0, &entries[i].1);
        if same_text(value.as_str(), "true") {
            if let Ok(m) = Mode::from_string(key.as_str()) {
                r.push(m);
            }
        }
        i = i + 1;
    }
    assert(entries@.take(entries@.len() as int) =~= entries@);
    r
}

/// Categories named by configuration words, in order, each read in any
/// letter case; words that name no category are left out.
pub open spec fn weather_of_words(words: Seq<Seq<char>>) -> Seq<WeatherType>
    decreases words.len(),
{
    if words.len() == 0 {
        seq![]
    } else {
        let prev = weather_of_words(words.drop_last());
        match weather_for_token(lower_of(words.last())) {
            Some(w) => prev.push(w),
            None => prev,
        }
    }
}

/// Weather groups of the group section, in order: each entry names a group
/// and lists its categories; entries that list no category are left out.
pub open spec fn groups_of(entries: Seq<(String, String)>) -> Seq<(Seq<char>, Seq<WeatherType>)>
    decreases entries.len(),
{
    if entries.len() == 0 {
        seq![]
    } else {
        let prev = groups_of(entries.drop_last());
        let e = entries.last();
        let members = weather_of_words(words_of(e.1@));
        if members.len() > 0 {
            prev.push((e.0@, members))
        } else {
            prev
        }
    }
}

/// Name and members of a group, as plain values.
pub open spec fn group_view(g: WeatherGroup) -> (Seq<char>, Seq<WeatherType>) {
    (g.name@, g.members@)
}

/// Categories named by configuration words, each read in any letter case;
/// words that name no category are left out.
pub fn weather_from_words(words: &Vec<String>) -> (r: Vec<WeatherType>)
    ensures
        r@ == weather_of_words(words.deep_view()),
{
    let mut r: Vec<WeatherType> = Vec::new();
    let mut i: usize = 0;
    while i < words.len()
        invariant
            i <= words@.len(),
            r@ == weather_of_words(words.deep_view().take(i as int)),
        decreases words@.len() - i,
    {
        proof {
            assert(words.deep_view().take(i + 1).drop_last() =~= words.deep_view().take(i as int));
            assert(words.deep_view()[i as int] == words@[i as int]@);
        }
        if let Ok(w) = WeatherType::get_weathertype(words[i].as_str()) {
            r.push(w);
        }
        i = i + 1;
    }
    assert(words.deep_view().take(words@.len() as int) =~= words.deep_view());
    r
}

/// Reads the weather groups when custom groups are on; none otherwise.
pub fn fetch_weather_groups(custom_weather_groups: bool, entries: &Vec<(String, String)>) -> (r:
    Vec<WeatherGroup>)
    ensures
        r@.map_values(|g: WeatherGroup| group_view(g)) == if custom_weather_groups {
            groups_of(entries@)
        } else {
            seq![]
        },
{
    let mut r: Vec<WeatherGroup> = Vec::new();
    if !custom_weather_groups {
        assert(r@.map_values(|g: WeatherGroup| group_view(g)) =~= seq![]);
        return r;
    }
    let mut i: usize = 0;
    while i < entries.len()
        invariant
            i <= entries@.len(),
            r@.map_values(|g: WeatherGroup| group_view(g)) == groups_of(entries@.take(i as int)),
        decreases entries@.len() - i,
    {
        assert(entries@.take(i + 1).drop_last() =~= entries@.take(i as int));
        let words = split_words(entries[i].1.as_str());
        let members = weather_from_words(&words);
        if members.len() > 0 {
            let g = WeatherGroup { name: entries[i].0.clone(), members };
            let ghost before = r@;
            r.push(g);
            assert(r@.map_values(|g: WeatherGroup| group_view(g)) =~= before.map_values(
                |g: WeatherGroup| group_view(g),
            ).push(group_view(g)));
        }
        i = i + 1;
    }
    assert(entries@.take(entries@.len() as int) =~= entries@);
    r
}

/// Whether a switch setting is present and set to `true`.
pub fn flag_enabled(value: Option<&str>) -> (r: bool)
    ensures
        r == (value matches Some(v) && v@ == "true"@),
{
    match value {
        Some(v) => same_text(v, "true"),
        None => false,
    }
}

/// The wallpaper setter's option for display mode `mode` (`fill`, `tile`...).
pub fn feh_flag(mode: &str) -> (r: String)
    ensures
        r@ == "--bg-"@ + mode@,
{
    let mut r = "--bg-".to_owned();
    r.append(mode);
    r
}

/// `custom` when folder names are customised and one is set, else the
/// default.
pub open spec fn chosen_name(enabled: bool, custom: Option<&str>, default: Seq<char>) -> Seq<
    char,
> {
    match custom {
        Some(v) => if enabled {
            v@
        } else {
            default
        },
        None => default,
    }
}

fn choose_name(enabled: bool, custom: Option<&str>, default: &str) -> (r: String)
    ensures
        r@ == chosen_name(enabled, custom, default@),
{
    match custom {
        Some(v) => if enabled {
            v.to_owned()
        } else {
            default.to_owned()
        },
        None => default.to_owned(),
    }
}

/// Folder names of the phases: the defaults `day`, `night`, `sunrise` and
/// `sunset`, each replaced by the configured name when custom folder names
/// are on and one is set.
pub fn fetch_folder_names(
    custom_folder_names: bool,
    day: Option<&str>,
    night: Option<&str>,
    sunrise: Option<&str>,
    sunset: Option<&str>,
) -> (r: FolderNames)
    ensures
        r.day@ == chosen_name(custom_folder_names, day, "day"@),
        r.night@ == chosen_name(custom_folder_names, night, "night"@),
        r.sunrise@ == chosen_name(custom_folder_names, sunrise, "sunrise"@),
        r.sunset@ == chosen_name(custom_folder_names, sunset, "sunset"@),
{
    FolderNames {
        day: choose_name(custom_folder_names, day, "day"),
        night: choose_name(custom_folder_names, night, "night"),
        sunrise: choose_name(custom_folder_names, sunrise, "sunrise"),
        sunset: choose_name(custom_folder_names, sunset, "sunset"),
    }
}

} // verus!
