use crate::daytime::Daytime;
use crate::fetch_weather::WeatherResponse;
use crate::modes::{has_mode, same_text, Mode};
use crate::utils::{classify_daytime, daytime_at};
use crate::weathertype::{weather_of_code, weather_text, WeatherType};
use vstd::prelude::*;

verus! {

/// Folder name of each phase of the day; every phase has one.
#[derive(Debug, Clone, PartialEq)]
pub struct FolderNames {
    pub day: String,
    pub night: String,
    pub sunrise: String,
    pub sunset: String,
}

impl FolderNames {
    /// Folder name of phase `d`.
    pub open spec fn name_of(&self, d: Daytime) -> Seq<char> {
        match d {
            Daytime::Day => self.day@,
            Daytime::Night => self.night@,
            Daytime::Sunrise => self.sunrise@,
            Daytime::Sunset => self.sunset@,
        }
    }

    /// Folder name of phase `d`.
    pub fn get(&self, d: Daytime) -> (r: &String)
        ensures
            r@ == self.name_of(d),
    {
        match d {
            Daytime::Day => &self.day,
            Daytime::Night => &self.night,
            Daytime::Sunrise => &self.sunrise,
            Daytime::Sunset => &self.sunset,
        }
    }
}

/// A named set of weather categories that share one wallpaper folder.
#[derive(Debug, Clone, PartialEq)]
pub struct WeatherGroup {
    pub name: String,
    pub members: Vec<WeatherType>,
}

/// Folder label of category `w`: the name of the first group in `groups`
/// that holds `w`, or the category's own text when none does.
pub open spec fn group_label(groups: Seq<WeatherGroup>, w: WeatherType) -> Seq<char>
    decreases groups.len(),
{
    if groups.len() == 0 {
        weather_text(w)
    } else if groups[0].members@.contains(w) {
        groups[0].name@
    } else {
        group_label(groups.drop_first(), w)
    }
}

/// Folder label of category `w`, with custom groups switched on or off.
pub open spec fn resolved_label(w: WeatherType, groups: Seq<WeatherGroup>, enabled: bool) -> Seq<
    char,
> {
    if enabled {
        group_label(groups, w)
    } else {
        weather_text(w)
    }
}

/// Whether weather folders are switched off during phase `d`.
pub open spec fn daytime_disabled(disabled: Option<Vec<Daytime>>, d: Daytime) -> bool {
    match disabled {
        Some(v) => v@.contains(d),
        None => false,
    }
}

/// Wallpaper directory built from the base path: the daytime folder when
/// daytime mode is on, then the weather label when weather mode is on and
/// not suppressed for the phase, with a `/` only between two segments.
/// While degraded only the base path is used.
pub open spec fn wallpaper_path(
    base: Seq<char>,
    daytime_on: bool,
    weather_on: bool,
    folder: Seq<char>,
    label: Seq<char>,
    suppressed: bool,
    degraded: bool,
) -> Seq<char> {
    if degraded {
        base
    } else {
        let with_day = if daytime_on {
            base + folder
        } else {
            base
        };
        if weather_on && !(daytime_on && suppressed) {
            if daytime_on {
                with_day + "/"@ + label
            } else {
                with_day + label
            }
        } else {
            with_day
        }
    }
}

/// Whether `members` holds `w`.
pub fn group_contains(members: &Vec<WeatherType>, w: WeatherType) -> (r: bool)
    ensures
        r == members@.contains(w),
{
    let mut i: usize = 0;
    while i < members.len()
        invariant
            i <= members@.len(),
            forall|j: int| 0 <= j < i ==> members@[j] != w,
        decreases members@.len() - i,
    {
        if members[i] == w {
            return true;
        }
        i = i + 1;
    }
    false
}

/// Whether `daytimes` holds `d`.
fn daytime_listed(daytimes: &Vec<Daytime>, d: Daytime) -> (r: bool)
    ensures
        r == daytimes@.contains(d),
{
    let mut i: usize = 0;
    while i < daytimes.len()
        invariant
            i <= daytimes@.len(),
            forall|j: int| 0 <= j < i ==> daytimes@[j] != d,
        decreases daytimes@.len() - i,
    {
        if daytimes[i] == d {
            return true;
        }
        i = i + 1;
    }
    false
}

/// Folder label of category `w` under `groups`; the first group that holds
/// `w` wins.
pub fn resolve_group(w: WeatherType, groups: &Vec<WeatherGroup>, enabled: bool) -> (r: String)
    ensures
        r@ == resolved_label(w, groups@, enabled),
{
    if !enabled {
        return w.to_string();
    }
    let mut i: usize = 0;
    assert(groups@.subrange(0, groups@.len() as int) =~= groups@);
    while i < groups.len()
        invariant
            enabled,
            i <= groups@.len(),
            group_label(groups@, w) == group_label(groups@.subrange(i as int, groups@.len() as int), w),
        decreases groups@.len() - i,
    {
        proof {
            let rest = groups@.subrange(i as int, groups@.len() as int);
            assert(rest[0] == groups@[i as int]);
            assert(rest.drop_first() =~= groups@.subrange(i + 1, groups@.len() as int));
        }
        if group_contains(&groups[i].members, w) {
            return groups[i].name.clone();
        }
        i = i + 1;
    }
    assert(groups@.subrange(i as int, groups@.len() as int).len() == 0);
    w.to_string()
}

/// File extensions of the images that can become wallpapers.
pub open spec fn image_extension(ext: Seq<char>) -> bool {
    ext == "jpg"@ || ext == "jpeg"@ || ext == "png"@ || ext == "gif"@ || ext == "bmp"@ || ext
        == "webp"@
}

/// Whether a file with extension `ext` is an image that can become a
/// wallpaper.
pub fn is_image_extension(ext: &str) -> (r: bool)
    ensures
        r == image_extension(ext@),
{
    same_text(ext, "jpg") || same_text(ext, "jpeg") || same_text(ext, "png") || same_text(
        ext,
        "gif",
    ) || same_text(ext, "bmp") || same_text(ext, "webp")
}

/// Configuration and evaluation state of the manager. The poll loop owns it
/// and changes it only through the methods below.
#[derive(Debug)]
pub struct Settings {
    pub current_loop: bool,
    pub key: String,
    pub city: String,
    pub country: String,
    pub path: String,
    pub modes: Vec<Mode>,
    pub daytime: Daytime,
    pub golden_hour: bool,
    pub disabled_daytimes: Option<Vec<Daytime>>,
    pub folder_names: FolderNames,
    pub custom_weather_groups: bool,
    pub weather_groups: Vec<WeatherGroup>,
    pub sunset_timer: i32,
    pub interval: i32,
    pub weather: WeatherType,
    pub feh_mode: String,
    pub timer: i32,
    pub recovery_mode: bool,
}

impl Settings {
    /// Folder label of the current weather.
    pub open spec fn label_spec(&self) -> Seq<char> {
        resolved_label(self.weather, self.weather_groups@, self.custom_weather_groups)
    }

    /// Wallpaper directory for the current state.
    pub open spec fn path_spec(&self) -> Seq<char> {
        wallpaper_path(
            self.path@,
            self.modes@.contains(Mode::DaytimeMode),
            self.modes@.contains(Mode::WeatherMode),
            self.folder_names.name_of(self.daytime),
            self.label_spec(),
            daytime_disabled(self.disabled_daytimes, self.daytime),
            self.recovery_mode,
        )
    }

    /// The state at start-up: a wallpaper is due, nothing is degraded, the
    /// phase is `Day`, the weather `Clear` and the cycle counter zero.
    pub fn new(
        key: String,
        city: String,
        country: String,
        path: String,
        modes: Vec<Mode>,
        golden_hour: bool,
        disabled_daytimes: Option<Vec<Daytime>>,
        folder_names: FolderNames,
        custom_weather_groups: bool,
        weather_groups: Vec<WeatherGroup>,
        sunset_timer: i32,
        interval: i32,
        feh_mode: String,
    ) -> (r: Settings)
        ensures
            r == (Settings {
                current_loop: true,
                key,
                city,
                country,
                path,
                modes,
                daytime: Daytime::Day,
                golden_hour,
                disabled_daytimes,
                folder_names,
                custom_weather_groups,
                weather_groups,
                sunset_timer,
                interval,
                weather: WeatherType::Clear,
                feh_mode,
                timer: 0,
                recovery_mode: false,
            }),
    {
        Settings {
            current_loop: true,
            key,
            city,
            country,
            path,
            modes,
            daytime: Daytime::Day,
            golden_hour,
            disabled_daytimes,
            folder_names,
            custom_weather_groups,
            weather_groups,
            sunset_timer,
            interval,
            weather: WeatherType::Clear,
            feh_mode,
            timer: 0,
            recovery_mode: false,
        }
    }

    /// Arguments of the wallpaper setter for the image files `images` of the
    /// wallpaper directory: the display-mode option, the option that picks
    /// one at random, then the files. `None` when there is no image, so that
    /// nothing is run.
    pub fn feh_arguments(&self, images: &Vec<String>) -> (r: Option<Vec<String>>)
        ensures
            r is None <==> images@.len() == 0,
            r matches Some(args) ==> args.deep_view() == seq![self.feh_mode@, "--randomize"@]
                + images.deep_view(),
    {
        if images.len() == 0 {
            return None;
        }
        let mut args: Vec<String> = Vec::new();
        args.push(self.feh_mode.clone());
        args.push("--randomize".to_owned());
        let mut i: usize = 0;
        while i < images.len()
            invariant
                i <= images@.len(),
                args.deep_view() == seq![self.feh_mode@, "--randomize"@] + images.deep_view().take(
                    i as int,
                ),
            decreases images@.len() - i,
        {
            let ghost before = args.deep_view();
            let image = images[i].clone();
            args.push(image);
            proof {
                assert(args.deep_view() =~= before.push(images@[i as int]@));
                assert(images.deep_view()[i as int] == images@[i as int]@);
                assert(args.deep_view() =~= seq![self.feh_mode@, "--randomize"@]
                    + images.deep_view().take(i + 1));
            }
            i = i + 1;
        }
        assert(images.deep_view().take(images@.len() as int) =~= images.deep_view());
        Some(args)
    }

    /// Whether the current phase switches weather folders off.
    pub fn is_current_daytime_disabled_for_weather_mode(&self) -> (r: bool)
        ensures
            r == daytime_disabled(self.disabled_daytimes, self.daytime),
    {
        match &self.disabled_daytimes {
            Some(daytimes) => daytime_listed(daytimes, self.daytime),
            None => false,
        }
    }

    /// Wallpaper directory for the current state.
    pub fn fetch_path(&self) -> (r: String)
        ensures
            r@ == self.path_spec(),
    {
        if self.recovery_mode {
            return self.path.clone();
        }
        let is_weather_mode_on = has_mode(self.modes.as_slice(), Mode::WeatherMode);
        let is_daytime_mode_on = has_mode(self.modes.as_slice(), Mode::DaytimeMode);
        let is_daytime_disabled_for_weather = self.is_current_daytime_disabled_for_weather_mode();
        let mut final_path = self.path.clone();
        if is_daytime_mode_on {
            let folder = self.fetch_folder_name();
            final_path.append(folder.as_str());
        }
        if is_weather_mode_on && !(is_daytime_mode_on && is_daytime_disabled_for_weather) {
            if is_daytime_mode_on {
                final_path.append("/");
            }
            let label = self.check_group();
            final_path.append(label.as_str());
        }
        final_path
    }

    /// Folder name of the current phase.
    pub fn fetch_folder_name(&self) -> (r: String)
        ensures
            r@ == self.folder_names.name_of(self.daytime),
    {
        self.folder_names.get(self.daytime).clone()
    }

    /// Folder label of the current weather.
    pub fn check_group(&self) -> (r: String)
        ensures
            r@ == self.label_spec(),
    {
        resolve_group(self.weather, &self.weather_groups, self.custom_weather_groups)
    }

    /// Whether daytime or weather mode is on, so that a tick needs weather
    /// data.
    pub open spec fn needs_weather_spec(&self) -> bool {
        self.modes@.contains(Mode::DaytimeMode) || self.modes@.contains(Mode::WeatherMode)
    }

    /// State after one step of the cycle timer: the counter goes up by one,
    /// and once it reaches the interval it starts again from zero and a new
    /// wallpaper is due.
    pub open spec fn cycle_step(self) -> Settings {
        if self.timer + 1 >= self.interval {
            Settings { timer: 0, current_loop: true, ..self }
        } else {
            Settings { timer: (self.timer + 1) as i32, ..self }
        }
    }

    /// State after the phase of the day was found to be `d`.
    pub open spec fn daytime_step(self, d: Daytime) -> Settings {
        if d != self.daytime {
            Settings { daytime: d, current_loop: true, ..self }
        } else {
            self
        }
    }

    /// State after the weather was found to be `w`: a new wallpaper is due
    /// when the folder label changes.
    pub open spec fn weather_step(self, w: WeatherType) -> Settings {
        let next = Settings { weather: w, ..self };
        if next.label_spec() != self.label_spec() {
            Settings { current_loop: true, ..next }
        } else {
            next
        }
    }

    /// State after a weather answer arrived at instant `now`: leaving the
    /// degraded state makes a new wallpaper due, then the phase and the
    /// weather are classified for the modes that are on.
    pub open spec fn response_step(self, response: WeatherResponse, now: int) -> Settings {
        let s1 = if self.recovery_mode {
            Settings { recovery_mode: false, current_loop: true, ..self }
        } else {
            self
        };
        let s2 = if s1.modes@.contains(Mode::DaytimeMode) {
            s1.daytime_step(
                daytime_at(
                    now,
                    response.sys.sunrise as int,
                    response.sys.sunset as int,
                    s1.golden_hour,
                    s1.sunset_timer as int,
                ),
            )
        } else {
            s1
        };
        if s2.modes@.contains(Mode::WeatherMode) {
            s2.weather_step(weather_of_code(response.weather@[0].id as int))
        } else {
            s2
        }
    }

    /// State of a tick before the wallpaper decision: the cycle step when
    /// cycle mode is on, then, when weather data is needed, the degraded
    /// state on a failed fetch (`None`) or the answer's step.
    pub open spec fn tick_spec(self, fetched: Option<WeatherResponse>, now: int) -> Settings {
        let s0 = if self.modes@.contains(Mode::CycleMode) {
            self.cycle_step()
        } else {
            self
        };
        if s0.needs_weather_spec() {
            match fetched {
                None => Settings { recovery_mode: true, ..s0 },
                Some(response) => s0.response_step(response, now),
            }
        } else {
            s0
        }
    }

    /// Whether a tick needs weather data.
    pub fn needs_weather(&self) -> (r: bool)
        ensures
            r == self.needs_weather_spec(),
    {
        has_mode(self.modes.as_slice(), Mode::DaytimeMode) || has_mode(
            self.modes.as_slice(),
            Mode::WeatherMode,
        )
    }

    /// Advances the cycle timer by one tick.
    pub fn check_cycle_mode(&mut self)
        ensures
            *final(self) == old(self).cycle_step(),
    {
        let next: i64 = self.timer as i64 + 1;
        if next >= self.interval as i64 {
            self.timer = 0;
            self.current_loop = true;
        } else {
            self.timer = next as i32;
        }
    }

    /// Classifies the weather of `response`.
    pub fn check_weather_mode(&mut self, response: &WeatherResponse)
        requires
            response.weather@.len() > 0,
        ensures
            *final(self) == old(self).weather_step(
                weather_of_code(response.weather@[0].id as int),
            ),
    {
        let weather = WeatherType::condition(response.weather[0].id);
        let old_label = self.check_group();
        self.weather = weather;
        let new_label = self.check_group();
        if !(old_label == new_label) {
            self.current_loop = true;
        }
    }

    /// Classifies the phase of the day at `current_time` from the sunrise
    /// and sunset of `response`.
    pub fn check_daytime_mode(&mut self, response: &WeatherResponse, current_time: i64)
        ensures
            *final(self) == old(self).daytime_step(
                daytime_at(
                    current_time as int,
                    response.sys.sunrise as int,
                    response.sys.sunset as int,
                    old(self).golden_hour,
                    old(self).sunset_timer as int,
                ),
            ),
    {
        let daytime = classify_daytime(
            current_time,
            response.sys.sunrise as i64,
            response.sys.sunset as i64,
            self.golden_hour,
            self.sunset_timer as i64,
        );
        if self.daytime != daytime {
            self.daytime = daytime;
            self.current_loop = true;
        }
    }

    /// One tick of the poll loop. `fetched` is the outcome of the weather
    /// fetch, `None` when it failed; it is read only when daytime or weather
    /// mode is on. Returns the wallpaper directory to apply when a new
    /// wallpaper is due; the pending flag is cleared either way.
    pub fn tick(&mut self, fetched: Option<WeatherResponse>, current_time: i64) -> (r: Option<
        String,
    >)
        requires
            fetched matches Some(response) ==> response.weather@.len() > 0,
        ensures
            *final(self) == (Settings {
                current_loop: false,
                ..old(self).tick_spec(fetched, current_time as int)
            }),
            r is Some <==> old(self).tick_spec(fetched, current_time as int).current_loop,
            r matches Some(p) ==> p@ == old(self).tick_spec(fetched, current_time as int).path_spec(),
    {
        if has_mode(self.modes.as_slice(), Mode::CycleMode) {
            self.check_cycle_mode();
        }
        if self.needs_weather() {
            match fetched {
                None => {
                    self.recovery_mode = true;
                },
                Some(response) => {
                    if self.recovery_mode {
                        self.current_loop = true;
                        self.recovery_mode = false;
                    }
                    if has_mode(self.modes.as_slice(), Mode::DaytimeMode) {
                        self.check_daytime_mode(&response, current_time);
                    }
                    if has_mode(self.modes.as_slice(), Mode::WeatherMode) {
                        self.check_weather_mode(&response);
                    }
                },
            }
        }
        let r = if self.current_loop {
            Some(self.fetch_path())
        } else {
            None
        };
        self.current_loop = false;
        r
    }
}

/// The state after `k` steps of the cycle timer.
pub open spec fn cycle_steps(s: Settings, k: nat) -> Settings
    decreases k,
{
    if k == 0 {
        s
    } else {
        cycle_steps(s, (k - 1) as nat).cycle_step()
    }
}

/// A category that lies in no group keeps its own display text.
pub proof fn lemma_ungrouped_label(w: WeatherType, groups: Seq<WeatherGroup>, enabled: bool)
    requires
        forall|i: int| 0 <= i < groups.len() ==> !groups[i].members@.contains(w),
    ensures
        resolved_label(w, groups, enabled) == weather_text(w),
    decreases groups.len(),
{
    if groups.len() > 0 {
        let rest = groups.drop_first();
        assert forall|i: int| 0 <= i < rest.len() implies !rest[i].members@.contains(w) by {
            assert(rest[i] == groups[i + 1]);
        }
        lemma_ungrouped_label(w, rest, true);
        assert(!groups[0].members@.contains(w));
    }
}

/// The wallpaper directory depends on the base path, the modes, the phase,
/// the weather, the groups, the disabled phases, the folder names and the
/// degraded flag alone: two states that agree on these give the same path.
pub proof fn lemma_path_is_pure(a: Settings, b: Settings)
    requires
        a.path@ == b.path@,
        a.modes@ == b.modes@,
        a.daytime == b.daytime,
        a.weather == b.weather,
        a.weather_groups@ == b.weather_groups@,
        a.custom_weather_groups == b.custom_weather_groups,
        a.disabled_daytimes == b.disabled_daytimes,
        a.folder_names == b.folder_names,
        a.recovery_mode == b.recovery_mode,
    ensures
        a.path_spec() == b.path_spec(),
{
}

/// While degraded, the wallpaper directory is the base path, whatever the
/// modes.
pub proof fn lemma_degraded_path_is_base(s: Settings)
    requires
        s.recovery_mode,
    ensures
        s.path_spec() == s.path@,
{
}

/// Before the interval is reached, `k` steps of the cycle timer from zero
/// leave the counter at `k` and nothing else changed.
proof fn lemma_cycle_counts_up(s: Settings, k: nat)
    requires
        s.timer == 0,
        k < s.interval,
    ensures
        cycle_steps(s, k) == (Settings { timer: k as i32, ..s }),
    decreases k,
{
    if k > 0 {
        lemma_cycle_counts_up(s, (k - 1) as nat);
    }
}

/// From a zero counter with nothing pending, the cycle timer counts up to
/// the interval; on the step that reaches it the counter goes back to zero
/// and a new wallpaper is due, and the next step counts from one again.
pub proof fn lemma_cycle_period(s: Settings)
    requires
        s.timer == 0,
        !s.current_loop,
        s.interval > 0,
    ensures
        forall|k: nat|
            #![trigger cycle_steps(s, k)]
            k < s.interval ==> cycle_steps(s, k).timer == k && !cycle_steps(s, k).current_loop,
        cycle_steps(s, s.interval as nat) == (Settings { timer: 0, current_loop: true, ..s }),
        s.interval > 1 ==> cycle_steps(s, (s.interval + 1) as nat).timer == 1,
{
    assert forall|k: nat| #![trigger cycle_steps(s, k)]
        k < s.interval implies cycle_steps(s, k).timer == k && !cycle_steps(s, k).current_loop by {
        lemma_cycle_counts_up(s, k);
    }
    lemma_cycle_counts_up(s, (s.interval - 1) as nat);
    assert(cycle_steps(s, s.interval as nat) == cycle_steps(s, (s.interval - 1) as nat).cycle_step());
    assert(cycle_steps(s, (s.interval + 1) as nat) == cycle_steps(s, s.interval as nat).cycle_step());
}

} // verus!
