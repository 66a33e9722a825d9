//! Decision engine of a wallpaper manager: it classifies the moment of the
//! day and the weather, maps both onto a wallpaper directory and decides on
//! each tick whether a new wallpaper has to be applied.

mod config;
mod daytime;
mod fetch_weather;
mod modes;
mod settings;
mod utils;
mod weathertype;

pub use config::{
    daytimes_from_words, feh_flag, fetch_daytimes, fetch_folder_names, fetch_modes, fetch_timer,
    fetch_weather_groups, flag_enabled, weather_from_words,
};
pub use daytime::Daytime;
pub use fetch_weather::{Sys, Weather, WeatherResponse};
pub use modes::{has_mode, same_text, Mode, UnknownMode};
pub use settings::{
    group_contains, is_image_extension, resolve_group, FolderNames, Settings, WeatherGroup,
};
pub use utils::{classify_daytime, fetch_daytime};
pub use weathertype::{weathertype_from_token, UnknownWeatherType, WeatherType};
