use vstd::prelude::*;

verus! {

/// An independently switchable behaviour of the manager.
#[derive(Debug, Clone, Copy, PartialEq, Eq, Structural)]
pub enum Mode {
    CycleMode,
    DaytimeMode,
    WeatherMode,
    GoldenHourMode,
}

/// A mode name that is not one of the known modes.
#[derive(Debug, Clone, Copy, PartialEq, Eq, Structural)]
pub struct UnknownMode;

/// Configuration key of each mode.
pub open spec fn mode_name(m: Mode) -> Seq<char> {
    match m {
        Mode::CycleMode => "cycle-mode"@,
        Mode::DaytimeMode => "daytime-mode"@,
        Mode::WeatherMode => "weather-mode"@,
        Mode::GoldenHourMode => "golden-hour-mode"@,
    }
}

/// The mode whose configuration key is `s`, if any.
pub open spec fn mode_named(s: Seq<char>) -> Option<Mode> {
    if s == mode_name(Mode::CycleMode) {
        Some(Mode::CycleMode)
    } else if s == mode_name(Mode::DaytimeMode) {
        Some(Mode::DaytimeMode)
    } else if s == mode_name(Mode::WeatherMode) {
        Some(Mode::WeatherMode)
    } else if s == mode_name(Mode::GoldenHourMode) {
        Some(Mode::GoldenHourMode)
    } else {
        None
    }
}

/// Whether `a` and `b` hold the same characters.
pub fn same_text(a: &str, b: &str) -> (r: bool)
    ensures
        r == (a@ == b@),
{
    a.to_owned() == b.to_owned()
}

/// Whether `modes` holds `m`.
pub fn has_mode(modes: &[Mode], m: Mode) -> (r: bool)
    ensures
        r == modes@.contains(m),
{
    let mut i: usize = 0;
    while i < modes.len()
        invariant
            i <= modes@.len(),
            forall|j: int| 0 <= j < i ==> modes@[j] != m,
        decreases modes@.len() - i,
    {
        if modes[i] == m {
            return true;
        }
        i = i + 1;
    }
    false
}

impl Mode {
    /// Reads a mode from its configuration key.
    pub fn from_string(mode: &str) -> (r: Result<Mode, UnknownMode>)
        ensures
            r matches Ok(m) ==> mode_named(mode@) == Some(m),
            r is Err <==> mode_named(mode@) is None,
    {
        if same_text(mode, "cycle-mode") {
            Ok(Mode::CycleMode)
        } else if same_text(mode, "daytime-mode") {
            Ok(Mode::DaytimeMode)
        } else if same_text(mode, "weather-mode") {
            Ok(Mode::WeatherMode)
        } else if same_text(mode, "golden-hour-mode") {
            Ok(Mode::GoldenHourMode)
        } else {
            Err(UnknownMode)
        }
    }

    /// The configuration keys of all modes, in declaration order.
    pub fn to_string_vec() -> (r: Vec<String>)
        ensures
            r.deep_view() == seq![
                mode_name(Mode::CycleMode),
                mode_name(Mode::DaytimeMode),
                mode_name(Mode::WeatherMode),
                mode_name(Mode::GoldenHourMode),
            ],
    {
        let r = vec![
            "cycle-mode".to_owned(),
            "daytime-mode".to_owned(),
            "weather-mode".to_owned(),
            "golden-hour-mode".to_owned(),
        ];
        assert(r.deep_view() =~= seq![
            mode_name(Mode::CycleMode),
            mode_name(Mode::DaytimeMode),
            mode_name(Mode::WeatherMode),
            mode_name(Mode::GoldenHourMode),
        ]);
        r
    }
}

/// Each mode is read back from its own configuration key.
pub proof fn lemma_mode_name_round_trip(m: Mode)
    ensures
        mode_named(mode_name(m)) == Some(m),
{
    reveal_strlit("cycle-mode");
    reveal_strlit("daytime-mode");
    reveal_strlit("weather-mode");
    reveal_strlit("golden-hour-mode");
    assert(mode_name(Mode::CycleMode).len() == 10);
    assert(mode_name(Mode::DaytimeMode).len() == 12);
    assert(mode_name(Mode::WeatherMode).len() == 12);
    assert(mode_name(Mode::GoldenHourMode).len() == 16);
    assert(mode_name(Mode::DaytimeMode)[0] != mode_name(Mode::WeatherMode)[0]);
}

} // verus!
