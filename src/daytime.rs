use vstd::prelude::*;

verus! {

/// Phase of the day that selects a wallpaper folder.
#[derive(Debug, Clone, Copy, PartialEq, Eq, Hash, Structural)]
pub enum Daytime {
    Day,
    Night,
    Sunrise,
    Sunset,
}

/// Display text of a phase.
pub open spec fn daytime_text(d: Daytime) -> Seq<char> {
    match d {
        Daytime::Day => "day"@,
        Daytime::Night => "night"@,
        Daytime::Sunrise => "Sunrise"@,
        Daytime::Sunset => "Sunset"@,
    }
}

impl Daytime {
    /// Display text of the phase.
    pub fn to_string(&self) -> (r: String)
        ensures
            r@ == daytime_text(*self),
    {
        match self {
            Daytime::Day => "day".to_owned(),
            Daytime::Night => "night".to_owned(),
            Daytime::Sunrise => "Sunrise".to_owned(),
            Daytime::Sunset => "Sunset".to_owned(),
        }
    }
}

} // verus!
