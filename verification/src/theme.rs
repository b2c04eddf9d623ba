//! The themes that the rendering engine knows by name.

use vstd::prelude::*;

verus! {

/// A theme of the rendering engine.
#[derive(Clone, Copy, Debug, PartialEq, Eq, Structural)]
pub enum Theme {
    Default,
    Dark,
    Vintage,
    Westeros,
    Essos,
    Wonderland,
    Walden,
    Chalk,
    Infographic,
    Macarons,
    Roma,
    Shine,
    PurplePassion,
    Halloween,
}

impl Theme {
    /// The name under which the engine knows the theme.
    pub open spec fn name(self) -> Seq<char> {
        match self {
            Theme::Default => "echarts"@,
            Theme::Dark => "dark"@,
            Theme::Vintage => "vintage"@,
            Theme::Westeros => "westeros"@,
            Theme::Essos => "essos"@,
            Theme::Wonderland => "wonderland"@,
            Theme::Walden => "walden"@,
            Theme::Chalk => "chalk"@,
            Theme::Infographic => "infographic"@,
            Theme::Macarons => "macarons"@,
            Theme::Roma => "roma"@,
            Theme::Shine => "shine"@,
            Theme::PurplePassion => "purple-passion"@,
            Theme::Halloween => "halloween"@,
        }
    }

    /// The name under which the engine knows the theme.
    pub fn to_str(&self) -> (name: &'static str)
        ensures
            name@ == self.name(),
    {
        match self {
            Theme::Default => "echarts",
            Theme::Dark => "dark",
            Theme::Vintage => "vintage",
            Theme::Westeros => "westeros",
            Theme::Essos => "essos",
            Theme::Wonderland => "wonderland",
            Theme::Walden => "walden",
            Theme::Chalk => "chalk",
            Theme::Infographic => "infographic",
            Theme::Macarons => "macarons",
            Theme::Roma => "roma",
            Theme::Shine => "shine",
            Theme::PurplePassion => "purple-passion",
            Theme::Halloween => "halloween",
        }
    }
}

} // verus!
