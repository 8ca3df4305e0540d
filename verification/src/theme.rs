//! Built-in color themes, panel toggles and the resolved settings.
use vstd::prelude::*;
use crate::color::Rgb;
use vstd::utf8::is_ascii_chars;
use crate::text::{lowercase_of, to_lowercase, str_eq, ascii_lowercase, lemma_ascii_lowercase_idempotent};

verus! {

/// The colors of the interface.
#[derive(Clone, Copy, Debug, PartialEq, Eq)]
pub struct Theme {
    pub accent: Rgb,
    pub accent2: Rgb,
    pub text: Rgb,
    pub dim: Rgb,
    pub track: Rgb,
    pub logo_a: Rgb,
    pub logo_b: Rgb,
}

/// The default theme ("windows"), which also stands for every unknown name.
pub open spec fn base_theme() -> Theme {
    Theme {
        accent: (0, 174, 239),
        accent2: (120, 90, 255),
        text: (235, 238, 245),
        dim: (110, 110, 125),
        track: (30, 32, 40),
        logo_a: (0, 174, 239),
        logo_b: (120, 90, 255),
    }
}

/// The base theme with a new accent pair, which the logo gradient follows.
pub open spec fn accented(accent: Rgb, accent2: Rgb) -> Theme {
    Theme { accent, accent2, logo_a: accent, logo_b: accent2, ..base_theme() }
}

/// The theme that a lower-case name selects.
pub open spec fn theme_named(lower: Seq<char>) -> Theme {
    if lower == "matrix"@ {
        Theme {
            accent: (0, 255, 102),
            accent2: (0, 170, 51),
            text: (200, 255, 200),
            logo_a: (0, 255, 102),
            logo_b: (0, 170, 51),
            ..base_theme()
        }
    } else if lower == "dracula"@ {
        accented((189, 147, 249), (255, 121, 198))
    } else if lower == "nord"@ {
        accented((136, 192, 208), (94, 129, 172))
    } else if lower == "amber"@ {
        accented((255, 176, 0), (255, 112, 0))
    } else {
        base_theme()
    }
}

/// The theme for a name that is already in lower case.
pub fn preset_lowercase(lower: &str) -> (t: Theme)
    ensures
        t == theme_named(lower@),
{
    let base = Theme {
        accent: (0, 174, 239),
        accent2: (120, 90, 255),
        text: (235, 238, 245),
        dim: (110, 110, 125),
        track: (30, 32, 40),
        logo_a: (0, 174, 239),
        logo_b: (120, 90, 255),
    };
    if str_eq(lower, "matrix") {
        Theme {
            accent: (0, 255, 102),
            accent2: (0, 170, 51),
            text: (200, 255, 200),
            logo_a: (0, 255, 102),
            logo_b: (0, 170, 51),
            ..base
        }
    } else if str_eq(lower, "dracula") {
        Theme {
            accent: (189, 147, 249),
            accent2: (255, 121, 198),
            logo_a: (189, 147, 249),
            logo_b: (255, 121, 198),
            ..base
        }
    } else if str_eq(lower, "nord") {
        Theme {
            accent: (136, 192, 208),
            accent2: (94, 129, 172),
            logo_a: (136, 192, 208),
            logo_b: (94, 129, 172),
            ..base
        }
    } else if str_eq(lower, "amber") {
        Theme {
            accent: (255, 176, 0),
            accent2: (255, 112, 0),
            logo_a: (255, 176, 0),
            logo_b: (255, 112, 0),
            ..base
        }
    } else {
        base
    }
}

/// The theme a name selects, letter case ignored: windows, matrix, dracula, nord or
/// amber; any other name gives the windows theme.
pub fn preset(name: &str) -> (t: Theme)
    ensures
        t == theme_named(lowercase_of(name@)),
        is_ascii_chars(name@) ==> t == theme_named(ascii_lowercase(name@)),
{
    let lower = to_lowercase(name);
    preset_lowercase(lower.as_str())
}

/// Theme names are matched without regard to letter case: an ASCII name selects the same
/// theme as its lower-case form (which is ASCII too), and two ASCII names that differ only
/// in letter case select the same theme.
pub proof fn law_theme_name_case_blind(name: Seq<char>, other: Seq<char>)
    requires
        is_ascii_chars(name),
    ensures
        is_ascii_chars(ascii_lowercase(name)),
        theme_named(ascii_lowercase(ascii_lowercase(name))) == theme_named(ascii_lowercase(name)),
        ascii_lowercase(other) == ascii_lowercase(name) ==> theme_named(ascii_lowercase(other))
            == theme_named(ascii_lowercase(name)),
{
    lemma_ascii_lowercase_idempotent(name);
}

/// Every built-in theme's logo gradient runs from its accent to its secondary accent.
pub proof fn law_logo_follows_accents(lower: Seq<char>)
    ensures
        theme_named(lower).logo_a == theme_named(lower).accent,
        theme_named(lower).logo_b == theme_named(lower).accent2,
{
}

/// Which panels the dashboard shows.
#[derive(Clone, Copy, Debug, PartialEq, Eq, Structural)]
pub struct Sections {
    pub cpu: bool,
    pub ram: bool,
    pub disk: bool,
    pub net: bool,
    pub palette: bool,
}

/// Every panel shown.
pub open spec fn all_sections() -> Sections {
    Sections { cpu: true, ram: true, disk: true, net: true, palette: true }
}

impl Default for Sections {
    /// Every panel shown.
    fn default() -> (s: Self)
        ensures
            s == all_sections(),
    {
        Sections { cpu: true, ram: true, disk: true, net: true, palette: true }
    }
}

/// The resolved settings of a run.
#[derive(Clone, Copy, Debug, PartialEq, Eq)]
pub struct Settings {
    pub theme: Theme,
    pub sections: Sections,
    pub show_logo: bool,
    pub fancy: bool,
}

/// The settings when nothing is configured: the windows theme, every panel, the logo, and
/// fancy glyphs exactly inside Windows Terminal (`wt_session`: its session variable is set).
pub open spec fn default_settings_spec(wt_session: bool) -> Settings {
    Settings { theme: base_theme(), sections: all_sections(), show_logo: true, fancy: wt_session }
}

/// The settings when nothing is configured.
pub fn default_settings(wt_session: bool) -> (s: Settings)
    ensures
        s == default_settings_spec(wt_session),
{
    proof {
        reveal_strlit("windows");
        reveal_strlit("matrix");
        reveal_strlit("dracula");
        reveal_strlit("nord");
        reveal_strlit("amber");
        assert("windows"@.len() != "matrix"@.len());
        assert("windows"@[0] != "dracula"@[0]);
        assert("windows"@.len() != "nord"@.len());
        assert("windows"@.len() != "amber"@.len());
    }
    Settings {
        theme: preset_lowercase("windows"),
        sections: Sections::default(),
        show_logo: true,
        fancy: wt_session,
    }
}

/// What the settings slot yields: its content, or the defaults when it is still empty.
pub open spec fn st_spec(slot: Option<Settings>, wt_session: bool) -> Settings {
    match slot {
        Some(s) => s,
        None => default_settings_spec(wt_session),
    }
}

/// The settings of the run: those already in `slot`, else the defaults, which are then
/// stored there for every later call.
pub fn st(slot: &mut Option<Settings>, wt_session: bool) -> (s: Settings)
    ensures
        s == st_spec(*old(slot), wt_session),
        *final(slot) == Some(s),
{
    match *slot {
        Some(s) => s,
        None => {
            let s = default_settings(wt_session);
            *slot = Some(s);
            s
        },
    }
}

/// Once the settings slot is filled, it yields the same settings forever: a second read
/// gives what the first gave, whatever the environment says then.
pub proof fn law_settings_fixed_once_read(slot: Option<Settings>, wt_first: bool, wt_later: bool)
    ensures
        st_spec(Some(st_spec(slot, wt_first)), wt_later) == st_spec(slot, wt_first),
{
}

} // verus!
