//! The configuration file's content and how it resolves into settings.
use vstd::prelude::*;
use crate::color::{Rgb, parse_color, parse_color_spec};
use vstd::utf8::is_ascii_chars;
use crate::text::{lowercase_of, str_eq, ascii_lowercase};
use crate::theme::{Theme, Sections, Settings, preset, theme_named};

verus! {

/// The `[sections]` table: each panel may be switched on or off.
#[derive(Clone, Debug, Default, PartialEq, Eq)]
pub struct SectionCfg {
    pub cpu: Option<bool>,
    pub ram: Option<bool>,
    pub disk: Option<bool>,
    pub net: Option<bool>,
    pub palette: Option<bool>,
}

/// The keys of the configuration file, each optional.
#[derive(Clone, Debug, Default, PartialEq, Eq)]
pub struct Config {
    pub theme: Option<String>,
    pub accent: Option<String>,
    pub accent2: Option<String>,
    pub text: Option<String>,
    pub show_logo: Option<bool>,
    /// `auto`, `on` or `off`.
    pub fancy: Option<String>,
    pub sections: Option<SectionCfg>,
}

/// The characters of an optional string.
pub open spec fn opt_view(o: Option<String>) -> Option<Seq<char>> {
    match o {
        Some(s) => Some(s@),
        None => None,
    }
}

/// The color that an optional configured value gives, if it is present and valid.
pub open spec fn color_of(o: Option<String>) -> Option<Rgb> {
    match o {
        Some(s) => parse_color_spec(s@),
        None => None,
    }
}

/// `theme` with the configured color overrides applied: `accent` also starts the logo
/// gradient, `accent2` also ends it; a missing or invalid value keeps the theme's color.
pub open spec fn themed_spec(theme: Theme, cfg: Config) -> Theme {
    let t1 = match color_of(cfg.accent) {
        Some(c) => Theme { accent: c, logo_a: c, ..theme },
        None => theme,
    };
    let t2 = match color_of(cfg.accent2) {
        Some(c) => Theme { accent2: c, logo_b: c, ..t1 },
        None => t1,
    };
    match color_of(cfg.text) {
        Some(c) => Theme { text: c, ..t2 },
        None => t2,
    }
}

/// Whether fancy glyphs are on: the command line decides if it says so, else the
/// configured `on` or `off`, else (`auto`, anything else, or nothing) whether the program
/// runs inside Windows Terminal.
pub open spec fn fancy_spec(cfg_fancy: Option<Seq<char>>, fancy_override: Option<bool>, wt_session: bool) -> bool {
    match fancy_override {
        Some(b) => b,
        None => match cfg_fancy {
            Some(f) => if f == "on"@ { true } else if f == "off"@ { false } else { wt_session },
            None => wt_session,
        },
    }
}

/// An optional switch, on when it is missing.
pub open spec fn on_unless_off(o: Option<bool>) -> bool {
    match o {
        Some(b) => b,
        None => true,
    }
}

/// The panels that the `[sections]` table leaves on (a missing table or key means on).
pub open spec fn sections_spec(sc: Option<SectionCfg>) -> Sections {
    match sc {
        Some(c) => Sections {
            cpu: on_unless_off(c.cpu),
            ram: on_unless_off(c.ram),
            disk: on_unless_off(c.disk),
            net: on_unless_off(c.net),
            palette: on_unless_off(c.palette),
        },
        None => Sections { cpu: true, ram: true, disk: true, net: true, palette: true },
    }
}

/// Whether the logo shows: the command line first, then the configuration, then on.
pub open spec fn show_logo_spec(cfg_logo: Option<bool>, logo_override: Option<bool>) -> bool {
    match logo_override {
        Some(b) => b,
        None => on_unless_off(cfg_logo),
    }
}

/// The settings that a theme, the configuration and the command line overrides give.
pub open spec fn settings_with_theme_spec(
    theme: Theme,
    cfg: Config,
    fancy_override: Option<bool>,
    logo_override: Option<bool>,
    wt_session: bool,
) -> Settings {
    Settings {
        theme: themed_spec(theme, cfg),
        sections: sections_spec(cfg.sections),
        show_logo: show_logo_spec(cfg.show_logo, logo_override),
        fancy: fancy_spec(opt_view(cfg.fancy), fancy_override, wt_session),
    }
}

/// The name of the theme to use: the command line's, else the configured one, else
/// `windows`.
pub open spec fn theme_name_spec(cfg_theme: Option<Seq<char>>, theme_override: Option<Seq<char>>) -> Seq<char> {
    match theme_override {
        Some(t) => t,
        None => match cfg_theme {
            Some(t) => t,
            None => "windows"@,
        },
    }
}

/// The settings of a run.
pub open spec fn build_settings_spec(
    cfg: Config,
    theme_override: Option<Seq<char>>,
    fancy_override: Option<bool>,
    logo_override: Option<bool>,
    wt_session: bool,
) -> Settings {
    settings_with_theme_spec(
        theme_named(lowercase_of(theme_name_spec(opt_view(cfg.theme), theme_override))),
        cfg,
        fancy_override,
        logo_override,
        wt_session,
    )
}

fn color_override(o: &Option<String>) -> (r: Option<Rgb>)
    ensures
        r == color_of(*o),
{
    match o {
        Some(s) => parse_color(s.as_str()),
        None => None,
    }
}

fn on_by_default(o: Option<bool>) -> (r: bool)
    ensures
        r == on_unless_off(o),
{
    match o {
        Some(b) => b,
        None => true,
    }
}

/// Applies the configuration and the command line overrides to a theme.
pub fn settings_with_theme(
    theme: Theme,
    cfg: &Config,
    fancy_override: Option<bool>,
    logo_override: Option<bool>,
    wt_session: bool,
) -> (s: Settings)
    ensures
        s == settings_with_theme_spec(theme, *cfg, fancy_override, logo_override, wt_session),
{
    let mut t = theme;
    if let Some(c) = color_override(&cfg.accent) {
        t.accent = c;
        t.logo_a = c;
    }
    if let Some(c) = color_override(&cfg.accent2) {
        t.accent2 = c;
        t.logo_b = c;
    }
    if let Some(c) = color_override(&cfg.text) {
        t.text = c;
    }
    let fancy = match fancy_override {
        Some(b) => b,
        None => match &cfg.fancy {
            Some(f) => if str_eq(f.as_str(), "on") {
                true
            } else if str_eq(f.as_str(), "off") {
                false
            } else {
                wt_session
            },
            None => wt_session,
        },
    };
    let sections = match &cfg.sections {
        Some(sc) => Sections {
            cpu: on_by_default(sc.cpu),
            ram: on_by_default(sc.ram),
            disk: on_by_default(sc.disk),
            net: on_by_default(sc.net),
            palette: on_by_default(sc.palette),
        },
        None => Sections { cpu: true, ram: true, disk: true, net: true, palette: true },
    };
    let show_logo = match logo_override {
        Some(b) => b,
        None => on_by_default(cfg.show_logo),
    };
    Settings { theme: t, sections, show_logo, fancy }
}

/// Resolves the settings of a run from the configuration file and the command line
/// overrides; `wt_session` tells whether the program runs inside Windows Terminal.
pub fn build_settings(
    cfg: Config,
    theme_override: Option<String>,
    fancy_override: Option<bool>,
    logo_override: Option<bool>,
    wt_session: bool,
) -> (s: Settings)
    ensures
        s == build_settings_spec(cfg, opt_view(theme_override), fancy_override, logo_override, wt_session),
        is_ascii_chars(theme_name_spec(opt_view(cfg.theme), opt_view(theme_override))) ==> s
            == settings_with_theme_spec(
                theme_named(ascii_lowercase(theme_name_spec(opt_view(cfg.theme), opt_view(theme_override)))),
                cfg,
                fancy_override,
                logo_override,
                wt_session,
            ),
{
    let theme = match &theme_override {
        Some(t) => preset(t.as_str()),
        None => match &cfg.theme {
            Some(t) => preset(t.as_str()),
            None => {
                proof {
                    reveal_strlit("windows");
                }
                preset("windows")
            },
        },
    };
    settings_with_theme(theme, &cfg, fancy_override, logo_override, wt_session)
}

/// The command line decides over the configuration file, and the configuration file over
/// the defaults: a given flag fixes its setting, and a configured value fixes its setting
/// where no flag is given.
pub proof fn law_flags_over_config_over_defaults(
    cfg: Config,
    theme_override: Option<Seq<char>>,
    fancy_override: Option<bool>,
    logo_override: Option<bool>,
    wt_session: bool,
)
    ensures
        ({
            let s = build_settings_spec(cfg, theme_override, fancy_override, logo_override, wt_session);
            &&& (logo_override is Some ==> s.show_logo == logo_override.unwrap())
            &&& (logo_override is None && cfg.show_logo is Some ==> s.show_logo == cfg.show_logo.unwrap())
            &&& (logo_override is None && cfg.show_logo is None ==> s.show_logo)
            &&& (fancy_override is Some ==> s.fancy == fancy_override.unwrap())
            &&& (theme_override is Some && color_of(cfg.accent) is None ==> s.theme.accent
                == theme_named(lowercase_of(theme_override.unwrap())).accent)
            &&& (theme_override is None && cfg.theme is Some && color_of(cfg.accent) is None
                ==> s.theme.accent == theme_named(lowercase_of(cfg.theme.unwrap()@)).accent)
        }),
{
}

/// A configured color that is missing or invalid falls back to the active theme's color,
/// and a valid one replaces it.
pub proof fn law_invalid_color_falls_back(theme: Theme, cfg: Config)
    ensures
        color_of(cfg.accent) is None ==> themed_spec(theme, cfg).accent == theme.accent
            && themed_spec(theme, cfg).logo_a == theme.logo_a,
        color_of(cfg.accent2) is None ==> themed_spec(theme, cfg).accent2 == theme.accent2
            && themed_spec(theme, cfg).logo_b == theme.logo_b,
        color_of(cfg.text) is None ==> themed_spec(theme, cfg).text == theme.text,
        color_of(cfg.accent) is Some ==> themed_spec(theme, cfg).accent == color_of(cfg.accent).unwrap(),
        color_of(cfg.accent2) is Some ==> themed_spec(theme, cfg).accent2 == color_of(cfg.accent2).unwrap(),
        color_of(cfg.text) is Some ==> themed_spec(theme, cfg).text == color_of(cfg.text).unwrap(),
        themed_spec(theme, cfg).dim == theme.dim,
        themed_spec(theme, cfg).track == theme.track,
{
}


/// The configured accents drive the logo gradient as the theme's do: when a theme's
/// gradient runs from its accent to its secondary accent, it still does after the
/// configured colors are applied.
pub proof fn law_logo_follows_configured_accents(theme: Theme, cfg: Config)
    requires
        theme.logo_a == theme.accent,
        theme.logo_b == theme.accent2,
    ensures
        themed_spec(theme, cfg).logo_a == themed_spec(theme, cfg).accent,
        themed_spec(theme, cfg).logo_b == themed_spec(theme, cfg).accent2,
{
}


/// Whether the `[sections]` table turns a panel off through the key that `key` picks.
pub open spec fn switched_off(sections: Option<SectionCfg>, key: spec_fn(SectionCfg) -> Option<bool>) -> bool {
    sections is Some && key(sections.unwrap()) == Some(false)
}

/// Each panel is removed exactly when its own key in `[sections]` says `false`; a missing
/// table, a missing key or `true` leaves it on, and no other key affects it.
pub proof fn law_each_panel_follows_its_own_key(
    cfg: Config,
    theme_override: Option<Seq<char>>,
    fancy_override: Option<bool>,
    logo_override: Option<bool>,
    wt_session: bool,
)
    ensures
        ({
            let p = build_settings_spec(cfg, theme_override, fancy_override, logo_override, wt_session).sections;
            &&& p.cpu == !switched_off(cfg.sections, |c: SectionCfg| c.cpu)
            &&& p.ram == !switched_off(cfg.sections, |c: SectionCfg| c.ram)
            &&& p.disk == !switched_off(cfg.sections, |c: SectionCfg| c.disk)
            &&& p.net == !switched_off(cfg.sections, |c: SectionCfg| c.net)
            &&& p.palette == !switched_off(cfg.sections, |c: SectionCfg| c.palette)
        }),
{
}


/// The configured `fancy` mode: with no flag, `on` turns fancy glyphs on and `off` turns
/// them off wherever the program runs, and any other value or none follows whether it
/// runs inside Windows Terminal; a flag decides over all of these.
pub proof fn law_fancy_modes(cfg_fancy: Option<Seq<char>>, fancy_override: Option<bool>, wt_session: bool)
    ensures
        cfg_fancy == Some("on"@) && fancy_override is None ==> fancy_spec(cfg_fancy, fancy_override, wt_session),
        cfg_fancy == Some("off"@) && fancy_override is None ==> !fancy_spec(cfg_fancy, fancy_override, wt_session),
        cfg_fancy != Some("on"@) && cfg_fancy != Some("off"@) && fancy_override is None
            ==> fancy_spec(cfg_fancy, fancy_override, wt_session) == wt_session,
        fancy_override is Some ==> fancy_spec(cfg_fancy, fancy_override, wt_session) == fancy_override.unwrap(),
{
    reveal_strlit("on");
    reveal_strlit("off");
    assert("on"@.len() != "off"@.len());
}

} // verus!
