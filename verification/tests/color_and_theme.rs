use glowfetch::color::parse_color;
use glowfetch::config::{build_settings, settings_with_theme, Config, SectionCfg};
use glowfetch::theme::{default_settings, preset, preset_lowercase, st, Sections, Settings, Theme};

fn windows_theme() -> Theme {
    Theme {
        accent: (0, 174, 239),
        accent2: (120, 90, 255),
        text: (235, 238, 245),
        dim: (110, 110, 125),
        track: (30, 32, 40),
        logo_a: (0, 174, 239),
        logo_b: (120, 90, 255),
    }
}

#[test]
fn parse_color_hex() {
    assert_eq!(parse_color("#00AEEF"), Some((0, 174, 239)));
    assert_eq!(parse_color("#785aff"), Some((120, 90, 255)));
    assert_eq!(parse_color("  #bd93f9\t"), Some((189, 147, 249)));
}

#[test]
fn parse_color_rgb_triple() {
    assert_eq!(parse_color("120,90,255"), Some((120, 90, 255)));
    assert_eq!(parse_color(" 1 , 2 ,3 "), Some((1, 2, 3)));
    assert_eq!(parse_color("+7,08,255"), Some((7, 8, 255)));
}

#[test]
fn parse_color_forms_agree() {
    assert_eq!(parse_color("#785AFF"), parse_color("120,90,255"));
    assert_eq!(parse_color("0,0,0"), Some((0, 0, 0)));
    assert_eq!(parse_color("255,255,255"), Some((255, 255, 255)));
}

#[test]
fn parse_color_hex_roundtrip() {
    for &(r, g, b) in &[(0u8, 0u8, 0u8), (255, 255, 255), (18, 171, 205), (1, 160, 15)] {
        assert_eq!(parse_color(&format!("#{:02X}{:02X}{:02X}", r, g, b)), Some((r, g, b)));
        assert_eq!(parse_color(&format!("#{:02x}{:02x}{:02x}", r, g, b)), Some((r, g, b)));
        assert_eq!(parse_color(&format!("{},{},{}", r, g, b)), Some((r, g, b)));
    }
}

#[test]
fn logo_gradient_follows_accents() {
    for name in ["windows", "matrix", "dracula", "nord", "amber"] {
        let t = preset(name);
        assert_eq!(t.logo_a, t.accent);
        assert_eq!(t.logo_b, t.accent2);
    }
    let cfg = Config { accent2: Some("#010203".into()), ..Config::default() };
    let s = build_settings(cfg, Some("matrix".into()), None, None, false);
    assert_eq!(s.theme.logo_b, (1, 2, 3));
    assert_eq!(s.theme.logo_a, s.theme.accent);
}

#[test]
fn build_settings_non_ascii_color_falls_back() {
    let cfg = Config { accent: Some("#aé123".into()), text: Some("#€€".into()), ..Config::default() };
    let s = build_settings(cfg, None, None, None, false);
    assert_eq!(s.theme, windows_theme());
}

#[test]
fn parse_color_rejects_invalid() {
    assert_eq!(parse_color("#00AEE"), None);
    assert_eq!(parse_color("#00AEEG"), None);
    assert_eq!(parse_color("256,0,0"), None);
    assert_eq!(parse_color("1,2"), None);
    assert_eq!(parse_color("1,2,3,4"), None);
    assert_eq!(parse_color("1,,3"), None);
    assert_eq!(parse_color(""), None);
    assert_eq!(parse_color("blue"), None);
    assert_eq!(parse_color("-1,2,3"), None);
}

#[test]
fn parse_color_sign_and_unicode_edges() {
    // `u8::from_str_radix` accepts a leading plus sign in each pair.
    assert_eq!(parse_color("#+f+f+f"), Some((15, 15, 15)));
    // Six bytes after '#' that are not all ASCII but split cleanly: no color.
    assert_eq!(parse_color("#éé10"), None);
    // Six bytes after '#' that cut a character at byte 2 or 4: no color, no panic.
    assert_eq!(parse_color("#aé123"), None);
    assert_eq!(parse_color("#a€bc"), None);
    // Unicode whitespace around the value is trimmed too.
    assert_eq!(parse_color("\u{3000}#010203\u{2003}"), Some((1, 2, 3)));
}

#[test]
fn preset_themes_match_the_table() {
    assert_eq!(preset("windows"), windows_theme());
    assert_eq!(preset("matrix").accent, (0, 255, 102));
    assert_eq!(preset("matrix").accent2, (0, 170, 51));
    assert_eq!(preset("matrix").text, (200, 255, 200));
    assert_eq!(preset("matrix").logo_b, (0, 170, 51));
    assert_eq!(preset("matrix").logo_a, (0, 255, 102));
    assert_eq!(preset("dracula").accent, (189, 147, 249));
    assert_eq!(preset("dracula").accent2, (255, 121, 198));
    assert_eq!(preset("nord").accent, (136, 192, 208));
    assert_eq!(preset("nord").accent2, (94, 129, 172));
    assert_eq!(preset("amber").accent, (255, 176, 0));
    assert_eq!(preset("amber").accent2, (255, 112, 0));
    assert_eq!(preset("amber").logo_a, (255, 176, 0));
    assert_eq!(preset("amber").dim, (110, 110, 125));
}

#[test]
fn preset_ignores_case_and_falls_back() {
    assert_eq!(preset("DRACULA"), preset("dracula"));
    assert_eq!(preset("Nord"), preset("nord"));
    assert_eq!(preset("MaTrIx"), preset(&"MaTrIx".to_lowercase()));
    assert_eq!(preset("solarized"), windows_theme());
    assert_eq!(preset(""), windows_theme());
    assert_eq!(preset_lowercase("AMBER"), windows_theme());
    assert_eq!(preset_lowercase("amber"), preset("amber"));
}

#[test]
fn defaults_and_settings_slot() {
    let d = default_settings(false);
    assert_eq!(d.theme, windows_theme());
    assert_eq!(d.sections, Sections::default());
    assert!(d.show_logo);
    assert!(!d.fancy);
    assert!(default_settings(true).fancy);
    let all = Sections { cpu: true, ram: true, disk: true, net: true, palette: true };
    assert_eq!(Sections::default(), all);

    let mut slot: Option<Settings> = None;
    let first = st(&mut slot, true);
    assert_eq!(first, default_settings(true));
    assert_eq!(slot, Some(first));
    let second = st(&mut slot, false);
    assert_eq!(second, first);

    let mut custom = default_settings(false);
    custom.show_logo = false;
    let mut filled = Some(custom);
    assert_eq!(st(&mut filled, true), custom);
}

fn cfg_with(theme: Option<&str>, accent: Option<&str>) -> Config {
    Config {
        theme: theme.map(|s| s.to_string()),
        accent: accent.map(|s| s.to_string()),
        ..Config::default()
    }
}

#[test]
fn build_settings_empty_config() {
    let s = build_settings(Config::default(), None, None, None, false);
    assert_eq!(s, default_settings(false));
    let s = build_settings(Config::default(), None, None, None, true);
    assert!(s.fancy);
}

#[test]
fn build_settings_flags_over_config() {
    let cfg = Config {
        theme: Some("nord".into()),
        show_logo: Some(true),
        fancy: Some("off".into()),
        ..Config::default()
    };
    let s = build_settings(cfg.clone(), Some("Matrix".into()), Some(true), Some(false), false);
    assert_eq!(s.theme, preset("matrix"));
    assert!(s.fancy);
    assert!(!s.show_logo);
    let s = build_settings(cfg, None, None, None, true);
    assert_eq!(s.theme, preset("nord"));
    assert!(!s.fancy);
    assert!(s.show_logo);
}

#[test]
fn build_settings_color_overrides() {
    let cfg = Config {
        theme: Some("dracula".into()),
        accent: Some("#bd93f9".into()),
        accent2: Some("1,2,3".into()),
        text: Some("not a color".into()),
        ..Config::default()
    };
    let s = build_settings(cfg, None, None, None, false);
    assert_eq!(s.theme.accent, (189, 147, 249));
    assert_eq!(s.theme.logo_a, (189, 147, 249));
    assert_eq!(s.theme.accent2, (1, 2, 3));
    assert_eq!(s.theme.logo_b, (1, 2, 3));
    // The invalid text color falls back to the theme's.
    assert_eq!(s.theme.text, preset("dracula").text);
    let s = build_settings(cfg_with(Some("nord"), Some("#zzzzzz")), None, None, None, false);
    assert_eq!(s.theme, preset("nord"));
}

#[test]
fn build_settings_fancy_modes_and_sections() {
    let mut cfg = Config::default();
    cfg.fancy = Some("on".into());
    assert!(build_settings(cfg.clone(), None, None, None, false).fancy);
    cfg.fancy = Some("auto".into());
    assert!(!build_settings(cfg.clone(), None, None, None, false).fancy);
    assert!(build_settings(cfg.clone(), None, None, None, true).fancy);
    cfg.fancy = Some("ON".into());
    assert!(!build_settings(cfg.clone(), None, None, None, false).fancy);
    cfg.sections = Some(SectionCfg { net: Some(false), cpu: Some(true), ..SectionCfg::default() });
    let s = build_settings(cfg, None, None, None, false);
    assert_eq!(s.sections, Sections { cpu: true, ram: true, disk: true, net: false, palette: true });
}

#[test]
fn settings_with_theme_keeps_unset_colors() {
    let t = preset("amber");
    let s = settings_with_theme(t, &Config::default(), None, Some(true), false);
    assert_eq!(s.theme, t);
    assert!(s.show_logo);
    let cfg = Config { text: Some("#FFFFFF".into()), ..Config::default() };
    let s = settings_with_theme(t, &cfg, Some(false), None, true);
    assert_eq!(s.theme.text, (255, 255, 255));
    assert_eq!(s.theme.accent, t.accent);
    assert!(!s.fancy);
}
