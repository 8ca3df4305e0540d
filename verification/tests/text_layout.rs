use std::collections::VecDeque;
use glowfetch::format::{
    ansi, battery_line, card_facts, card_height, card_rule_width, cpu_line, display_line, fmt_uptime, logo_line,
    once_info, once_rows, terminal_name, title_for, SystemInfo, LOGO_ROWS,
};
use glowfetch::history::{graph_peak, graph_window, push, zero_history, HIST};
use glowfetch::text::{push_dec, push_padded, push_repeat, split_on_char, str_eq};
use glowfetch::theme::{default_settings, preset};

#[test]
fn uptime_formats() {
    assert_eq!(fmt_uptime(0), "0m");
    assert_eq!(fmt_uptime(59), "0m");
    assert_eq!(fmt_uptime(61), "1m");
    assert_eq!(fmt_uptime(3600), "1h 0m");
    assert_eq!(fmt_uptime(3 * 3600 + 4 * 60), "3h 4m");
    assert_eq!(fmt_uptime(86400), "1d 0h 0m");
    assert_eq!(fmt_uptime(2 * 86400 + 3 * 3600 + 4 * 60 + 5), "2d 3h 4m");
    assert_eq!(fmt_uptime(u64::MAX), "213503982334601d 7h 0m");
}

#[test]
fn ansi_sequences() {
    assert_eq!(ansi((1, 22, 255), false, "x"), "\x1b[38;2;1;22;255mx\x1b[0m");
    assert_eq!(ansi((0, 0, 0), true, "ab"), "\x1b[1m\x1b[38;2;0;0;0mab\x1b[0m");
}

#[test]
fn titles_follow_fancy() {
    let mut s = default_settings(false);
    assert_eq!(title_for(&s, "CPU", "⚡"), " CPU ");
    s.fancy = true;
    assert_eq!(title_for(&s, "CPU", "⚡"), " ⚡ CPU ");
}

#[test]
fn info_lines() {
    assert_eq!(cpu_line("Ryzen 7", 16), "Ryzen 7 (16c)");
    assert_eq!(display_line("1920x1080", "x86_64"), "1920x1080 (x86_64)");
    assert_eq!(battery_line(87), "87%");
    assert_eq!(battery_line(0), "0%");
}

#[test]
fn terminal_names() {
    assert_eq!(terminal_name(true, Some("vscode".into()), true), "Windows Terminal");
    assert_eq!(terminal_name(false, Some("vscode".into()), true), "vscode");
    assert_eq!(terminal_name(false, None, true), "ConEmu");
    assert_eq!(terminal_name(false, None, false), "conhost");
}

#[test]
fn history_push_rolls() {
    let mut h: VecDeque<u64> = VecDeque::new();
    push(&mut h, 5);
    push(&mut h, 6);
    assert_eq!(h, VecDeque::from(vec![5, 6]));
    let mut full = zero_history();
    assert_eq!(full.len(), HIST);
    assert!(full.iter().all(|v| *v == 0));
    push(&mut full, 42);
    assert_eq!(full.len(), HIST);
    assert_eq!(full.back(), Some(&42));
    assert_eq!(full.iter().filter(|v| **v == 0).count(), HIST - 1);
}

#[test]
fn graph_windows() {
    let h: VecDeque<u64> = VecDeque::from(vec![1, 2, 3, 4]);
    assert_eq!(graph_window(&h, 2), (0, vec![3, 4]));
    assert_eq!(graph_window(&h, 6), (2, vec![1, 2, 3, 4]));
    assert_eq!(graph_window(&h, 0), (0, vec![]));
    assert_eq!(graph_peak(&h), 10);
    assert_eq!(graph_peak(&VecDeque::from(vec![3, 250, 17])), 250);
    assert_eq!(graph_peak(&VecDeque::new()), 10);
}

#[test]
fn card_sizes() {
    assert_eq!(card_height(true, true, 100), 22);
    assert_eq!(card_height(true, false, 100), 21);
    assert_eq!(card_height(false, false, 100), 9);
    assert_eq!(card_height(false, true, 100), 10);
    assert_eq!(card_height(true, true, 15), 15);
    assert_eq!(card_rule_width("bob", "pc"), 6);
    assert_eq!(card_rule_width("josé", "pc"), 8);
    assert_eq!(card_rule_width("averyveryverylongusername", "host"), 28);
}

#[test]
fn logo_glyphs_are_gated() {
    for i in 0..LOGO_ROWS {
        assert!(logo_line(i, false).chars().all(|c| c == ' ' || c == '█'));
        assert_eq!(logo_line(i, true).chars().count(), 25);
    }
    assert_eq!(logo_line(4, true), "      ▜███████▛ ▜███████▛");
    assert_eq!(logo_line(5, false), " ".repeat(25));
}

#[test]
fn card_fact_lines() {
    let facts = card_facts(&sample_info(), 8, Some(40));
    let expect: Vec<(String, String)> = vec![
        ("      os ".into(), "Windows 11".into()),
        ("  kernel ".into(), "26100".into()),
        ("     cpu ".into(), "Ryzen (8c)".into()),
        ("     gpu ".into(), "RTX".into()),
        (" display ".into(), "2560x1440 (x86_64)".into()),
        (" battery ".into(), "40%".into()),
    ];
    assert_eq!(facts, expect);
    assert_eq!(card_facts(&sample_info(), 8, None).len(), 5);
    for (k, _) in &facts {
        assert_eq!(k, &format!("{:>8} ", k.trim()));
    }
}

#[test]
fn text_helpers() {
    let mut s = String::new();
    push_dec(&mut s, 0);
    push_dec(&mut s, 1203);
    assert_eq!(s, "01203");
    push_repeat(&mut s, '─', 3);
    assert_eq!(s, "01203───");
    let mut p = String::new();
    push_padded(&mut p, "ab", 4);
    assert_eq!(p, "ab  ");
    push_padded(&mut p, "abcdef", 4);
    assert_eq!(p, "ab  abcdef");
    assert_eq!(split_on_char("a,b,,c", ','), vec!["a", "b", "", "c"]);
    assert_eq!(split_on_char("", ','), vec![""]);
    assert_eq!(split_on_char(",", ','), vec!["", ""]);
    assert!(str_eq("héllo", "héllo"));
    assert!(!str_eq("hello", "hell"));
}

fn sample_info() -> SystemInfo {
    SystemInfo {
        host: "pc".into(),
        os: "Windows 11".into(),
        kernel: "26100".into(),
        cpu_brand: "Ryzen".into(),
        arch: "x86_64".into(),
        gpu: "RTX".into(),
        resolution: "2560x1440".into(),
    }
}

#[test]
fn snapshot_info_column() {
    let t = preset("windows");
    let lines = once_info(&t, "bob", &sample_info(), 8, 3660, "1.0 / 2.0 GiB", "10 / 20 GiB", "conhost", Some(50));
    assert_eq!(lines.len(), 14);
    assert_eq!(
        lines[0],
        format!("{}{}{}", ansi(t.accent2, true, "bob"), ansi(t.dim, false, "@"), ansi(t.accent, true, "pc"))
    );
    assert_eq!(lines[1], ansi(t.dim, false, "──────"));
    assert_eq!(lines[2], format!("{}{}", ansi(t.accent, true, "OS: "), ansi(t.text, false, "Windows 11")));
    assert_eq!(lines[4], format!("{}{}", ansi(t.accent, true, "CPU: "), ansi(t.text, false, "Ryzen (8c)")));
    assert_eq!(lines[6], format!("{}{}", ansi(t.accent, true, "Display: "), ansi(t.text, false, "2560x1440 (x86_64)")));
    assert_eq!(lines[7], format!("{}{}", ansi(t.accent, true, "Uptime: "), ansi(t.text, false, "1h 1m")));
    assert_eq!(lines[11], format!("{}{}", ansi(t.accent, true, "Battery: "), ansi(t.text, false, "50%")));
    assert_eq!(lines[12], "");
    assert!(lines[13].starts_with("\x1b[38;2;0;0;0m███"));
    let no_battery = once_info(&t, "bob", &sample_info(), 8, 0, "m", "d", "t", None);
    assert_eq!(no_battery.len(), 13);
    assert_eq!(no_battery[11], "");
}

#[test]
fn snapshot_rows() {
    let info: Vec<String> = vec!["a".into(), "b".into()];
    let plain = once_rows(false, true, &vec![], &info);
    assert_eq!(plain, vec!["  a".to_string(), "  b".to_string()]);
    let colors = vec![(1, 2, 3); LOGO_ROWS];
    let rows = once_rows(true, true, &colors, &info);
    assert_eq!(rows.len(), LOGO_ROWS);
    assert_eq!(rows[0], format!("{}  a", ansi((1, 2, 3), true, &format!("{:<27}", logo_line(0, true)))));
    assert_eq!(logo_line(0, true), "      ▟███████▙ ▟███████▙");
    let safe = once_rows(true, false, &colors, &info);
    assert_eq!(safe[0], format!("{}  a", ansi((1, 2, 3), true, "      █████████ █████████  ")));
    assert_eq!(rows[5], format!("{}  ", ansi((1, 2, 3), true, &" ".repeat(27))));
    let long: Vec<String> = (0..13).map(|i| i.to_string()).collect();
    let colors = vec![(9, 9, 9); 13];
    let rows = once_rows(true, false, &colors, &long);
    assert_eq!(rows.len(), 13);
    assert_eq!(rows[12], format!("{}  12", ansi((9, 9, 9), true, &" ".repeat(27))));
}
