use glowfetch::cli::{parse_args, Command, RunOptions};
use glowfetch::system::{
    first_charge, gpu_and_resolution, meter_rows, pick_disk, pick_disk_uppercased, quits, system_info,
    total_traffic, DiskInfo, Key, Meter, Stats, VideoInfo,
};
use glowfetch::theme::Sections;

fn args(a: &[&str]) -> Vec<String> {
    a.iter().map(|s| s.to_string()).collect()
}

#[test]
fn cli_requests() {
    assert_eq!(parse_args(&args(&[])), Command::Run(RunOptions::default()));
    assert_eq!(parse_args(&args(&["--help"])), Command::Help);
    assert_eq!(parse_args(&args(&["-o", "-h", "--bogus"])), Command::Help);
    assert_eq!(parse_args(&args(&["-V"])), Command::Version);
    assert_eq!(parse_args(&args(&["--gen-config"])), Command::GenConfig);
    assert_eq!(parse_args(&args(&["--bogus", "-h"])), Command::Unknown("--bogus".into()));
}

#[test]
fn cli_run_options() {
    let c = parse_args(&args(&["--once", "-t", "nord", "--config", "x.toml", "--fancy", "--no-fancy", "--no-logo"]));
    assert_eq!(
        c,
        Command::Run(RunOptions {
            once: true,
            theme_override: Some("nord".into()),
            config_path: Some("x.toml".into()),
            fancy_override: Some(false),
            logo_override: Some(false),
        })
    );
    // An option that awaits a value takes the next argument, whatever it is.
    let c = parse_args(&args(&["--theme", "--help"]));
    assert_eq!(c, Command::Run(RunOptions { theme_override: Some("--help".into()), ..RunOptions::default() }));
    // At the end of the line it takes nothing, and forgets an earlier value.
    let c = parse_args(&args(&["-t", "amber", "-t"]));
    assert_eq!(c, Command::Run(RunOptions::default()));
}

fn disk(m: &str, total: u64, available: u64) -> DiskInfo {
    DiskInfo { mount: m.into(), total, available }
}

#[test]
fn disk_choice() {
    assert_eq!(pick_disk(&vec![]), None);
    let ds = vec![disk("/", 100, 40), disk("/data", 500, 100), disk("/big", 500, 0)];
    assert_eq!(pick_disk(&ds), Some((400, 500)));
    let ds = vec![disk("D:\\", 900, 0), disk("c:\\", 100, 120), disk("E:\\", 1000, 0)];
    assert_eq!(pick_disk(&ds), Some((0, 100)));
    assert_eq!(pick_disk_uppercased(&ds), Some((1000, 1000)));
}

#[test]
fn battery_and_traffic() {
    assert_eq!(first_charge(&vec![None, Some(80), Some(20)]), Some(80));
    assert_eq!(first_charge(&vec![None]), None);
    assert_eq!(total_traffic(&vec![(1, 2), (10, 20)]), (11, 22));
    assert_eq!(total_traffic(&vec![]), (0, 0));
}

#[test]
fn stats_refresh_and_tick() {
    let mut s = Stats::new(&vec![disk("C:", 100, 30)]);
    assert_eq!((s.disk_used, s.disk_total), (70, 100));
    assert_eq!(s.cpu_hist.len(), 120);
    s.refresh_disk(&vec![]);
    assert_eq!((s.disk_used, s.disk_total), (70, 100));
    s.tick(&Some(vec![None, Some(55)]), 17, 3);
    assert_eq!(s.battery, Some(55));
    assert_eq!(s.cpu_hist.back(), Some(&17));
    assert_eq!(s.net_hist.back(), Some(&3));
    assert_eq!(s.cpu_hist.len(), 120);
    s.tick(&None, 1, 1);
    assert_eq!(s.battery, Some(55));
}

#[test]
fn machine_facts() {
    let video = Some(vec![
        VideoInfo { name: None, width: Some(1), height: Some(1) },
        VideoInfo { name: Some("RTX 4070".into()), width: Some(2560), height: Some(1440) },
    ]);
    let info = system_info(
        Some("pc".into()),
        None,
        Some("11".into()),
        None,
        "x86_64".into(),
        &vec!["  AMD Ryzen 7  ".to_string()],
        &video,
    );
    assert_eq!(info.host, "pc");
    assert_eq!(info.os, "Windows 11");
    assert_eq!(info.kernel, "-");
    assert_eq!(info.cpu_brand, "AMD Ryzen 7");
    assert_eq!(info.gpu, "RTX 4070");
    assert_eq!(info.resolution, "2560x1440");
    let info = system_info(None, Some("Linux".into()), None, Some("6.1".into()), "arm".into(), &vec![], &None);
    assert_eq!(info.host, "unknown");
    assert_eq!(info.os, "Linux ");
    assert_eq!(info.cpu_brand, "Unknown CPU");
    assert_eq!((info.gpu.as_str(), info.resolution.as_str()), ("Unknown", "-"));
    let zero = Some(vec![VideoInfo { name: Some("iGPU".into()), width: Some(0), height: Some(900) }]);
    assert_eq!(gpu_and_resolution(&zero), ("iGPU".to_string(), "-".to_string()));
}

#[test]
fn meters_follow_sections() {
    let all = Sections { cpu: true, ram: true, disk: true, net: true, palette: true };
    assert_eq!(
        meter_rows(&all),
        vec![(Meter::Cpu, 10), (Meter::Ram, 3), (Meter::Disk, 3), (Meter::Net, 8), (Meter::Palette, 3)]
    );
    let some = Sections { cpu: false, ram: true, disk: false, net: true, palette: false };
    assert_eq!(meter_rows(&some), vec![(Meter::Ram, 3), (Meter::Net, 8)]);
}

#[test]
fn quit_keys() {
    assert!(quits(Key::Char('q'), true));
    assert!(quits(Key::Char('Q'), true));
    assert!(quits(Key::Esc, true));
    assert!(!quits(Key::Esc, false));
    assert!(!quits(Key::Char('x'), true));
    assert!(!quits(Key::Other, true));
}
