//! Text that the program shows: durations, colored snippets, titles and the snapshot.
use vstd::prelude::*;
use vstd::utf8::encode_utf8;
use crate::color::Rgb;
use crate::text::{dec, push_dec, push_repeat, repeat_spec, pad_spec, push_padded};
use crate::theme::{Theme, Settings};

verus! {

/// The characters of each string.
pub open spec fn views(v: Seq<String>) -> Seq<Seq<char>> {
    v.map_values(|s: String| s@)
}

/// An uptime as days, hours and minutes, the leading zero units left out: `2d 3h 4m`,
/// `3h 4m` or `4m`.
pub open spec fn uptime_spec(secs: nat) -> Seq<char> {
    let d = secs / 86400;
    let h = (secs % 86400) / 3600;
    let m = (secs % 3600) / 60;
    if d > 0 {
        dec(d) + "d "@ + dec(h) + "h "@ + dec(m) + "m"@
    } else if h > 0 {
        dec(h) + "h "@ + dec(m) + "m"@
    } else {
        dec(m) + "m"@
    }
}

/// An uptime of `d` days, `h` hours, `m` minutes and `s` seconds (`h` < 24, `m` < 60,
/// `s` < 60) reads as those days, hours and minutes, the seconds dropped and the leading
/// zero units left out.
pub proof fn law_uptime_shows_its_units(d: nat, h: nat, m: nat, s: nat)
    requires
        h < 24,
        m < 60,
        s < 60,
    ensures
        uptime_spec(d * 86400 + h * 3600 + m * 60 + s) == if d > 0 {
            dec(d) + "d "@ + dec(h) + "h "@ + dec(m) + "m"@
        } else if h > 0 {
            dec(h) + "h "@ + dec(m) + "m"@
        } else {
            dec(m) + "m"@
        },
{
    let x: int = (d * 86400 + h * 3600 + m * 60 + s) as int;
    let in_day: int = (h * 3600 + m * 60 + s) as int;
    let in_hour: int = (m * 60 + s) as int;
    vstd::arithmetic::div_mod::lemma_fundamental_div_mod_converse(x, 86400, d as int, in_day);
    vstd::arithmetic::div_mod::lemma_fundamental_div_mod_converse(in_day, 3600, h as int, in_hour);
    vstd::arithmetic::div_mod::lemma_fundamental_div_mod_converse(in_hour, 60, m as int, s as int);
    vstd::arithmetic::div_mod::lemma_fundamental_div_mod_converse(x, 3600, (d * 24 + h) as int, in_hour);
}

/// Every uptime is some days, fewer than 24 hours, fewer than 60 minutes and fewer than 60
/// seconds, so the law above fixes how every uptime reads.
pub proof fn law_every_uptime_has_units(secs: nat)
    ensures
        exists|d: nat, h: nat, m: nat, s: nat|
            h < 24 && m < 60 && s < 60 && secs == #[trigger] (d * 86400 + h * 3600 + m * 60 + s),
{
    let d = secs / 86400;
    let r = secs % 86400;
    let h = r / 3600;
    let r2 = r % 3600;
    let m = r2 / 60;
    let s = r2 % 60;
    assert(secs == d * 86400 + h * 3600 + m * 60 + s) by (nonlinear_arith)
        requires
            d == secs / 86400,
            r == secs % 86400,
            h == r / 3600,
            r2 == r % 3600,
            m == r2 / 60,
            s == r2 % 60,
    ;
    assert(h < 24 && m < 60 && s < 60) by (nonlinear_arith)
        requires
            r == secs % 86400,
            h == r / 3600,
            r2 == r % 3600,
            m == r2 / 60,
            s == r2 % 60,
    ;
}

/// Formats an uptime given in seconds.
pub fn fmt_uptime(secs: u64) -> (r: String)
    ensures
        r@ == uptime_spec(secs as nat),
{
    let d: u64 = secs / 86400;
    let h: u64 = (secs % 86400) / 3600;
    let m: u64 = (secs % 3600) / 60;
    let mut out = String::new();
    if d > 0 {
        push_dec(&mut out, d);
        out.append("d ");
        push_dec(&mut out, h);
        out.append("h ");
    } else if h > 0 {
        push_dec(&mut out, h);
        out.append("h ");
    }
    push_dec(&mut out, m);
    out.append("m");
    assert(out@ =~= uptime_spec(secs as nat));
    out
}

/// `text` in a 24-bit terminal color, optionally bold, with the attributes reset after it.
pub open spec fn ansi_spec(c: Rgb, bold: bool, text: Seq<char>) -> Seq<char> {
    let body = "\x1b[38;2;"@ + dec(c.0 as nat) + ";"@ + dec(c.1 as nat) + ";"@ + dec(c.2 as nat)
        + "m"@ + text + "\x1b[0m"@;
    if bold {
        "\x1b[1m"@ + body
    } else {
        body
    }
}

/// Appends `text` in a terminal color to `out`.
pub fn push_ansi(out: &mut String, c: Rgb, bold: bool, text: &str)
    ensures
        final(out)@ == old(out)@ + ansi_spec(c, bold, text@),
{
    let ghost start = out@;
    if bold {
        out.append("\x1b[1m");
    }
    out.append("\x1b[38;2;");
    push_dec(out, c.0 as u64);
    out.append(";");
    push_dec(out, c.1 as u64);
    out.append(";");
    push_dec(out, c.2 as u64);
    out.append("m");
    out.append(text);
    out.append("\x1b[0m");
    assert(out@ =~= start + ansi_spec(c, bold, text@));
}

/// `text` in a 24-bit terminal color, optionally bold.
pub fn ansi(c: Rgb, bold: bool, text: &str) -> (r: String)
    ensures
        r@ == ansi_spec(c, bold, text@),
{
    let mut out = String::new();
    push_ansi(&mut out, c, bold, text);
    assert(out@ =~= ansi_spec(c, bold, text@));
    out
}

/// A panel title: the name between spaces, with the icon in front when fancy glyphs are on.
pub open spec fn title_spec(fancy: bool, plain: Seq<char>, icon: Seq<char>) -> Seq<char> {
    if fancy {
        " "@ + icon + " "@ + plain + " "@
    } else {
        " "@ + plain + " "@
    }
}

/// The title of a panel under the given settings.
pub fn title_for(settings: &Settings, plain: &str, icon: &str) -> (r: String)
    ensures
        r@ == title_spec(settings.fancy, plain@, icon@),
{
    let mut out = String::new();
    out.append(" ");
    if settings.fancy {
        out.append(icon);
        out.append(" ");
    }
    out.append(plain);
    out.append(" ");
    assert(out@ =~= title_spec(settings.fancy, plain@, icon@));
    out
}

/// The processor line: its name and core count, as `Name (8c)`.
pub open spec fn cpu_line_spec(brand: Seq<char>, cores: nat) -> Seq<char> {
    brand + " ("@ + dec(cores) + "c)"@
}

/// The processor line.
pub fn cpu_line(brand: &str, cores: usize) -> (r: String)
    ensures
        r@ == cpu_line_spec(brand@, cores as nat),
{
    let mut out = String::new();
    out.append(brand);
    out.append(" (");
    push_dec(&mut out, cores as u64);
    out.append("c)");
    assert(out@ =~= cpu_line_spec(brand@, cores as nat));
    out
}

/// The display line: resolution and architecture, as `1920x1080 (x86_64)`.
pub open spec fn display_line_spec(resolution: Seq<char>, arch: Seq<char>) -> Seq<char> {
    resolution + " ("@ + arch + ")"@
}

/// The display line.
pub fn display_line(resolution: &str, arch: &str) -> (r: String)
    ensures
        r@ == display_line_spec(resolution@, arch@),
{
    let mut out = String::new();
    out.append(resolution);
    out.append(" (");
    out.append(arch);
    out.append(")");
    assert(out@ =~= display_line_spec(resolution@, arch@));
    out
}

/// The battery charge in percent, as `87%`.
pub open spec fn battery_line_spec(charge: u16) -> Seq<char> {
    dec(charge as nat) + "%"@
}

/// The battery line.
pub fn battery_line(charge: u16) -> (r: String)
    ensures
        r@ == battery_line_spec(charge),
{
    let mut out = String::new();
    push_dec(&mut out, charge as u64);
    out.append("%");
    assert(out@ =~= battery_line_spec(charge));
    out
}

/// The name of the terminal: Windows Terminal when its session variable is set, else the
/// program that `TERM_PROGRAM` names, else ConEmu when its variable is set, else conhost.
pub open spec fn terminal_name_spec(wt_session: bool, term_program: Option<Seq<char>>, conemu: bool) -> Seq<char> {
    if wt_session {
        "Windows Terminal"@
    } else if term_program is Some {
        term_program.unwrap()
    } else if conemu {
        "ConEmu"@
    } else {
        "conhost"@
    }
}

/// The name of the terminal the program runs in, from what the environment says.
pub fn terminal_name(wt_session: bool, term_program: Option<String>, conemu: bool) -> (r: String)
    ensures
        r@ == terminal_name_spec(
            wt_session,
            match term_program { Some(t) => Some(t@), None => None },
            conemu,
        ),
{
    if wt_session {
        "Windows Terminal".to_owned()
    } else if let Some(tp) = term_program {
        tp
    } else if conemu {
        "ConEmu".to_owned()
    } else {
        "conhost".to_owned()
    }
}

/// What the machine reports about itself.
#[derive(Clone, Debug, PartialEq, Eq)]
pub struct SystemInfo {
    pub host: String,
    pub os: String,
    pub kernel: String,
    pub cpu_brand: String,
    pub arch: String,
    pub gpu: String,
    pub resolution: String,
}

/// The byte length of a string's UTF-8 encoding.
pub open spec fn byte_len(s: Seq<char>) -> nat {
    encode_utf8(s).len()
}

/// A labelled value of the snapshot: the bold label in the accent, the value in the text
/// color.
pub open spec fn kv_spec(t: Theme, label: Seq<char>, value: Seq<char>) -> Seq<char> {
    ansi_spec(t.accent, true, label) + ansi_spec(t.text, false, value)
}

/// The eight color swatches of the snapshot's last line.
pub open spec fn swatches_spec() -> Seq<char> {
    ansi_spec((0, 0, 0), false, "███"@)
        + ansi_spec((205, 49, 49), false, "███"@)
        + ansi_spec((13, 188, 121), false, "███"@)
        + ansi_spec((229, 229, 16), false, "███"@)
        + ansi_spec((36, 114, 200), false, "███"@)
        + ansi_spec((188, 63, 188), false, "███"@)
        + ansi_spec((17, 168, 205), false, "███"@)
        + ansi_spec((200, 200, 200), false, "███"@)
}

/// The information column of the snapshot: `user@host`, a rule as long as that in bytes,
/// the labelled facts, the battery when there is one, an empty line and the swatches.
pub open spec fn once_info_spec(
    t: Theme,
    user: Seq<char>,
    info: SystemInfo,
    cores: nat,
    uptime: nat,
    memory: Seq<char>,
    disk: Seq<char>,
    terminal: Seq<char>,
    battery: Option<u16>,
) -> Seq<Seq<char>> {
    let head = seq![
        ansi_spec(t.accent2, true, user) + ansi_spec(t.dim, false, "@"@) + ansi_spec(t.accent, true, info.host@),
        ansi_spec(t.dim, false, repeat_spec('─', byte_len(user) + byte_len(info.host@) + 1)),
        kv_spec(t, "OS: "@, info.os@),
        kv_spec(t, "Kernel: "@, info.kernel@),
        kv_spec(t, "CPU: "@, cpu_line_spec(info.cpu_brand@, cores)),
        kv_spec(t, "GPU: "@, info.gpu@),
        kv_spec(t, "Display: "@, display_line_spec(info.resolution@, info.arch@)),
        kv_spec(t, "Uptime: "@, uptime_spec(uptime)),
        kv_spec(t, "Memory: "@, memory),
        kv_spec(t, "Disk: "@, disk),
        kv_spec(t, "Terminal: "@, terminal),
    ];
    let with_battery = match battery {
        Some(b) => head.push(kv_spec(t, "Battery: "@, battery_line_spec(b))),
        None => head,
    };
    with_battery.push(Seq::empty()).push(swatches_spec())
}

/// Each line of the snapshot's information column shows the value it is labelled with:
/// the operating system after `OS: `, the kernel after `Kernel: `, the processor with its
/// core count after `CPU: `, the graphics after `GPU: `, resolution and architecture after
/// `Display: `, the uptime after `Uptime: `, the memory amount after `Memory: `, the disk
/// amount after `Disk: `, the terminal after `Terminal: ` and the charge after `Battery: `,
/// in that order, followed by an empty line and the swatches.
pub proof fn law_snapshot_lines_carry_their_values(
    t: Theme,
    user: Seq<char>,
    info: SystemInfo,
    cores: nat,
    uptime: nat,
    memory: Seq<char>,
    disk: Seq<char>,
    terminal: Seq<char>,
    battery: Option<u16>,
)
    ensures
        ({
            let l = once_info_spec(t, user, info, cores, uptime, memory, disk, terminal, battery);
            let label = |k: Seq<char>| ansi_spec(t.accent, true, k);
            let value = |v: Seq<char>| ansi_spec(t.text, false, v);
            &&& l.len() == if battery is Some { 14int } else { 13int }
            &&& l[0] == ansi_spec(t.accent2, true, user) + ansi_spec(t.dim, false, "@"@) + ansi_spec(t.accent, true, info.host@)
            &&& l[2] == label("OS: "@) + value(info.os@)
            &&& l[3] == label("Kernel: "@) + value(info.kernel@)
            &&& l[4] == label("CPU: "@) + value(info.cpu_brand@ + " ("@ + dec(cores) + "c)"@)
            &&& l[5] == label("GPU: "@) + value(info.gpu@)
            &&& l[6] == label("Display: "@) + value(info.resolution@ + " ("@ + info.arch@ + ")"@)
            &&& l[7] == label("Uptime: "@) + value(uptime_spec(uptime))
            &&& l[8] == label("Memory: "@) + value(memory)
            &&& l[9] == label("Disk: "@) + value(disk)
            &&& l[10] == label("Terminal: "@) + value(terminal)
            &&& (battery is Some ==> l[11] == label("Battery: "@) + value(dec(battery.unwrap() as nat) + "%"@))
            &&& l[l.len() - 2] == Seq::<char>::empty()
            &&& l[l.len() - 1] == swatches_spec()
        }),
{
}

fn kv_line(t: &Theme, label: &str, value: &str) -> (r: String)
    ensures
        r@ == kv_spec(*t, label@, value@),
{
    let mut out = String::new();
    push_ansi(&mut out, t.accent, true, label);
    push_ansi(&mut out, t.text, false, value);
    assert(out@ =~= kv_spec(*t, label@, value@));
    out
}

/// The information column of the snapshot (`--once`); `memory` and `disk` are the
/// already formatted amounts.
pub fn once_info(
    t: &Theme,
    user: &str,
    info: &SystemInfo,
    cores: usize,
    uptime: u64,
    memory: &str,
    disk: &str,
    terminal: &str,
    battery: Option<u16>,
) -> (r: Vec<String>)
    requires
        byte_len(user@) + byte_len(info.host@) + 1 <= usize::MAX,
    ensures
        views(r@) == once_info_spec(*t, user@, *info, cores as nat, uptime as nat, memory@, disk@, terminal@, battery),
{
    let mut lines: Vec<String> = Vec::new();
    let mut l0 = String::new();
    push_ansi(&mut l0, t.accent2, true, user);
    push_ansi(&mut l0, t.dim, false, "@");
    push_ansi(&mut l0, t.accent, true, info.host.as_str());
    lines.push(l0);
    let mut rule = String::new();
    push_repeat(&mut rule, '─', user.len() + info.host.as_str().len() + 1);
    lines.push(ansi(t.dim, false, rule.as_str()));
    lines.push(kv_line(t, "OS: ", info.os.as_str()));
    lines.push(kv_line(t, "Kernel: ", info.kernel.as_str()));
    let cpu = cpu_line(info.cpu_brand.as_str(), cores);
    lines.push(kv_line(t, "CPU: ", cpu.as_str()));
    lines.push(kv_line(t, "GPU: ", info.gpu.as_str()));
    let display = display_line(info.resolution.as_str(), info.arch.as_str());
    lines.push(kv_line(t, "Display: ", display.as_str()));
    let up = fmt_uptime(uptime);
    lines.push(kv_line(t, "Uptime: ", up.as_str()));
    lines.push(kv_line(t, "Memory: ", memory));
    lines.push(kv_line(t, "Disk: ", disk));
    lines.push(kv_line(t, "Terminal: ", terminal));
    if let Some(b) = battery {
        let bl = battery_line(b);
        lines.push(kv_line(t, "Battery: ", bl.as_str()));
    }
    lines.push(String::new());
    let mut sw = String::new();
    push_ansi(&mut sw, (0, 0, 0), false, "███");
    push_ansi(&mut sw, (205, 49, 49), false, "███");
    push_ansi(&mut sw, (13, 188, 121), false, "███");
    push_ansi(&mut sw, (229, 229, 16), false, "███");
    push_ansi(&mut sw, (36, 114, 200), false, "███");
    push_ansi(&mut sw, (188, 63, 188), false, "███");
    push_ansi(&mut sw, (17, 168, 205), false, "███");
    push_ansi(&mut sw, (200, 200, 200), false, "███");
    lines.push(sw);
    proof {
        assert(views(lines@) =~= once_info_spec(*t, user@, *info, cores as nat, uptime as nat, memory@, disk@, terminal@, battery));
    }
    lines
}


/// The number of rows of the logo.
pub const LOGO_ROWS: usize = 11;

/// Row `i` of the logo: two rows of two tiles, drawn in full blocks, and with rounded
/// corners (quadrant glyphs) only when fancy glyphs are on.
pub open spec fn logo_spec(i: int, fancy: bool) -> Seq<char> {
    if i == 5 {
        "                         "@
    } else if !fancy {
        "      █████████ █████████"@
    } else if i == 0 || i == 6 {
        "      ▟███████▙ ▟███████▙"@
    } else if i == 4 || i == 10 {
        "      ▜███████▛ ▜███████▛"@
    } else if i == 5 {
        "                         "@
    } else {
        "      █████████ █████████"@
    }
}

/// Row `i` of the logo.
pub fn logo_line(i: usize, fancy: bool) -> (r: &'static str)
    requires
        i < LOGO_ROWS,
    ensures
        r@ == logo_spec(i as int, fancy),
{
    if i == 5 {
        "                         "
    } else if !fancy {
        "      █████████ █████████"
    } else if i == 0 || i == 6 {
        "      ▟███████▙ ▟███████▙"
    } else if i == 4 || i == 10 {
        "      ▜███████▛ ▜███████▛"
    } else if i == 5 {
        "                         "
    } else {
        "      █████████ █████████"
    }
}

/// The number of lines of the snapshot's body: the longer of the logo and the
/// information column when the logo shows, else the information column's length.
pub open spec fn once_rows_count(show_logo: bool, info_len: nat) -> nat {
    if show_logo {
        if info_len < LOGO_ROWS { LOGO_ROWS as nat } else { info_len }
    } else {
        info_len
    }
}

/// Line `i` of the snapshot's body: with the logo, the logo row (glyphs as `fancy` allows,
/// padded to 27 columns,
/// bold, in its gradient color `colors[i]`), two spaces and the information line; without
/// it, the information line indented by two spaces. Missing rows are empty.
pub open spec fn once_row_spec(show_logo: bool, fancy: bool, colors: Seq<Rgb>, info: Seq<Seq<char>>, i: int) -> Seq<char> {
    if show_logo {
        let logo = if i < LOGO_ROWS { logo_spec(i, fancy) } else { Seq::empty() };
        let right = if i < info.len() { info[i] } else { Seq::empty() };
        ansi_spec(colors[i], true, pad_spec(logo, 27)) + "  "@ + right
    } else {
        "  "@ + info[i]
    }
}

/// The body of the snapshot, beside the logo or on its own; `colors` holds the logo's
/// gradient color for each line.
pub fn once_rows(show_logo: bool, fancy: bool, colors: &Vec<Rgb>, info: &Vec<String>) -> (r: Vec<String>)
    requires
        show_logo ==> colors.len() == once_rows_count(true, info.len() as nat),
    ensures
        r.len() == once_rows_count(show_logo, info.len() as nat),
        forall|i: int| 0 <= i < r.len() ==> #[trigger] r[i]@ == once_row_spec(show_logo, fancy, colors@, views(info@), i),
{
    let n = info.len();
    let rows: usize = if show_logo { if n < LOGO_ROWS { LOGO_ROWS } else { n } } else { n };
    let mut out: Vec<String> = Vec::new();
    let mut i: usize = 0;
    while i < rows
        invariant
            n == info.len(),
            rows == once_rows_count(show_logo, n as nat),
            show_logo ==> colors.len() == rows,
            i <= rows,
            out.len() == i,
            forall|j: int| 0 <= j < i ==> #[trigger] out[j]@ == once_row_spec(show_logo, fancy, colors@, views(info@), j),
        decreases rows - i,
    {
        let mut line = String::new();
        if show_logo {
            let logo: &str = if i < LOGO_ROWS { logo_line(i, fancy) } else { "" };
            let mut left = String::new();
            push_padded(&mut left, logo, 27);
            push_ansi(&mut line, colors[i], true, left.as_str());
            line.append("  ");
            if i < n {
                line.append(info[i].as_str());
            }
            proof {
                reveal_strlit("");
                let right = if i < info.len() { views(info@)[i as int] } else { Seq::empty() };
                assert(line@ =~= ansi_spec(colors@[i as int], true, left@) + "  "@ + right);
            }
        } else {
            line.append("  ");
            line.append(info[i].as_str());
        }
        assert(line@ == once_row_spec(show_logo, fancy, colors@, views(info@), i as int));
        out.push(line);
        i = i + 1;
    }
    out
}

/// The width of the rule under `user@host` on the dashboard's card: the byte length of
/// `user@host`, at most 28.
pub open spec fn card_rule_spec(user: Seq<char>, host: Seq<char>) -> nat {
    let w = byte_len(user) + byte_len(host) + 1;
    if w < 28 { w } else { 28 }
}

/// The width of the rule under `user@host` on the dashboard's card.
pub fn card_rule_width(user: &str, host: &str) -> (r: usize)
    requires
        byte_len(user@) + byte_len(host@) + 1 <= usize::MAX,
    ensures
        r == card_rule_spec(user@, host@),
{
    let w = user.len() + host.len() + 1;
    if w < 28 { w } else { 28 }
}

/// The height of the dashboard's card, which is capped to its content: the logo and a
/// blank line when it shows, the `user@host` line, its rule, five facts (os, kernel, cpu,
/// gpu, display), the battery line when there is one, and the two borders; at most the
/// `available` height.
pub open spec fn card_height_spec(show_logo: bool, has_battery: bool, available: u16) -> u16 {
    let want = (if show_logo { LOGO_ROWS + 1 } else { 0 }) + 7 + (if has_battery { 1int } else { 0 }) + 2;
    if want < available { want as u16 } else { available }
}

/// The height of the dashboard's card.
pub fn card_height(show_logo: bool, has_battery: bool, available: u16) -> (h: u16)
    ensures
        h == card_height_spec(show_logo, has_battery, available),
{
    let logo_h: u16 = if show_logo { LOGO_ROWS as u16 + 1 } else { 0 };
    let want: u16 = logo_h + 7 + if has_battery { 1 } else { 0 } + 2;
    if want < available { want } else { available }
}

/// A card label: right-aligned to eight columns and followed by a space.
pub open spec fn card_label_spec(k: Seq<char>) -> Seq<char> {
    (if k.len() < 8 { repeat_spec(' ', (8 - k.len()) as nat) } else { Seq::empty() }) + k + " "@
}

fn card_label(k: &str) -> (r: String)
    ensures
        r@ == card_label_spec(k@),
{
    let mut out = String::new();
    let n = k.unicode_len();
    if n < 8 {
        push_repeat(&mut out, ' ', 8 - n);
    }
    out.append(k);
    out.append(" ");
    assert(out@ =~= card_label_spec(k@));
    out
}

/// The labelled facts of the dashboard's card, in order: os, kernel, cpu (with the core
/// count), gpu, display (resolution and architecture), and the battery charge when there
/// is one.
pub open spec fn card_facts_spec(info: SystemInfo, cores: nat, battery: Option<u16>) -> Seq<(Seq<char>, Seq<char>)> {
    let facts = seq![
        (card_label_spec("os"@), info.os@),
        (card_label_spec("kernel"@), info.kernel@),
        (card_label_spec("cpu"@), cpu_line_spec(info.cpu_brand@, cores)),
        (card_label_spec("gpu"@), info.gpu@),
        (card_label_spec("display"@), display_line_spec(info.resolution@, info.arch@)),
    ];
    match battery {
        Some(b) => facts.push((card_label_spec("battery"@), battery_line_spec(b))),
        None => facts,
    }
}

/// The labelled facts of the dashboard's card.
pub fn card_facts(info: &SystemInfo, cores: usize, battery: Option<u16>) -> (r: Vec<(String, String)>)
    ensures
        r.len() == card_facts_spec(*info, cores as nat, battery).len(),
        forall|j: int| 0 <= j < r.len() ==> (#[trigger] r[j].0@, r[j].1@) == card_facts_spec(*info, cores as nat, battery)[j],
{
    let mut facts: Vec<(String, String)> = Vec::new();
    facts.push((card_label("os"), info.os.clone()));
    facts.push((card_label("kernel"), info.kernel.clone()));
    facts.push((card_label("cpu"), cpu_line(info.cpu_brand.as_str(), cores)));
    facts.push((card_label("gpu"), info.gpu.clone()));
    facts.push((card_label("display"), display_line(info.resolution.as_str(), info.arch.as_str())));
    if let Some(b) = battery {
        facts.push((card_label("battery"), battery_line(b)));
    }
    facts
}


/// A panel title shows the name between spaces; fancy glyphs add the icon and a space in
/// front, and nothing else.
pub proof fn law_title_adds_icon_only_when_fancy(plain: Seq<char>, icon: Seq<char>)
    ensures
        title_spec(false, plain, icon) == " "@ + plain + " "@,
        title_spec(true, plain, icon) == " "@ + icon + title_spec(false, plain, icon),
{
    assert(title_spec(true, plain, icon) =~= " "@ + icon + title_spec(false, plain, icon));
}

/// Bold text is the plain colored text behind the bold attribute, and the colored text ends
/// with the text itself and the reset.
pub proof fn law_ansi_wraps_text(c: Rgb, text: Seq<char>)
    ensures
        ansi_spec(c, true, text) == "\x1b[1m"@ + ansi_spec(c, false, text),
        ansi_spec(c, false, text) == "\x1b[38;2;"@ + dec(c.0 as nat) + ";"@ + dec(c.1 as nat) + ";"@
            + dec(c.2 as nat) + "m"@ + text + "\x1b[0m"@,
{
}

/// The card is exactly as tall as its content plus its borders when there is room: the
/// logo block when it shows, the `user@host` line and its rule, and its labelled facts.
pub proof fn law_card_fits_its_content(show_logo: bool, info: SystemInfo, cores: nat, battery: Option<u16>, available: u16)
    ensures
        ({
            let content = (if show_logo { LOGO_ROWS + 1 } else { 0 }) + 2 + card_facts_spec(info, cores, battery).len();
            &&& content + 2 <= available ==> card_height_spec(show_logo, battery is Some, available) == content + 2
            &&& content + 2 > available ==> card_height_spec(show_logo, battery is Some, available) == available
        }),
{
}

/// The rule under `user@host` on the card is never wider than 28 columns, and is as wide as
/// `user@host` in bytes when that fits.
pub proof fn law_card_rule_width(user: Seq<char>, host: Seq<char>)
    ensures
        card_rule_spec(user, host) <= 28,
        byte_len(user) + byte_len(host) + 1 <= 28 ==> card_rule_spec(user, host) == byte_len(user) + byte_len(host) + 1,
{
}

/// The terminal name: inside Windows Terminal always `Windows Terminal`; elsewhere the
/// program that `TERM_PROGRAM` names when it is set, whatever ConEmu says; else `ConEmu`
/// or `conhost`.
pub proof fn law_terminal_name_precedence(term_program: Option<Seq<char>>, conemu: bool)
    ensures
        terminal_name_spec(true, term_program, conemu) == "Windows Terminal"@,
        term_program is Some ==> terminal_name_spec(false, term_program, conemu) == term_program.unwrap(),
        term_program is None && conemu ==> terminal_name_spec(false, term_program, conemu) == "ConEmu"@,
        term_program is None && !conemu ==> terminal_name_spec(false, term_program, conemu) == "conhost"@,
{
}

/// The snapshot's body has one line per logo row or information line, whichever is more,
/// and line `i` ends with information line `i` (after the logo column when the logo shows).
pub proof fn law_snapshot_rows_carry_info(show_logo: bool, fancy: bool, colors: Seq<Rgb>, info: Seq<Seq<char>>, i: int)
    requires
        0 <= i < info.len(),
    ensures
        i < once_rows_count(show_logo, info.len()),
        once_row_spec(show_logo, fancy, colors, info, i) == if show_logo {
            ansi_spec(colors[i], true, pad_spec(if i < LOGO_ROWS { logo_spec(i, fancy) } else { Seq::empty() }, 27))
                + "  "@ + info[i]
        } else {
            "  "@ + info[i]
        },
        once_rows_count(show_logo, info.len()) >= info.len(),
        show_logo ==> once_rows_count(show_logo, info.len()) >= LOGO_ROWS,
{
}

} // verus!
