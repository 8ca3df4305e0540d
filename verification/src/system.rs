//! What the machine reports, reduced to the facts and samples the program shows.
use vstd::prelude::*;
use std::collections::VecDeque;
use vstd::utf8::is_ascii_chars;
use crate::text::{push_dec, dec, trim_spec, trim_str, uppercase_of, to_uppercase, ascii_uppercase};
use crate::format::SystemInfo;
use crate::history::{push, push_spec, zero_history, HIST};
use crate::theme::Sections;

verus! {

/// A display adapter as the machine describes it.
#[derive(Clone, Debug, PartialEq, Eq)]
pub struct VideoInfo {
    pub name: Option<String>,
    pub width: Option<u32>,
    pub height: Option<u32>,
}

/// The resolution text of an adapter: `WxH` when both sides are known and positive, else
/// `-`.
pub open spec fn resolution_spec(v: VideoInfo) -> Seq<char> {
    match (v.width, v.height) {
        (Some(w), Some(h)) => if w > 0 && h > 0 {
            dec(w as nat) + "x"@ + dec(h as nat)
        } else {
            "-"@
        },
        _ => "-"@,
    }
}

/// The graphics name and resolution: those of the first adapter that has a name, else
/// `Unknown` and `-`.
pub open spec fn gpu_spec(vs: Seq<VideoInfo>) -> (Seq<char>, Seq<char>)
    decreases vs.len(),
{
    if vs.len() == 0 {
        ("Unknown"@, "-"@)
    } else if vs[0].name is Some {
        (vs[0].name.unwrap()@, resolution_spec(vs[0]))
    } else {
        gpu_spec(vs.drop_first())
    }
}

/// The graphics name and resolution, when the adapters could be listed.
pub open spec fn gpu_or_unknown(video: Option<Vec<VideoInfo>>) -> (Seq<char>, Seq<char>) {
    match video {
        Some(vs) => gpu_spec(vs@),
        None => ("Unknown"@, "-"@),
    }
}

fn resolution_of(v: &VideoInfo) -> (r: String)
    ensures
        r@ == resolution_spec(*v),
{
    let mut out = String::new();
    match (v.width, v.height) {
        (Some(w), Some(h)) => if w > 0 && h > 0 {
            push_dec(&mut out, w as u64);
            out.append("x");
            push_dec(&mut out, h as u64);
        } else {
            out.append("-");
        },
        _ => out.append("-"),
    }
    assert(out@ =~= resolution_spec(*v));
    out
}

/// The graphics name and resolution from a list of adapters.
pub fn gpu_and_resolution(video: &Option<Vec<VideoInfo>>) -> (r: (String, String))
    ensures
        (r.0@, r.1@) == gpu_or_unknown(*video),
{
    match video {
        None => ("Unknown".to_owned(), "-".to_owned()),
        Some(vs) => {
            let n = vs.len();
            let mut i: usize = 0;
            assert(vs@.subrange(0, n as int) =~= vs@);
            let ghost target = gpu_or_unknown(*video);
            assert(target == gpu_spec(vs@));
            while i < n
                invariant
                    n == vs@.len(),
                    i <= n,
                    gpu_spec(vs@) == gpu_spec(vs@.subrange(i as int, n as int)),
                    target == gpu_spec(vs@),
                    target == gpu_or_unknown(*video),
                decreases n - i,
            {
                let ghost rest = vs@.subrange(i as int, n as int);
                assert(rest.drop_first() =~= vs@.subrange(i + 1, n as int));
                assert(rest[0] == vs@[i as int]);
                match &vs[i].name {
                    Some(name) => {
                        let g = name.clone();
                        let res = resolution_of(&vs[i]);
                        assert(gpu_spec(rest) == (g@, res@));
                        return (g, res);
                    },
                    None => {},
                }
                i = i + 1;
            }
            ("Unknown".to_owned(), "-".to_owned())
        },
    }
}

/// The characters of an optional string, or a fallback.
pub open spec fn or_default(o: Option<String>, d: Seq<char>) -> Seq<char> {
    match o {
        Some(s) => s@,
        None => d,
    }
}

/// The processor name: the first processor's brand, trimmed, or `Unknown CPU`.
pub open spec fn cpu_brand_spec(brands: Seq<String>) -> Seq<char> {
    if brands.len() > 0 { trim_spec(brands[0]@) } else { "Unknown CPU"@ }
}

/// The facts the program shows about the machine: host name (else `unknown`), operating
/// system name (else `Windows`) and version (else nothing) joined by a space, kernel
/// version (else `-`), architecture, processor and graphics.
pub open spec fn system_info_spec(
    host: Option<String>,
    os_name: Option<String>,
    os_version: Option<String>,
    kernel: Option<String>,
    arch: Seq<char>,
    brands: Seq<String>,
    video: Option<Vec<VideoInfo>>,
    info: SystemInfo,
) -> bool {
    &&& info.host@ == or_default(host, "unknown"@)
    &&& info.os@ == or_default(os_name, "Windows"@) + " "@ + or_default(os_version, Seq::empty())
    &&& info.kernel@ == or_default(kernel, "-"@)
    &&& info.arch@ == arch
    &&& info.cpu_brand@ == cpu_brand_spec(brands)
    &&& (info.gpu@, info.resolution@) == gpu_or_unknown(video)
}

fn text_or(o: Option<String>, d: &str) -> (r: String)
    ensures
        r@ == or_default(o, d@),
{
    match o {
        Some(s) => s,
        None => d.to_owned(),
    }
}

/// Gathers the facts the program shows about the machine from what it reports.
pub fn system_info(
    host: Option<String>,
    os_name: Option<String>,
    os_version: Option<String>,
    kernel: Option<String>,
    arch: String,
    cpu_brands: &Vec<String>,
    video: &Option<Vec<VideoInfo>>,
) -> (info: SystemInfo)
    ensures
        system_info_spec(host, os_name, os_version, kernel, arch@, cpu_brands@, *video, info),
{
    let cpu_brand = if cpu_brands.len() > 0 {
        trim_str(cpu_brands[0].as_str()).to_owned()
    } else {
        "Unknown CPU".to_owned()
    };
    let (gpu, resolution) = gpu_and_resolution(video);
    let ghost name_v = or_default(os_name, "Windows"@);
    let ghost version_v = or_default(os_version, Seq::empty());
    let mut os = text_or(os_name, "Windows");
    os.append(" ");
    match os_version {
        Some(v) => os.append(v.as_str()),
        None => {},
    }
    assert(os@ =~= name_v + " "@ + version_v);
    SystemInfo {
        host: text_or(host, "unknown"),
        os,
        kernel: text_or(kernel, "-"),
        cpu_brand,
        arch,
        gpu,
        resolution,
    }
}

/// A mounted disk as the machine describes it.
#[derive(Clone, Debug, PartialEq, Eq)]
pub struct DiskInfo {
    pub mount: String,
    pub total: u64,
    pub available: u64,
}

/// The used space of a disk: its total less what is available, 0 at least.
pub open spec fn used_spec(total: u64, available: u64) -> u64 {
    if available < total { (total - available) as u64 } else { 0 }
}

/// A mount point that names drive C.
pub open spec fn is_system_mount(upper: Seq<char>) -> bool {
    upper.len() >= 2 && upper[0] == 'C' && upper[1] == ':'
}

/// The disk that the program reports, scanning from position `i` with the best choice so
/// far: the first disk mounted on `C:` (its mount point in upper case), else the first of
/// the largest disks; as (used, total).
pub open spec fn pick_from(disks: Seq<(Seq<char>, u64, u64)>, i: int, best: Option<(u64, u64)>) -> Option<(u64, u64)>
    decreases (if 0 <= i < disks.len() { disks.len() - i } else { 0 }),
{
    if i < 0 || i >= disks.len() {
        best
    } else {
        let (mount, total, available) = disks[i];
        let cand = Some((used_spec(total, available), total));
        if is_system_mount(mount) {
            cand
        } else if best is None || total > best.unwrap().1 {
            pick_from(disks, i + 1, cand)
        } else {
            pick_from(disks, i + 1, best)
        }
    }
}

/// The disks with their mount points as given.
pub open spec fn disks_model(disks: Seq<DiskInfo>) -> Seq<(Seq<char>, u64, u64)> {
    disks.map_values(|d: DiskInfo| (d.mount@, d.total, d.available))
}

/// The disks with their ASCII mount points in upper case.
pub open spec fn disks_model_ascii_upper(disks: Seq<DiskInfo>) -> Seq<(Seq<char>, u64, u64)> {
    disks.map_values(|d: DiskInfo| (ascii_uppercase(d.mount@), d.total, d.available))
}

/// Every mount point is ASCII text.
pub open spec fn ascii_mounts(disks: Seq<DiskInfo>) -> bool {
    forall|j: int| 0 <= j < disks.len() ==> is_ascii_chars(#[trigger] disks[j].mount@)
}

/// The disks with their mount points in upper case.
pub open spec fn disks_model_upper(disks: Seq<DiskInfo>) -> Seq<(Seq<char>, u64, u64)> {
    disks.map_values(|d: DiskInfo| (uppercase_of(d.mount@), d.total, d.available))
}

fn starts_with_drive_c(s: &str) -> (r: bool)
    ensures
        r == is_system_mount(s@),
{
    let n = s.unicode_len();
    n >= 2 && s.get_char(0) == 'C' && s.get_char(1) == ':'
}

/// No mount point names drive C.
pub open spec fn no_system_mount(m: Seq<(Seq<char>, u64, u64)>) -> bool {
    forall|j: int| 0 <= j < m.len() ==> !is_system_mount(#[trigger] m[j].0)
}

proof fn lemma_pick_largest(m: Seq<(Seq<char>, u64, u64)>, i: int, best: Option<(u64, u64)>, k: int) -> (k2: int)
    requires
        0 <= i <= m.len(),
        no_system_mount(m),
        best is None <==> i == 0,
        best is Some ==> {
            &&& 0 <= k < i
            &&& m[k].1 == best.unwrap().1
            &&& best.unwrap().0 == used_spec(m[k].1, m[k].2)
            &&& forall|j: int| 0 <= j < k ==> #[trigger] m[j].1 < best.unwrap().1
            &&& forall|j: int| 0 <= j < i ==> #[trigger] m[j].1 <= best.unwrap().1
        },
    ensures
        m.len() > 0 ==> {
            &&& 0 <= k2 < m.len()
            &&& pick_from(m, i, best) == Some((used_spec(m[k2].1, m[k2].2), m[k2].1))
            &&& forall|j: int| 0 <= j < k2 ==> #[trigger] m[j].1 < m[k2].1
            &&& forall|j: int| 0 <= j < m.len() ==> #[trigger] m[j].1 <= m[k2].1
        },
    decreases m.len() - i,
{
    if i >= m.len() {
        k
    } else {
        assert(!is_system_mount(m[i].0));
        let total = m[i].1;
        if best is None || total > best.unwrap().1 {
            let cand = Some((used_spec(total, m[i].2), total));
            lemma_pick_largest(m, i + 1, cand, i)
        } else {
            lemma_pick_largest(m, i + 1, best, k)
        }
    }
}

/// With no disk on drive C, the reported disk is a largest one, and of several largest the
/// first: its total is at least every disk's total and above every earlier disk's, and its
/// used space is that disk's total less what is available (0 at least). With no disks at
/// all, nothing is reported.
pub proof fn law_largest_disk_reported(m: Seq<(Seq<char>, u64, u64)>) -> (k: int)
    requires
        no_system_mount(m),
    ensures
        m.len() == 0 ==> pick_from(m, 0, None) is None,
        m.len() > 0 ==> {
            &&& 0 <= k < m.len()
            &&& pick_from(m, 0, None) == Some((used_spec(m[k].1, m[k].2), m[k].1))
            &&& forall|j: int| 0 <= j < m.len() ==> #[trigger] m[j].1 <= m[k].1
            &&& forall|j: int| 0 <= j < k ==> #[trigger] m[j].1 < m[k].1
        },
{
    lemma_pick_largest(m, 0, None, 0)
}

proof fn lemma_pick_system(m: Seq<(Seq<char>, u64, u64)>, i: int, best: Option<(u64, u64)>, s: int)
    requires
        0 <= i <= s < m.len(),
        is_system_mount(m[s].0),
        forall|j: int| 0 <= j < s ==> !is_system_mount(#[trigger] m[j].0),
    ensures
        pick_from(m, i, best) == Some((used_spec(m[s].1, m[s].2), m[s].1)),
    decreases m.len() - i,
{
    if i < s {
        assert(!is_system_mount(m[i].0));
        let total = m[i].1;
        if best is None || total > best.unwrap().1 {
            lemma_pick_system(m, i + 1, Some((used_spec(total, m[i].2), total)), s);
        } else {
            lemma_pick_system(m, i + 1, best, s);
        }
    }
}

/// When some disk is mounted on drive C, the first such disk is reported, whatever the
/// sizes of the others.
pub proof fn law_system_disk_reported(m: Seq<(Seq<char>, u64, u64)>, s: int)
    requires
        0 <= s < m.len(),
        is_system_mount(m[s].0),
        forall|j: int| 0 <= j < s ==> !is_system_mount(#[trigger] m[j].0),
    ensures
        pick_from(m, 0, None) == Some((used_spec(m[s].1, m[s].2), m[s].1)),
{
    lemma_pick_system(m, 0, None, s);
}

/// The used space of a disk never exceeds its total, and is the total less what is
/// available whenever that is no more than the total.
pub proof fn law_used_space(total: u64, available: u64)
    ensures
        used_spec(total, available) <= total,
        available <= total ==> used_spec(total, available) + available == total,
        available >= total ==> used_spec(total, available) == 0,
{
}

/// The disk to report among disks whose mount points are already in upper case.
pub fn pick_disk_uppercased(disks: &Vec<DiskInfo>) -> (r: Option<(u64, u64)>)
    ensures
        r == pick_from(disks_model(disks@), 0, None),
{
    let ghost m = disks_model(disks@);
    let n = disks.len();
    let mut best: Option<(u64, u64)> = None;
    let mut i: usize = 0;
    while i < n
        invariant
            n == disks@.len(),
            m == disks_model(disks@),
            i <= n,
            pick_from(m, 0, None) == pick_from(m, i as int, best),
        decreases n - i,
    {
        let d = &disks[i];
        assert(m[i as int] == (d.mount@, d.total, d.available));
        let used: u64 = d.total.saturating_sub(d.available);
        if starts_with_drive_c(d.mount.as_str()) {
            return Some((used, d.total));
        }
        let replace = match best {
            None => true,
            Some((_, t)) => d.total > t,
        };
        if replace {
            best = Some((used, d.total));
        }
        i = i + 1;
    }
    best
}

/// The disk to report, as (used, total): the first one mounted on drive C (mount point
/// compared in upper case), else the first of the largest; `None` for no disks.
pub fn pick_disk(disks: &Vec<DiskInfo>) -> (r: Option<(u64, u64)>)
    ensures
        r == pick_from(disks_model_upper(disks@), 0, None),
        ascii_mounts(disks@) ==> r == pick_from(disks_model_ascii_upper(disks@), 0, None),
{
    let n = disks.len();
    let mut upper: Vec<DiskInfo> = Vec::new();
    let mut i: usize = 0;
    while i < n
        invariant
            n == disks@.len(),
            i <= n,
            upper.len() == i,
            forall|j: int| 0 <= j < i ==> #[trigger] disks_model(upper@)[j] == disks_model_upper(disks@)[j],
            ascii_mounts(disks@) ==> forall|j: int| 0 <= j < i ==> #[trigger] disks_model(upper@)[j]
                == disks_model_ascii_upper(disks@)[j],
        decreases n - i,
    {
        let d = &disks[i];
        let ghost prev = upper@;
        let up = to_uppercase(d.mount.as_str());
        let entry = DiskInfo { mount: up, total: d.total, available: d.available };
        assert(entry.mount@ == uppercase_of(disks@[i as int].mount@));
        upper.push(entry);
        proof {
            assert forall|j: int| 0 <= j < i + 1 implies #[trigger] disks_model(upper@)[j] == disks_model_upper(disks@)[j] by {
                if j < i {
                    assert(upper@[j] == prev[j]);
                    assert(disks_model(prev)[j] == disks_model_upper(disks@)[j]);
                } else {
                    assert(upper@[j] == entry);
                }
            }
            if ascii_mounts(disks@) {
                assert(is_ascii_chars(disks@[i as int].mount@));
                assert forall|j: int| 0 <= j < i + 1 implies #[trigger] disks_model(upper@)[j]
                    == disks_model_ascii_upper(disks@)[j] by {
                    if j < i {
                        assert(upper@[j] == prev[j]);
                        assert(disks_model(prev)[j] == disks_model_ascii_upper(disks@)[j]);
                    } else {
                        assert(upper@[j] == entry);
                    }
                }
            }
        }
        i = i + 1;
    }
    assert(disks_model(upper@) =~= disks_model_upper(disks@));
    assert(ascii_mounts(disks@) ==> disks_model(upper@) =~= disks_model_ascii_upper(disks@));
    pick_disk_uppercased(&upper)
}

/// The charge that the batteries report: the first one that is known.
pub open spec fn first_charge_spec(readings: Seq<Option<u16>>) -> Option<u16>
    decreases readings.len(),
{
    if readings.len() == 0 {
        None
    } else if readings[0] is Some {
        readings[0]
    } else {
        first_charge_spec(readings.drop_first())
    }
}

/// The first known battery charge.
pub fn first_charge(readings: &Vec<Option<u16>>) -> (r: Option<u16>)
    ensures
        r == first_charge_spec(readings@),
{
    let n = readings.len();
    let mut i: usize = 0;
    assert(readings@.subrange(0, n as int) =~= readings@);
    while i < n
        invariant
            n == readings@.len(),
            i <= n,
            first_charge_spec(readings@) == first_charge_spec(readings@.subrange(i as int, n as int)),
        decreases n - i,
    {
        assert(readings@.subrange(i as int, n as int).drop_first() =~= readings@.subrange(i + 1, n as int));
        if readings[i].is_some() {
            return readings[i];
        }
        i = i + 1;
    }
    None
}

/// The sum of the received (`.0`) or sent (`.1`) byte counts.
pub open spec fn traffic_sum(samples: Seq<(u64, u64)>, sent: bool) -> int
    decreases samples.len(),
{
    if samples.len() == 0 {
        0
    } else {
        traffic_sum(samples.drop_last(), sent) + if sent { samples.last().1 as int } else { samples.last().0 as int }
    }
}

proof fn lemma_traffic_monotone(samples: Seq<(u64, u64)>, i: int, sent: bool)
    requires
        0 <= i <= samples.len(),
    ensures
        traffic_sum(samples.subrange(0, i), sent) <= traffic_sum(samples, sent),
    decreases samples.len(),
{
    if i < samples.len() {
        lemma_traffic_monotone(samples.drop_last(), i, sent);
        assert(samples.drop_last().subrange(0, i) =~= samples.subrange(0, i));
    } else {
        assert(samples.subrange(0, i) =~= samples);
    }
}

/// The bytes received and sent over all network interfaces since the last refresh.
pub fn total_traffic(samples: &Vec<(u64, u64)>) -> (r: (u64, u64))
    requires
        traffic_sum(samples@, false) <= u64::MAX,
        traffic_sum(samples@, true) <= u64::MAX,
    ensures
        r.0 == traffic_sum(samples@, false),
        r.1 == traffic_sum(samples@, true),
{
    let n = samples.len();
    let mut rx: u64 = 0;
    let mut tx: u64 = 0;
    let mut i: usize = 0;
    while i < n
        invariant
            n == samples@.len(),
            i <= n,
            traffic_sum(samples@, false) <= u64::MAX,
            traffic_sum(samples@, true) <= u64::MAX,
            rx == traffic_sum(samples@.subrange(0, i as int), false),
            tx == traffic_sum(samples@.subrange(0, i as int), true),
        decreases n - i,
    {
        proof {
            assert(samples@.subrange(0, i + 1).drop_last() =~= samples@.subrange(0, i as int));
            lemma_traffic_monotone(samples@, i + 1, false);
            lemma_traffic_monotone(samples@, i + 1, true);
        }
        rx = rx + samples[i].0;
        tx = tx + samples[i].1;
        i = i + 1;
    }
    proof {
        assert(samples@.subrange(0, n as int) =~= samples@);
    }
    (rx, tx)
}

/// The samples and readings that the dashboard keeps between refreshes.
pub struct Stats {
    pub disk_used: u64,
    pub disk_total: u64,
    pub battery: Option<u16>,
    pub cpu_hist: VecDeque<u64>,
    pub net_hist: VecDeque<u64>,
}

impl Stats {
    /// The state at start: no disk known yet and full histories of zeros, then the disks
    /// read once.
    pub fn new(disks: &Vec<DiskInfo>) -> (s: Stats)
        ensures
            s.cpu_hist@ == Seq::new(HIST as nat, |_i: int| 0u64),
            s.net_hist@ == Seq::new(HIST as nat, |_i: int| 0u64),
            s.battery is None,
            (s.disk_used, s.disk_total) == match pick_from(disks_model_upper(disks@), 0, None) {
                Some(p) => p,
                None => (0u64, 0u64),
            },
    {
        let mut s = Stats {
            disk_used: 0,
            disk_total: 0,
            battery: None,
            cpu_hist: zero_history(),
            net_hist: zero_history(),
        };
        s.refresh_disk(disks);
        s
    }

    /// Reads the disks again: the chosen disk's usage replaces the old one; with no disk
    /// the old values stay.
    pub fn refresh_disk(&mut self, disks: &Vec<DiskInfo>)
        ensures
            (final(self).disk_used, final(self).disk_total) == match pick_from(disks_model_upper(disks@), 0, None) {
                Some(p) => p,
                None => (old(self).disk_used, old(self).disk_total),
            },
            final(self).battery == old(self).battery,
            final(self).cpu_hist@ == old(self).cpu_hist@,
            final(self).net_hist@ == old(self).net_hist@,
    {
        if let Some((u, t)) = pick_disk(disks) {
            self.disk_used = u;
            self.disk_total = t;
        }
    }

    /// One refresh of the samples: the battery charge when the batteries could be read
    /// (else the old one stays), and a new processor and network sample in the histories.
    pub fn tick(&mut self, batteries: &Option<Vec<Option<u16>>>, cpu_sample: u64, net_sample: u64)
        ensures
            final(self).battery == match batteries {
                Some(b) => first_charge_spec(b@),
                None => old(self).battery,
            },
            final(self).cpu_hist@ == push_spec(old(self).cpu_hist@, cpu_sample),
            final(self).net_hist@ == push_spec(old(self).net_hist@, net_sample),
            final(self).disk_used == old(self).disk_used,
            final(self).disk_total == old(self).disk_total,
    {
        if let Some(b) = batteries {
            self.battery = first_charge(b);
        }
        push(&mut self.cpu_hist, cpu_sample);
        push(&mut self.net_hist, net_sample);
    }
}

/// A panel of the dashboard's right column.
#[derive(Clone, Copy, Debug, PartialEq, Eq, Structural)]
pub enum Meter {
    Cpu,
    Ram,
    Disk,
    Net,
    Palette,
}

/// A panel when it is on.
pub open spec fn row_if(on: bool, m: Meter, h: u16) -> Seq<(Meter, u16)> {
    if on { seq![(m, h)] } else { Seq::empty() }
}

/// The panels of the right column with their heights, in their fixed order, each one
/// present exactly when its section is on.
pub open spec fn meter_rows_spec(s: Sections) -> Seq<(Meter, u16)> {
    row_if(s.cpu, Meter::Cpu, 10) + row_if(s.ram, Meter::Ram, 3) + row_if(s.disk, Meter::Disk, 3)
        + row_if(s.net, Meter::Net, 8) + row_if(s.palette, Meter::Palette, 3)
}

/// The panels of the right column with their heights.
pub fn meter_rows(s: &Sections) -> (r: Vec<(Meter, u16)>)
    ensures
        r@ == meter_rows_spec(*s),
{
    let mut kinds: Vec<(Meter, u16)> = Vec::new();
    if s.cpu {
        kinds.push((Meter::Cpu, 10));
    }
    if s.ram {
        kinds.push((Meter::Ram, 3));
    }
    if s.disk {
        kinds.push((Meter::Disk, 3));
    }
    if s.net {
        kinds.push((Meter::Net, 8));
    }
    if s.palette {
        kinds.push((Meter::Palette, 3));
    }
    assert(kinds@ =~= meter_rows_spec(*s));
    kinds
}

/// Any panel set to false is removed from the layout, and every other one is in it.
pub proof fn law_panels_follow_sections(s: Sections)
    ensures
        s.cpu <==> meter_rows_spec(s).contains((Meter::Cpu, 10u16)),
        s.ram <==> meter_rows_spec(s).contains((Meter::Ram, 3u16)),
        s.disk <==> meter_rows_spec(s).contains((Meter::Disk, 3u16)),
        s.net <==> meter_rows_spec(s).contains((Meter::Net, 8u16)),
        s.palette <==> meter_rows_spec(s).contains((Meter::Palette, 3u16)),
        forall|j: int| 0 <= j < meter_rows_spec(s).len() ==> match #[trigger] meter_rows_spec(s)[j].0 {
            Meter::Cpu => s.cpu,
            Meter::Ram => s.ram,
            Meter::Disk => s.disk,
            Meter::Net => s.net,
            Meter::Palette => s.palette,
        },
{
    let a = row_if(s.cpu, Meter::Cpu, 10);
    let b = row_if(s.ram, Meter::Ram, 3);
    let c = row_if(s.disk, Meter::Disk, 3);
    let d = row_if(s.net, Meter::Net, 8);
    let e = row_if(s.palette, Meter::Palette, 3);
    let r = meter_rows_spec(s);
    assert(r == a + b + c + d + e);
    let la = a.len() as int;
    let lb = la + b.len();
    let lc = lb + c.len();
    let ld = lc + d.len();
    assert forall|j: int| 0 <= j < r.len() implies match #[trigger] r[j].0 {
        Meter::Cpu => s.cpu,
        Meter::Ram => s.ram,
        Meter::Disk => s.disk,
        Meter::Net => s.net,
        Meter::Palette => s.palette,
    } by {
        if j < la {
            assert(r[j] == a[j]);
        } else if j < lb {
            assert(r[j] == b[j - la]);
        } else if j < lc {
            assert(r[j] == c[j - lb]);
        } else if j < ld {
            assert(r[j] == d[j - lc]);
        } else {
            assert(r[j] == e[j - ld]);
        }
    }
    if s.cpu {
        assert(r[0] == (Meter::Cpu, 10u16));
    }
    if s.ram {
        assert(r[la] == (Meter::Ram, 3u16));
    }
    if s.disk {
        assert(r[lb] == (Meter::Disk, 3u16));
    }
    if s.net {
        assert(r[lc] == (Meter::Net, 8u16));
    }
    if s.palette {
        assert(r[ld] == (Meter::Palette, 3u16));
    }
}

/// A key that the dashboard sees.
#[derive(Clone, Copy, Debug, PartialEq, Eq, Structural)]
pub enum Key {
    Char(char),
    Esc,
    Other,
}

/// Whether a key event ends the dashboard: a press of `q`, `Q` or Escape.
pub open spec fn quits_spec(key: Key, press: bool) -> bool {
    press && (key == Key::Char('q') || key == Key::Char('Q') || key == Key::Esc)
}

/// Whether a key event ends the dashboard.
pub fn quits(key: Key, press: bool) -> (r: bool)
    ensures
        r == quits_spec(key, press),
{
    if press {
        match key {
            Key::Char(c) => c == 'q' || c == 'Q',
            Key::Esc => true,
            Key::Other => false,
        }
    } else {
        false
    }
}


/// The reported charge is the first known one: it is `None` exactly when no battery
/// reports a charge, and otherwise the charge of a battery before which none reports one.
pub proof fn law_first_known_charge(readings: Seq<Option<u16>>) -> (k: int)
    ensures
        first_charge_spec(readings) is None <==> forall|j: int| 0 <= j < readings.len() ==> #[trigger] readings[j] is None,
        first_charge_spec(readings) is Some ==> {
            &&& 0 <= k < readings.len()
            &&& readings[k] == first_charge_spec(readings)
            &&& forall|j: int| 0 <= j < k ==> #[trigger] readings[j] is None
        },
    decreases readings.len(),
{
    if readings.len() == 0 {
        0
    } else if readings[0] is Some {
        0
    } else {
        let rest = readings.drop_first();
        let k2 = law_first_known_charge(rest);
        assert forall|j: int| 0 <= j < readings.len() && first_charge_spec(readings) is None implies
            #[trigger] readings[j] is None by {
            if j > 0 {
                assert(readings[j] == rest[j - 1]);
            }
        }
        if (forall|j: int| 0 <= j < readings.len() ==> #[trigger] readings[j] is None) {
            assert(forall|j: int| 0 <= j < rest.len() ==> #[trigger] rest[j] == readings[j + 1]);
        }
        if first_charge_spec(readings) is Some {
            assert forall|j: int| 0 <= j < k2 + 1 implies #[trigger] readings[j] is None by {
                if j > 0 {
                    assert(readings[j] == rest[j - 1]);
                }
            }
        }
        k2 + 1
    }
}

/// The reported graphics adapter is the first one with a name: its name and resolution
/// when one has a name, and `Unknown` with `-` when none has.
pub proof fn law_first_named_adapter(vs: Seq<VideoInfo>) -> (k: int)
    ensures
        (forall|j: int| 0 <= j < vs.len() ==> #[trigger] vs[j].name is None) ==> gpu_spec(vs) == ("Unknown"@, "-"@),
        !(forall|j: int| 0 <= j < vs.len() ==> #[trigger] vs[j].name is None) ==> {
            &&& 0 <= k < vs.len()
            &&& vs[k].name is Some
            &&& gpu_spec(vs) == (vs[k].name.unwrap()@, resolution_spec(vs[k]))
            &&& forall|j: int| 0 <= j < k ==> #[trigger] vs[j].name is None
        },
    decreases vs.len(),
{
    if vs.len() == 0 {
        0
    } else if vs[0].name is Some {
        0
    } else {
        let rest = vs.drop_first();
        let k2 = law_first_named_adapter(rest);
        if (forall|j: int| 0 <= j < vs.len() ==> #[trigger] vs[j].name is None) {
            assert(forall|j: int| 0 <= j < rest.len() ==> #[trigger] rest[j] == vs[j + 1]);
        } else {
            let w = choose|j: int| 0 <= j < vs.len() && !(#[trigger] vs[j].name is None);
            assert(rest[w - 1] == vs[w]);
            assert forall|j: int| 0 <= j < k2 + 1 implies #[trigger] vs[j].name is None by {
                if j > 0 {
                    assert(vs[j] == rest[j - 1]);
                }
            }
        }
        k2 + 1
    }
}

/// An adapter's resolution is shown as width `x` height exactly when both are known and
/// positive; otherwise `-`.
pub proof fn law_resolution_shown_when_known(v: VideoInfo)
    ensures
        v.width is Some && v.height is Some && v.width.unwrap() > 0 && v.height.unwrap() > 0
            ==> resolution_spec(v) == dec(v.width.unwrap() as nat) + "x"@ + dec(v.height.unwrap() as nat),
        !(v.width is Some && v.height is Some && v.width.unwrap() > 0 && v.height.unwrap() > 0)
            ==> resolution_spec(v) == "-"@,
{
}

/// A key ends the dashboard exactly when it is pressed and is `q`, `Q` or Escape.
pub proof fn law_quit_keys(c: char, press: bool)
    ensures
        quits_spec(Key::Char(c), press) <==> press && (c == 'q' || c == 'Q'),
        quits_spec(Key::Esc, press) <==> press,
        !quits_spec(Key::Other, press),
{
}

} // verus!
