use vstd::prelude::*;

use crate::sysinfo::{DiskUsage, GpuType, gb_tenths, gpu_name, percent, percent_of};
use crate::text::{decimal, push_decimal, push_signed_tenths, push_tenths, signed_tenths, tenths};

verus! {

/// One value sampled in a tick; each is absent on its own where its source failed.
pub struct MetricsFrame {
    pub cpu_core_count: usize,
    /// Tenths of a percent of non-idle CPU time, at most 1000.
    pub cpu_usage: Option<u64>,
    /// Millidegrees Celsius.
    pub cpu_temp: Option<i64>,
    /// Megabytes, `(used, total)`.
    pub ram: Option<(u64, u64)>,
    pub disk: Option<DiskUsage>,
    /// Vendor and degrees Celsius.
    pub gpu: Option<(GpuType, i32)>,
}

/// A labeled value; `available` is false where it shows the placeholder.
pub struct TextLine {
    pub label: String,
    pub value: String,
    pub available: bool,
}

/// A 0 to 100 proportion indicator with its caption.
pub struct Meter {
    pub label: String,
    pub percent: u16,
}

/// A bordered, titled region of the display.
pub struct Panel {
    pub title: String,
    pub lines: Vec<TextLine>,
    pub meter: Option<Meter>,
}

/// Everything one tick paints: a title strip, four metric panels and a footer.
pub struct Dashboard {
    pub title: String,
    pub cpu: Panel,
    pub ram: Panel,
    pub gpu: Panel,
    pub disk: Panel,
    pub footer: String,
}

/// What an absent metric shows, never a number.
pub open spec fn placeholder() -> Seq<char> {
    "N/A"@
}

/// `a / b` rounded to the nearest integer, halves away from zero.
pub open spec fn div_round(a: int, b: int) -> int {
    if a >= 0 { (a + b / 2) / b } else { -((-a + b / 2) / b) }
}

/// Millidegrees shown in degrees with one decimal place, rounded.
pub open spec fn cpu_temp_text(t: Option<i64>) -> Seq<char> {
    match t {
        Some(m) => signed_tenths(div_round(m as int, 100)) + " °C"@,
        None => placeholder(),
    }
}

pub open spec fn usage_text(u: Option<u64>) -> Seq<char> {
    "Usage: "@ + match u {
        Some(p) => tenths(p as nat) + "%"@,
        None => placeholder(),
    }
}

pub open spec fn usage_percent(u: Option<u64>) -> nat {
    match u {
        Some(p) => if p <= 1000 { p as nat / 10 } else { 0 },
        None => 0,
    }
}

pub open spec fn ram_text(ram: Option<(u64, u64)>) -> Seq<char> {
    match ram {
        Some((u, t)) => decimal(u as nat) + ".0MB / "@ + decimal(t as nat) + ".0MB"@,
        None => placeholder(),
    }
}

pub open spec fn ram_percent(ram: Option<(u64, u64)>) -> nat {
    match ram {
        Some((u, t)) => percent_of(u as nat, t as nat),
        None => 0,
    }
}

pub open spec fn disk_text(disk: Option<DiskUsage>) -> Seq<char> {
    match disk {
        Some(d) => tenths(gb_tenths(d.used_kb as nat)) + "GB / "@ + tenths(gb_tenths(d.total_kb as nat)) + "GB"@,
        None => placeholder(),
    }
}

pub open spec fn disk_percent(disk: Option<DiskUsage>) -> nat {
    match disk {
        Some(d) => percent_of(d.used_kb as nat, d.total_kb as nat),
        None => 0,
    }
}

pub open spec fn gpu_temp_text(t: int) -> Seq<char> {
    signed_tenths(t * 10) + " °C"@
}

pub open spec fn line_shows(l: TextLine, label: Seq<char>, value: Seq<char>, available: bool) -> bool {
    l.label@ == label && l.value@ == value && l.available == available
}

pub open spec fn meter_shows(m: Option<Meter>, label: Seq<char>, percent: nat) -> bool {
    match m {
        Some(g) => g.label@ == label && g.percent as nat == percent,
        None => false,
    }
}

/// The CPU panel: core count, temperature, and a usage meter.
pub open spec fn cpu_panel_shows(p: Panel, f: MetricsFrame) -> bool {
    &&& p.title@ == " 💻 CPU "@
    &&& p.lines@.len() == 2
    &&& line_shows(p.lines@[0], "Cores: "@, decimal(f.cpu_core_count as nat), true)
    &&& line_shows(p.lines@[1], "Temp:  "@, cpu_temp_text(f.cpu_temp), f.cpu_temp is Some)
    &&& meter_shows(p.meter, usage_text(f.cpu_usage), usage_percent(f.cpu_usage))
}

/// The RAM panel: a meter of used over total megabytes.
pub open spec fn ram_panel_shows(p: Panel, f: MetricsFrame) -> bool {
    &&& p.title@ == " 🧠 RAM "@
    &&& p.lines@.len() == 0
    &&& meter_shows(p.meter, ram_text(f.ram), ram_percent(f.ram))
}

/// The GPU panel: vendor and temperature, or one placeholder line.
pub open spec fn gpu_panel_shows(p: Panel, f: MetricsFrame) -> bool {
    &&& p.title@ == " 🎮 GPU "@
    &&& p.meter is None
    &&& match f.gpu {
        Some((g, t)) => p.lines@.len() == 2
            && line_shows(p.lines@[0], "Type: "@, gpu_name(g), true)
            && line_shows(p.lines@[1], "Temp: "@, gpu_temp_text(t as int), true),
        None => p.lines@.len() == 1 && line_shows(p.lines@[0], ""@, placeholder(), false),
    }
}

/// The disk panel: a meter of used over total gigabytes.
pub open spec fn disk_panel_shows(p: Panel, f: MetricsFrame) -> bool {
    &&& p.title@ == " 💾 DISK "@
    &&& p.lines@.len() == 0
    &&& meter_shows(p.meter, disk_text(f.disk), disk_percent(f.disk))
}

fn text_line(label: &str, value: String, available: bool) -> (r: TextLine)
    ensures
        line_shows(r, label@, value@, available),
{
    TextLine { label: String::from_str(label), value, available }
}

fn placeholder_string() -> (r: String)
    ensures
        r@ == placeholder(),
{
    String::from_str("N/A")
}

fn cpu_panel(f: &MetricsFrame) -> (r: Panel)
    ensures
        cpu_panel_shows(r, *f),
{
    let mut cores = String::new();
    push_decimal(&mut cores, f.cpu_core_count as u64);
    let temp = match f.cpu_temp {
        Some(m) => {
            let mut s = String::new();
            let t: i64 = if m >= 0 {
                ((m as i128 + 50) / 100) as i64
            } else {
                -((((-(m as i128)) + 50) / 100) as i64)
            };
            assert(t as int == div_round(m as int, 100));
            push_signed_tenths(&mut s, t);
            s.append(" °C");
            assert(s@ == cpu_temp_text(f.cpu_temp));
            s
        },
        None => placeholder_string(),
    };
    let mut label = String::from_str("Usage: ");
    let ghost head = label@;
    let pct: u16 = match f.cpu_usage {
        Some(p) => {
            push_tenths(&mut label, p);
            label.append("%");
            assert(label@ == head + (tenths(p as nat) + "%"@));
            if p <= 1000 { (p / 10) as u16 } else { 0 }
        },
        None => {
            label.append("N/A");
            0
        },
    };
    assert(label@ == usage_text(f.cpu_usage));
    let mut lines: Vec<TextLine> = Vec::new();
    lines.push(text_line("Cores: ", cores, true));
    lines.push(text_line("Temp:  ", temp, f.cpu_temp.is_some()));
    Panel { title: String::from_str(" 💻 CPU "), lines, meter: Some(Meter { label, percent: pct }) }
}

fn ram_panel(f: &MetricsFrame) -> (r: Panel)
    ensures
        ram_panel_shows(r, *f),
{
    let (label, pct) = match f.ram {
        Some((used, total)) => {
            let mut s = String::new();
            push_decimal(&mut s, used);
            s.append(".0MB / ");
            push_decimal(&mut s, total);
            s.append(".0MB");
            (s, percent(used, total))
        },
        None => (placeholder_string(), 0),
    };
    Panel { title: String::from_str(" 🧠 RAM "), lines: Vec::new(), meter: Some(Meter { label, percent: pct }) }
}

fn gpu_panel(f: &MetricsFrame) -> (r: Panel)
    ensures
        gpu_panel_shows(r, *f),
{
    let mut lines: Vec<TextLine> = Vec::new();
    match f.gpu {
        Some((g, t)) => {
            let mut temp = String::new();
            push_signed_tenths(&mut temp, t as i64 * 10);
            temp.append(" °C");
            lines.push(text_line("Type: ", g.name(), true));
            lines.push(text_line("Temp: ", temp, true));
        },
        None => {
            lines.push(text_line("", placeholder_string(), false));
        },
    }
    Panel { title: String::from_str(" 🎮 GPU "), lines, meter: None }
}

fn disk_panel(f: &MetricsFrame) -> (r: Panel)
    ensures
        disk_panel_shows(r, *f),
{
    let (label, pct) = match f.disk {
        Some(d) => {
            let mut s = String::new();
            push_tenths(&mut s, d.used_gb_tenths());
            s.append("GB / ");
            push_tenths(&mut s, d.total_gb_tenths());
            s.append("GB");
            (s, d.percent_used())
        },
        None => (placeholder_string(), 0),
    };
    Panel { title: String::from_str(" 💾 DISK "), lines: Vec::new(), meter: Some(Meter { label, percent: pct }) }
}

pub open spec fn title_text() -> Seq<char> {
    "📟 YOINKY :: SYSTEM MONITOR 📟"@
}

pub open spec fn footer_text() -> Seq<char> {
    "Press 'q' to quit"@
}

/// Lays one metrics frame out as the dashboard: every metric has its labeled
/// panel, showing its value or the placeholder.
pub fn draw_ui(f: &MetricsFrame) -> (r: Dashboard)
    ensures
        r.title@ == title_text(),
        cpu_panel_shows(r.cpu, *f),
        ram_panel_shows(r.ram, *f),
        gpu_panel_shows(r.gpu, *f),
        disk_panel_shows(r.disk, *f),
        r.footer@ == footer_text(),
{
    Dashboard {
        title: String::from_str("📟 YOINKY :: SYSTEM MONITOR 📟"),
        cpu: cpu_panel(f),
        ram: ram_panel(f),
        gpu: gpu_panel(f),
        disk: disk_panel(f),
        footer: String::from_str("Press 'q' to quit"),
    }
}

/// A frame where every optional metric is absent still gives every panel its
/// title, and each metric its placeholder, with empty meters.
pub proof fn lemma_absent_frame_placeholders(f: MetricsFrame, d: Dashboard)
    requires
        f.cpu_usage is None,
        f.cpu_temp is None,
        f.ram is None,
        f.disk is None,
        f.gpu is None,
        cpu_panel_shows(d.cpu, f),
        ram_panel_shows(d.ram, f),
        gpu_panel_shows(d.gpu, f),
        disk_panel_shows(d.disk, f),
    ensures
        d.cpu.title@.len() > 0 && d.ram.title@.len() > 0,
        d.gpu.title@.len() > 0 && d.disk.title@.len() > 0,
        d.cpu.lines@[1].value@ == placeholder() && !d.cpu.lines@[1].available,
        meter_shows(d.cpu.meter, "Usage: "@ + placeholder(), 0),
        meter_shows(d.ram.meter, placeholder(), 0),
        d.gpu.lines@.len() == 1 && d.gpu.lines@[0].value@ == placeholder(),
        meter_shows(d.disk.meter, placeholder(), 0),
{
    reveal_strlit(" 💻 CPU ");
    reveal_strlit(" 🧠 RAM ");
    reveal_strlit(" 🎮 GPU ");
    reveal_strlit(" 💾 DISK ");
}

} // verus!
