use vstd::prelude::*;

use crate::text::{
    first_line, first_line_end, i64_value, last_line, last_line_start, parse_i64, parse_u64,
    split_words, u64_value, views, without_final_break, words,
};

verus! {

/// The vendor of the first GPU of the machine.
#[derive(Clone, Copy, Debug, PartialEq, Eq, Structural)]
pub enum GpuType {
    Nvidia,
    Amd,
    Unknown,
}

pub open spec fn gpu_name(g: GpuType) -> Seq<char> {
    match g {
        GpuType::Nvidia => "Nvidia"@,
        GpuType::Amd => "Amd"@,
        GpuType::Unknown => "Unknown"@,
    }
}

impl GpuType {
    /// The vendor's name as the dashboard shows it.
    pub fn name(&self) -> (r: String)
        ensures
            r@ == gpu_name(*self),
    {
        match self {
            GpuType::Nvidia => String::from_str("Nvidia"),
            GpuType::Amd => String::from_str("Amd"),
            GpuType::Unknown => String::from_str("Unknown"),
        }
    }
}

/// AMD's PCI vendor id as the DRM vendor file writes it: `0x1002`.
pub open spec fn amd_vendor_id() -> Seq<u8> {
    seq![48u8, 120u8, 49u8, 48u8, 48u8, 50u8]
}

/// Classification from the NVIDIA driver marker and the DRM vendor file's content,
/// `None` where that file could not be read.
pub open spec fn gpu_type_of(nvidia_marker: bool, vendor: Option<Seq<u8>>) -> GpuType {
    if nvidia_marker {
        GpuType::Nvidia
    } else {
        match vendor {
            Some(v) => if words(v) == seq![amd_vendor_id()] { GpuType::Amd } else { GpuType::Unknown },
            None => GpuType::Unknown,
        }
    }
}

pub open spec fn opt_view(o: Option<&[u8]>) -> Option<Seq<u8>> {
    match o {
        Some(v) => Some(v@),
        None => None,
    }
}

fn is_amd_vendor(content: &[u8]) -> (r: bool)
    ensures
        r == (words(content@) == seq![amd_vendor_id()]),
{
    assert(content@.subrange(0, content@.len() as int) == content@);
    let w = split_words(content, 0, content.len());
    if w.len() != 1 {
        assert(views(w@).len() == w@.len());
        return false;
    }
    let id = w[0].as_slice();
    assert(views(w@)[0] == id@);
    let r = id.len() == 6 && id[0] == 48 && id[1] == 120 && id[2] == 49 && id[3] == 48
        && id[4] == 48 && id[5] == 50;
    if r {
        assert(id@ == amd_vendor_id());
        assert(views(w@) == seq![amd_vendor_id()]);
    } else {
        assert(id@ != amd_vendor_id());
        assert(views(w@)[0] != seq![amd_vendor_id()][0]);
    }
    r
}

/// Tells the GPU vendor from whether the NVIDIA driver marker exists and from
/// the content of the DRM device's vendor file (`None` where it is unreadable).
pub fn get_gpu_type(nvidia_marker: bool, vendor: Option<&[u8]>) -> (r: GpuType)
    ensures
        r == gpu_type_of(nvidia_marker, opt_view(vendor)),
{
    if nvidia_marker {
        GpuType::Nvidia
    } else {
        match vendor {
            Some(v) => if is_amd_vendor(v) { GpuType::Amd } else { GpuType::Unknown },
            None => GpuType::Unknown,
        }
    }
}

/// Share of non-idle time in tenths of a percent, rounded to the nearest
/// tenth, halves up.
pub open spec fn usage_permille(user: nat, nice: nat, system: nat, idle: nat) -> Option<nat> {
    let total = user + nice + system + idle;
    if total == 0 {
        None
    } else {
        Some(((total - idle) * 1000 + total / 2) as nat / total)
    }
}

/// CPU usage since boot from the text of `/proc/stat`: the first line's
/// user, nice, system and idle counters.
pub open spec fn cpu_usage_of(stat: Seq<u8>) -> Option<nat> {
    let w = words(first_line(stat));
    if w.len() < 5 {
        None
    } else {
        match (u64_value(w[1]), u64_value(w[2]), u64_value(w[3]), u64_value(w[4])) {
            (Some(a), Some(b), Some(c), Some(d)) => usage_permille(a as nat, b as nat, c as nat, d as nat),
            _ => None,
        }
    }
}

proof fn lemma_share_bounded(busy: nat, total: nat)
    requires
        busy <= total,
        total > 0,
    ensures
        (busy * 1000 + total / 2) / total <= 1000,
{
    let x = busy * 1000 + total / 2;
    assert(x < total * 1001) by (nonlinear_arith)
        requires busy <= total, total > 0, x == busy * 1000 + total / 2;
    assert(x / total <= 1000) by (nonlinear_arith)
        requires x < total * 1001, total > 0;
    assert(total * 1000 / total == 1000) by (nonlinear_arith)
        requires total > 0;
}

/// CPU usage since boot, in tenths of a percent, from the text of `/proc/stat`;
/// `None` where the first line is malformed or all its counters are zero.
pub fn cpu_usage(stat: &[u8]) -> (r: Option<u64>)
    ensures
        match cpu_usage_of(stat@) {
            Some(p) => r == Some(p as u64),
            None => r is None,
        },
        r matches Some(p) ==> p <= 1000,
{
    let end = first_line_end(stat);
    let w = split_words(stat, 0, end);
    let ghost ws = words(first_line(stat@));
    assert(views(w@) == ws);
    if w.len() < 5 {
        return None;
    }
    assert(views(w@)[1] == w@[1]@ && views(w@)[2] == w@[2]@);
    assert(views(w@)[3] == w@[3]@ && views(w@)[4] == w@[4]@);
    let user = match parse_u64(w[1].as_slice()) { Some(v) => v, None => return None };
    let nice = match parse_u64(w[2].as_slice()) { Some(v) => v, None => return None };
    let system = match parse_u64(w[3].as_slice()) { Some(v) => v, None => return None };
    let idle = match parse_u64(w[4].as_slice()) { Some(v) => v, None => return None };
    let total: u128 = user as u128 + nice as u128 + system as u128 + idle as u128;
    if total == 0 {
        return None;
    }
    let busy: u128 = total - idle as u128;
    proof {
        lemma_share_bounded(busy as nat, total as nat);
    }
    assert(busy * 1000 + total / 2 <= u128::MAX) by (nonlinear_arith)
        requires busy <= total, total <= 4 * 18446744073709551615u128;
    let p: u128 = (busy * 1000 + total / 2) / total;
    Some(p as u64)
}

/// A reading of whole numbers alone on their text, as `str::trim` then `parse` reads it.
pub open spec fn sole_i64(s: Seq<u8>) -> Option<i64> {
    let w = words(s);
    if w.len() == 1 {
        i64_value(w[0])
    } else {
        None
    }
}

fn read_sole_i64(content: &[u8]) -> (r: Option<i64>)
    ensures
        r == sole_i64(content@),
{
    assert(content@.subrange(0, content@.len() as int) == content@);
    let w = split_words(content, 0, content.len());
    if w.len() != 1 {
        return None;
    }
    assert(views(w@)[0] == w@[0]@);
    parse_i64(w[0].as_slice())
}

/// CPU temperature in millidegrees Celsius from the content of a thermal zone's
/// `temp` file; `None` where it is not one whole number.
pub fn cpu_temp(content: &[u8]) -> (r: Option<i64>)
    ensures
        r == sole_i64(content@),
{
    read_sole_i64(content)
}

/// A temperature reading that fits an `i32`.
pub open spec fn sole_i32(s: Seq<u8>) -> Option<int> {
    match sole_i64(s) {
        Some(v) => if i32::MIN <= v <= i32::MAX { Some(v as int) } else { None },
        None => None,
    }
}

/// Division that truncates toward zero, as Rust's `/` on integers.
pub open spec fn div_trunc(a: int, b: int) -> int {
    if a >= 0 { a / b } else { -((-a) / b) }
}

/// The temperature in degrees Celsius that a GPU probe read: for NVIDIA the
/// output of `nvidia-smi`, for AMD the millidegrees of the hwmon file.
pub open spec fn gpu_temp_of(gpu: GpuType, success: bool, output: Seq<u8>) -> Option<int> {
    match gpu {
        GpuType::Nvidia => if success { sole_i32(output) } else { None },
        GpuType::Amd => match sole_i32(output) {
            Some(m) => Some(div_trunc(m, 1000)),
            None => None,
        },
        GpuType::Unknown => None,
    }
}

pub open spec fn gpu_info_of(gpu: GpuType, probe: Option<(bool, Seq<u8>)>) -> Option<(GpuType, int)> {
    match probe {
        Some((success, out)) => match gpu_temp_of(gpu, success, out) {
            Some(t) => Some((gpu, t)),
            None => None,
        },
        None => None,
    }
}

pub open spec fn probe_view(p: Option<(bool, Vec<u8>)>) -> Option<(bool, Seq<u8>)> {
    match p {
        Some((b, v)) => Some((b, v@)),
        None => None,
    }
}

/// GPU vendor and temperature in degrees Celsius. `probe` is the outcome of the
/// vendor's probe: for `Nvidia`, whether `nvidia-smi` succeeded and its output;
/// for `Amd`, the content of the hwmon temperature file; `None` where the probe
/// could not run. An `Unknown` GPU has no temperature.
pub fn gpu_info(gpu: GpuType, probe: Option<(bool, Vec<u8>)>) -> (r: Option<(GpuType, i32)>)
    ensures
        match gpu_info_of(gpu, probe_view(probe)) {
            Some((g, t)) => r == Some((g, t as i32)),
            None => r is None,
        },
{
    if gpu == GpuType::Unknown {
        return None;
    }
    let (success, out) = match probe {
        Some(p) => p,
        None => return None,
    };
    if gpu == GpuType::Nvidia && !success {
        return None;
    }
    let v = match read_sole_i64(out.as_slice()) {
        Some(v) => v,
        None => return None,
    };
    if v < -2147483648 || v > 2147483647 {
        return None;
    }
    let t: i32 = v as i32;
    if gpu == GpuType::Nvidia {
        Some((gpu, t))
    } else {
        let d: i32 = if t >= 0 { t / 1000 } else { -((-(t as i64)) / 1000) as i32 };
        Some((gpu, d))
    }
}

/// RAM use in megabytes, `(used, total)`, from the kernel's counters in
/// bytes; `free_bytes` stands in where `MemAvailable` is missing. Where more
/// is available than there is in total, none is counted as used.
pub open spec fn ram_usage_of(total_bytes: nat, available_bytes: Option<nat>, free_bytes: nat) -> (nat, nat) {
    let total = total_bytes / 1048576;
    let available = match available_bytes {
        Some(a) => a,
        None => free_bytes,
    } / 1048576;
    (if available <= total { (total - available) as nat } else { 0 }, total)
}

pub open spec fn opt_nat(o: Option<u64>) -> Option<nat> {
    match o {
        Some(v) => Some(v as nat),
        None => None,
    }
}

/// RAM use in megabytes, `(used, total)`, from the kernel's memory counters in bytes.
pub fn ram_usage(total_bytes: u64, available_bytes: Option<u64>, free_bytes: u64) -> (r: (u64, u64))
    ensures
        (r.0 as nat, r.1 as nat) == ram_usage_of(total_bytes as nat, opt_nat(available_bytes), free_bytes as nat),
        r.0 <= r.1,
{
    let total = total_bytes / 1048576;
    let available = match available_bytes {
        Some(a) => a,
        None => free_bytes,
    } / 1048576;
    let used = if available <= total { total - available } else { 0 };
    (used, total)
}

/// Disk use in kilobytes, summed over the mounted filesystems.
#[derive(Clone, Copy, Debug, PartialEq, Eq, Structural)]
pub struct DiskUsage {
    pub used_kb: u64,
    pub total_kb: u64,
}

/// Kilobytes in one gigabyte.
pub const KB_PER_GB: u64 = 1048576;

/// `kb` in tenths of a gigabyte, rounded to the nearest tenth, halves up.
pub open spec fn gb_tenths(kb: nat) -> nat {
    (kb * 10 + KB_PER_GB as nat / 2) / KB_PER_GB as nat
}

/// The share `part / whole` in whole percent, truncated; 0 where `whole` is 0
/// or `part` exceeds it.
pub open spec fn percent_of(part: nat, whole: nat) -> nat {
    if whole == 0 || part > whole { 0 } else { part * 100 / whole }
}

proof fn lemma_percent_bounded(part: nat, whole: nat)
    requires
        part <= whole,
        whole > 0,
    ensures
        part * 100 / whole <= 100,
{
    assert(part * 100 <= whole * 100) by (nonlinear_arith)
        requires part <= whole;
    assert(part * 100 / whole <= whole * 100 / whole) by (nonlinear_arith)
        requires part * 100 <= whole * 100, whole > 0;
    assert(whole * 100 / whole == 100) by (nonlinear_arith)
        requires whole > 0;
}

/// The share `part / whole` in whole percent, truncated; 0 where `whole` is 0
/// or `part` exceeds it.
pub fn percent(part: u64, whole: u64) -> (r: u16)
    ensures
        r as nat == percent_of(part as nat, whole as nat),
        r <= 100,
{
    if whole == 0 || part > whole {
        0
    } else {
        proof {
            lemma_percent_bounded(part as nat, whole as nat);
        }
        assert(part as u128 * 100 <= u128::MAX) by (nonlinear_arith)
            requires part <= u64::MAX;
        (part as u128 * 100 / whole as u128) as u16
    }
}

fn kb_to_gb_tenths(kb: u64) -> (r: u64)
    ensures
        r as nat == gb_tenths(kb as nat),
{
    assert((kb as u128 * 10 + 524288) / 1048576 <= u64::MAX) by (nonlinear_arith)
        requires kb <= u64::MAX;
    ((kb as u128 * 10 + 524288) / 1048576) as u64
}

impl DiskUsage {
    /// Used space in tenths of a gigabyte.
    pub fn used_gb_tenths(&self) -> (r: u64)
        ensures
            r as nat == gb_tenths(self.used_kb as nat),
    {
        kb_to_gb_tenths(self.used_kb)
    }

    /// Total space in tenths of a gigabyte.
    pub fn total_gb_tenths(&self) -> (r: u64)
        ensures
            r as nat == gb_tenths(self.total_kb as nat),
    {
        kb_to_gb_tenths(self.total_kb)
    }

    /// Used space in whole percent of the total, 0 where that is no share.
    pub fn percent_used(&self) -> (r: u16)
        ensures
            r as nat == percent_of(self.used_kb as nat, self.total_kb as nat),
    {
        percent(self.used_kb, self.total_kb)
    }
}

/// Disk use from `df --total --output=used,size`: its last line holds the used
/// and total kilobytes.
pub open spec fn disk_usage_of(success: bool, out: Seq<u8>) -> Option<DiskUsage> {
    if !success {
        None
    } else {
        match last_line(out) {
            Some(l) => {
                let w = words(l);
                if w.len() < 2 {
                    None
                } else {
                    match (u64_value(w[0]), u64_value(w[1])) {
                        (Some(u), Some(t)) => Some(DiskUsage { used_kb: u, total_kb: t }),
                        _ => None,
                    }
                }
            },
            None => None,
        }
    }
}

/// Disk use from whether `df` succeeded and its output.
pub fn disk_usage(success: bool, out: &[u8]) -> (r: Option<DiskUsage>)
    ensures
        r == disk_usage_of(success, out@),
{
    if !success || out.len() == 0 {
        return None;
    }
    let n = out.len();
    let len: usize = if out[n - 1] == 10 { n - 1 } else { n };
    let ghost t = without_final_break(out@);
    assert(t == out@.subrange(0, len as int));
    let start = last_line_start(out, len);
    assert(t.subrange(start as int, len as int) == out@.subrange(start as int, len as int));
    let w = split_words(out, start, len);
    if w.len() < 2 {
        return None;
    }
    assert(views(w@)[0] == w@[0]@ && views(w@)[1] == w@[1]@);
    let used = match parse_u64(w[0].as_slice()) { Some(v) => v, None => return None };
    let total = match parse_u64(w[1].as_slice()) { Some(v) => v, None => return None };
    Some(DiskUsage { used_kb: used, total_kb: total })
}

/// CPU usage is absent where the first line of `/proc/stat` holds fewer than
/// five words, and where present it is a share between 0 and 100 percent.
pub proof fn lemma_cpu_usage_in_range(stat: Seq<u8>)
    ensures
        words(first_line(stat)).len() < 5 ==> cpu_usage_of(stat) is None,
        cpu_usage_of(stat) matches Some(p) ==> p <= 1000,
{
    let w = words(first_line(stat));
    if w.len() >= 5 {
        match (u64_value(w[1]), u64_value(w[2]), u64_value(w[3]), u64_value(w[4])) {
            (Some(a), Some(b), Some(c), Some(d)) => {
                let total = a + b + c + d;
                if total > 0 {
                    lemma_share_bounded((total - d) as nat, total as nat);
                }
            },
            _ => {},
        }
    }
}

/// Counters whose idle time is all of the time give 0%; counters with no idle
/// time give exactly 100%.
pub proof fn lemma_usage_extremes(user: nat, nice: nat, system: nat, idle: nat)
    requires
        user + nice + system + idle > 0,
    ensures
        idle == user + nice + system + idle ==> usage_permille(user, nice, system, idle) == Some(0nat),
        idle == 0 ==> usage_permille(user, nice, system, idle) == Some(1000nat),
{
    let total = user + nice + system + idle;
    assert((total * 1000 + total / 2) / total == 1000) by (nonlinear_arith)
        requires total > 0;
    assert((0 * 1000 + total / 2) / total == 0) by (nonlinear_arith)
        requires total > 0;
}

/// RAM used is total less available, never negative and never more than the total.
pub proof fn lemma_ram_used(total_bytes: nat, available_bytes: nat, free_bytes: nat)
    ensures
        ram_usage_of(total_bytes, Some(available_bytes), free_bytes).0 <= ram_usage_of(total_bytes, Some(available_bytes), free_bytes).1,
        available_bytes / 1048576 <= total_bytes / 1048576 ==> ram_usage_of(total_bytes, Some(available_bytes), free_bytes)
            == ((total_bytes / 1048576 - available_bytes / 1048576) as nat, total_bytes / 1048576),
        ram_usage_of(total_bytes, None, free_bytes) == ram_usage_of(total_bytes, Some(free_bytes), free_bytes),
{
}

/// Gigabytes are kilobytes scaled by 1048576, exactly: `k` gigabytes' worth of
/// kilobytes show as `k.0` GB.
pub proof fn lemma_gb_exact(k: nat)
    ensures
        gb_tenths(k * KB_PER_GB as nat) == k * 10,
{
    assert((k * 1048576 * 10 + 524288) / 1048576 == k * 10) by (nonlinear_arith);
}

/// Without the NVIDIA marker, the GPU is `Amd` exactly where the vendor file
/// reads `0x1002` once trimmed, and `Unknown` where that file is unreadable.
pub proof fn lemma_gpu_detection(vendor: Seq<u8>)
    ensures
        gpu_type_of(false, None) == GpuType::Unknown,
        (gpu_type_of(false, Some(vendor)) == GpuType::Amd) == (words(vendor) == seq![amd_vendor_id()]),
        gpu_type_of(false, Some(vendor)) != GpuType::Nvidia,
        gpu_type_of(true, Some(vendor)) == GpuType::Nvidia,
{
}

} // verus!
