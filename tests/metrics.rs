use yoinky::sysinfo::{
    cpu_temp, cpu_usage, disk_usage, get_gpu_type, gpu_info, percent, ram_usage, DiskUsage,
    GpuType,
};
use yoinky::text::{parse_i64, parse_u64, split_words};

#[test]
fn cpu_usage_from_first_line() {
    let stat = b"cpu  100 0 100 800 5 6 7\ncpu0 1 2 3 4\n";
    assert_eq!(cpu_usage(stat), Some(200));
}

#[test]
fn cpu_usage_truncates_to_tenths() {
    assert_eq!(cpu_usage(b"cpu 1 0 0 2"), Some(333));
}

#[test]
fn cpu_usage_rounds_to_nearest_tenth() {
    assert_eq!(cpu_usage(b"cpu 2 0 0 1"), Some(667));
    assert_eq!(cpu_usage(b"cpu 1 0 0 5"), Some(167));
}

#[test]
fn cpu_usage_missing_or_malformed_is_absent() {
    assert_eq!(cpu_usage(b""), None);
    assert_eq!(cpu_usage(b"\n"), None);
    assert_eq!(cpu_usage(b"cpu 1 2 3"), None);
    assert_eq!(cpu_usage(b"cpu 1 2 x 4"), None);
    assert_eq!(cpu_usage(b"cpu 1 2 -3 4"), None);
    assert_eq!(cpu_usage(b"\ncpu 1 2 3 4"), None);
    assert_eq!(cpu_usage(b"cpu 99999999999999999999 0 0 1"), None);
}

#[test]
fn cpu_usage_all_zero_counters_is_absent() {
    assert_eq!(cpu_usage(b"cpu 0 0 0 0"), None);
}

#[test]
fn cpu_usage_all_idle_is_zero() {
    assert_eq!(cpu_usage(b"cpu 0 0 0 12345"), Some(0));
}

#[test]
fn cpu_usage_no_idle_is_full() {
    assert_eq!(cpu_usage(b"cpu 5 6 7 0"), Some(1000));
}

#[test]
fn cpu_usage_large_counters() {
    let m = u64::MAX.to_string();
    let stat = format!("cpu {} {} {} {}", m, m, m, m);
    assert_eq!(cpu_usage(stat.as_bytes()), Some(750));
}

#[test]
fn cpu_temp_reads_millidegrees() {
    assert_eq!(cpu_temp(b"45000\n"), Some(45000));
    assert_eq!(cpu_temp(b"  -1500 "), Some(-1500));
    assert_eq!(cpu_temp(b"+42"), Some(42));
}

#[test]
fn cpu_temp_unparsable_is_absent() {
    assert_eq!(cpu_temp(b""), None);
    assert_eq!(cpu_temp(b"   \n"), None);
    assert_eq!(cpu_temp(b"45 000"), None);
    assert_eq!(cpu_temp(b"45.5"), None);
    assert_eq!(cpu_temp(b"-"), None);
}

#[test]
fn ram_used_is_total_less_available() {
    assert_eq!(ram_usage(16384 << 20, Some(4096 << 20), 1024), (12288, 16384));
}

#[test]
fn ram_falls_back_to_free() {
    assert_eq!(ram_usage(8192 << 20, None, 2048 << 20), (6144, 8192));
}

#[test]
fn ram_available_above_total_counts_none_used() {
    assert_eq!(ram_usage(1024 << 20, Some(2048 << 20), 0), (0, 1024));
}

#[test]
fn ram_converts_by_truncating_megabytes() {
    assert_eq!(ram_usage((2 << 20) - 1, Some((1 << 20) - 1), 0), (1, 1));
}

#[test]
fn disk_usage_exact_unit_scaling() {
    let out = b"  Used    1K-blocks\n 1048576   2097152\n";
    let d = disk_usage(true, out).unwrap();
    assert_eq!(d, DiskUsage { used_kb: 1048576, total_kb: 2097152 });
    assert_eq!(d.used_gb_tenths(), 10);
    assert_eq!(d.total_gb_tenths(), 20);
    assert_eq!(d.percent_used(), 50);
}

#[test]
fn disk_usage_reads_last_line() {
    let out = b"Used Size\n10 20\n30 40\n524288 1048576";
    assert_eq!(disk_usage(true, out), Some(DiskUsage { used_kb: 524288, total_kb: 1048576 }));
    let d = disk_usage(true, out).unwrap();
    assert_eq!(d.used_gb_tenths(), 5);
}

#[test]
fn disk_gigabytes_round_to_nearest_tenth() {
    let d = disk_usage(true, b"2044724 2044723\n").unwrap();
    assert_eq!(d.used_gb_tenths(), 20);
    assert_eq!(d.total_gb_tenths(), 19);
    assert_eq!(d.percent_used(), 0);
}

#[test]
fn disk_usage_failure_is_absent() {
    assert_eq!(disk_usage(false, b"1 2\n"), None);
    assert_eq!(disk_usage(true, b""), None);
    assert_eq!(disk_usage(true, b"1 2\n\n"), None);
    assert_eq!(disk_usage(true, b"1\n"), None);
    assert_eq!(disk_usage(true, b"a b\n"), None);
}

#[test]
fn percent_edges() {
    assert_eq!(percent(1, 3), 33);
    assert_eq!(percent(3, 3), 100);
    assert_eq!(percent(0, 0), 0);
    assert_eq!(percent(5, 4), 0);
    assert_eq!(percent(u64::MAX, u64::MAX), 100);
}

#[test]
fn gpu_type_unknown_without_marker_or_vendor() {
    assert_eq!(get_gpu_type(false, None), GpuType::Unknown);
}

#[test]
fn gpu_type_amd_from_vendor_id() {
    assert_eq!(get_gpu_type(false, Some(b"0x1002\n")), GpuType::Amd);
    assert_eq!(get_gpu_type(false, Some(b" 0x1002 ")), GpuType::Amd);
}

#[test]
fn gpu_type_other_vendor_is_unknown() {
    assert_eq!(get_gpu_type(false, Some(b"0x8086\n")), GpuType::Unknown);
    assert_eq!(get_gpu_type(false, Some(b"0x1002 0x1002")), GpuType::Unknown);
    assert_eq!(get_gpu_type(false, Some(b"")), GpuType::Unknown);
}

#[test]
fn gpu_type_nvidia_marker_wins() {
    assert_eq!(get_gpu_type(true, Some(b"0x1002")), GpuType::Nvidia);
    assert_eq!(get_gpu_type(true, None), GpuType::Nvidia);
}

#[test]
fn gpu_names() {
    assert_eq!(GpuType::Nvidia.name(), "Nvidia");
    assert_eq!(GpuType::Amd.name(), "Amd");
    assert_eq!(GpuType::Unknown.name(), "Unknown");
}

#[test]
fn gpu_info_nvidia() {
    assert_eq!(gpu_info(GpuType::Nvidia, Some((true, b"54\n".to_vec()))), Some((GpuType::Nvidia, 54)));
    assert_eq!(gpu_info(GpuType::Nvidia, Some((false, b"54\n".to_vec()))), None);
    assert_eq!(gpu_info(GpuType::Nvidia, Some((true, b"N/A\n".to_vec()))), None);
    assert_eq!(gpu_info(GpuType::Nvidia, None), None);
}

#[test]
fn gpu_info_amd_converts_millidegrees() {
    assert_eq!(gpu_info(GpuType::Amd, Some((true, b"61999\n".to_vec()))), Some((GpuType::Amd, 61)));
    assert_eq!(gpu_info(GpuType::Amd, Some((true, b"-1500".to_vec()))), Some((GpuType::Amd, -1)));
    assert_eq!(gpu_info(GpuType::Amd, Some((true, b"99999999999".to_vec()))), None);
}

#[test]
fn gpu_info_unknown_is_absent() {
    assert_eq!(gpu_info(GpuType::Unknown, Some((true, b"50".to_vec()))), None);
}

#[test]
fn words_and_numbers() {
    let w = split_words(b"  ab\tc \n d", 0, 10);
    assert_eq!(w, vec![b"ab".to_vec(), b"c".to_vec(), b"d".to_vec()]);
    assert_eq!(parse_u64(b"18446744073709551615"), Some(u64::MAX));
    assert_eq!(parse_u64(b"18446744073709551616"), None);
    assert_eq!(parse_u64(b"-1"), None);
    assert_eq!(parse_u64(b""), None);
    assert_eq!(parse_i64(b"-9223372036854775808"), Some(i64::MIN));
    assert_eq!(parse_i64(b"9223372036854775808"), None);
    assert_eq!(parse_i64(b"+-1"), None);
}
