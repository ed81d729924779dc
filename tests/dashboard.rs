use yoinky::sysinfo::{DiskUsage, GpuType};
use yoinky::text::{push_decimal, push_signed_tenths, push_tenths};
use yoinky::ui::{draw_ui, Dashboard, MetricsFrame};

fn absent_frame() -> MetricsFrame {
    MetricsFrame { cpu_core_count: 8, cpu_usage: None, cpu_temp: None, ram: None, disk: None, gpu: None }
}

fn meter(d: &yoinky::ui::Panel) -> (String, u16) {
    let m = d.meter.as_ref().unwrap();
    (m.label.clone(), m.percent)
}

#[test]
fn all_absent_frame_shows_placeholders() {
    let d: Dashboard = draw_ui(&absent_frame());
    assert_eq!(d.title, "📟 YOINKY :: SYSTEM MONITOR 📟");
    assert_eq!(d.footer, "Press 'q' to quit");
    assert_eq!(d.cpu.title, " 💻 CPU ");
    assert_eq!(d.ram.title, " 🧠 RAM ");
    assert_eq!(d.gpu.title, " 🎮 GPU ");
    assert_eq!(d.disk.title, " 💾 DISK ");
    assert_eq!(d.cpu.lines[0].label, "Cores: ");
    assert_eq!(d.cpu.lines[0].value, "8");
    assert_eq!(d.cpu.lines[1].value, "N/A");
    assert!(!d.cpu.lines[1].available);
    assert_eq!(meter(&d.cpu), ("Usage: N/A".to_string(), 0));
    assert_eq!(meter(&d.ram), ("N/A".to_string(), 0));
    assert_eq!(meter(&d.disk), ("N/A".to_string(), 0));
    assert_eq!(d.gpu.lines.len(), 1);
    assert_eq!(d.gpu.lines[0].value, "N/A");
    assert!(d.gpu.meter.is_none());
}

#[test]
fn present_frame_formats_one_decimal() {
    let f = MetricsFrame {
        cpu_core_count: 12,
        cpu_usage: Some(437),
        cpu_temp: Some(45678),
        ram: Some((3000, 16000)),
        disk: Some(DiskUsage { used_kb: 1048576, total_kb: 2097152 }),
        gpu: Some((GpuType::Nvidia, 54)),
    };
    let d = draw_ui(&f);
    assert_eq!(d.cpu.lines[0].value, "12");
    assert_eq!(d.cpu.lines[1].label, "Temp:  ");
    assert_eq!(d.cpu.lines[1].value, "45.7 °C");
    assert!(d.cpu.lines[1].available);
    assert_eq!(meter(&d.cpu), ("Usage: 43.7%".to_string(), 43));
    assert_eq!(meter(&d.ram), ("3000.0MB / 16000.0MB".to_string(), 18));
    assert_eq!(meter(&d.disk), ("1.0GB / 2.0GB".to_string(), 50));
    assert_eq!(d.gpu.lines.len(), 2);
    assert_eq!(d.gpu.lines[0].label, "Type: ");
    assert_eq!(d.gpu.lines[0].value, "Nvidia");
    assert_eq!(d.gpu.lines[1].value, "54.0 °C");
}

#[test]
fn negative_temperatures_keep_their_sign() {
    let mut f = absent_frame();
    f.cpu_temp = Some(-1560);
    f.gpu = Some((GpuType::Amd, -3));
    let d = draw_ui(&f);
    assert_eq!(d.cpu.lines[1].value, "-1.6 °C");
    assert_eq!(d.gpu.lines[1].value, "-3.0 °C");
}

#[test]
fn one_decimal_values_are_rounded() {
    let mut f = absent_frame();
    f.cpu_temp = Some(45640);
    f.cpu_usage = Some(667);
    f.disk = Some(DiskUsage { used_kb: 2044724, total_kb: 2044723 });
    let d = draw_ui(&f);
    assert_eq!(d.cpu.lines[1].value, "45.6 °C");
    assert_eq!(meter(&d.cpu), ("Usage: 66.7%".to_string(), 66));
    assert_eq!(meter(&d.disk).0, "2.0GB / 1.9GB");
}

#[test]
fn full_usage_fills_the_meter() {
    let mut f = absent_frame();
    f.cpu_usage = Some(1000);
    f.ram = Some((0, 0));
    let d = draw_ui(&f);
    assert_eq!(meter(&d.cpu), ("Usage: 100.0%".to_string(), 100));
    assert_eq!(meter(&d.ram), ("0.0MB / 0.0MB".to_string(), 0));
}

#[test]
fn out_of_range_usage_leaves_meter_empty() {
    let mut f = absent_frame();
    f.cpu_usage = Some(1500);
    let d = draw_ui(&f);
    assert_eq!(meter(&d.cpu).1, 0);
}

#[test]
fn decimal_formatting() {
    let mut s = String::from("x");
    push_decimal(&mut s, 0);
    push_decimal(&mut s, 1234567890);
    assert_eq!(s, "x01234567890");
    let mut t = String::new();
    push_tenths(&mut t, 5);
    assert_eq!(t, "0.5");
    let mut u = String::new();
    push_signed_tenths(&mut u, i64::MIN);
    assert_eq!(u, "-922337203685477580.8");
    let mut v = String::new();
    push_decimal(&mut v, u64::MAX);
    assert_eq!(v, "18446744073709551615");
}
