use hostfetch::gpu::{GpuAdapter, GpuKind};
use hostfetch::info::{build_info_lines, get_entry_formatted, DisplayConfig, MetricsSnapshot};

fn no_fields() -> DisplayConfig {
    DisplayConfig {
        show_distro: false,
        show_desktop_env: false,
        show_device_name: false,
        show_architecture: false,
        show_uptime: false,
        show_packages: false,
        show_motherboard: false,
        show_motherboard_manufacturer: false,
        show_cpu: false,
        show_cpu_vendor: false,
        show_cpu_frequency: false,
        show_cpu_usage: false,
        show_gpu: false,
        show_memory: false,
        show_swap: false,
        show_ip: false,
        show_all: false,
    }
}

fn all_fields() -> DisplayConfig {
    DisplayConfig {
        show_distro: true,
        show_desktop_env: true,
        show_device_name: true,
        show_architecture: true,
        show_uptime: true,
        show_packages: true,
        show_motherboard: true,
        show_motherboard_manufacturer: true,
        show_cpu: true,
        show_cpu_vendor: true,
        show_cpu_frequency: true,
        show_cpu_usage: true,
        show_gpu: true,
        show_memory: true,
        show_swap: true,
        show_ip: true,
        show_all: false,
    }
}

fn snapshot() -> MetricsSnapshot {
    MetricsSnapshot {
        username: "user".to_string(),
        hostname: Some("host".to_string()),
        distro: "Distroland 1.0".to_string(),
        device_name: "box".to_string(),
        architecture: "x86_64".to_string(),
        uptime_seconds: Some(90061),
        motherboard_name: Some("Board X".to_string()),
        motherboard_manufacturer: None,
        cpu_brand: "Example CPU".to_string(),
        cpu_vendor: "ExampleVendor".to_string(),
        cpu_frequency_mhz: None,
        cpu_usage_percent: "12.34".to_string(),
        gpus: vec![GpuAdapter { kind: GpuKind::Discrete, device_id: 3, name: "Card".to_string() }],
        used_memory: 4096,
        total_memory: 8192,
        used_swap: 0,
        total_swap: 1024,
        local_ip: None,
    }
}

fn yellow(label: &str) -> String {
    format!("\u{1b}[33m{}\u{1b}[0m", label)
}

#[test]
fn entry_paints_the_label_only() {
    assert_eq!(get_entry_formatted("Distro", "Arch Linux"), format!("{}: Arch Linux", yellow("Distro")));
}

#[test]
fn memory_only_config_builds_exactly_the_framed_memory_line() {
    let mut cfg = no_fields();
    cfg.show_memory = true;
    let m = snapshot();
    let lines = build_info_lines(&cfg, &m);

    let opts = humansize::FormatSizeOptions::default().decimal_places(2);
    let expected_memory = format!(
        "{}: {} used of {} total",
        yellow("Memory Usage"),
        humansize::format_size(4096u64, opts),
        humansize::format_size(8192u64, opts),
    );

    assert_eq!(lines.len(), 6);
    assert_eq!(lines[0], "\u{1b}[32muser\u{1b}[0m@\u{1b}[32mhost\u{1b}[0m");
    assert_eq!(lines[1], "-".repeat("user@host".len()));
    assert_eq!(lines[2], expected_memory);
    assert_eq!(lines[3], "");
    // The two fixed rows of eight three-character colour blocks.
    for row in [&lines[4], &lines[5]] {
        assert_eq!(strip_ansi_escapes::strip_str(row), "\u{2588}".repeat(24));
    }
    assert!(lines[4].contains("\u{1b}[91m"));
    assert!(lines[5].contains("\u{1b}[31m"));
}

#[test]
fn show_all_forces_every_line_despite_cleared_toggles() {
    let m = snapshot();
    let mut all_flag = no_fields();
    all_flag.show_all = true;
    let via_flag = build_info_lines(&all_flag, &m);
    let via_toggles = build_info_lines(&all_fields(), &m);
    assert_eq!(via_flag, via_toggles);
    // header, divider, 10 field lines, 1 GPU line, memory, swap, ip, blank, two rows
    assert_eq!(via_flag.len(), 19);
    assert!(via_flag[2].contains("Distroland"));
}

#[test]
fn toggled_subset_keeps_the_declared_order() {
    let m = snapshot();
    let mut cfg = no_fields();
    cfg.show_swap = true;
    cfg.show_distro = true;
    let lines = build_info_lines(&cfg, &m);
    assert_eq!(lines.len(), 7);
    // Distro comes before swap whatever order the toggles were set in.
    assert!(lines[2].starts_with(&yellow("Distro")));
    assert!(lines[3].starts_with(&yellow("Swap Usage")));
}

#[test]
fn absent_lookups_render_as_unknown() {
    let m = snapshot();
    let mut cfg = no_fields();
    cfg.show_motherboard_manufacturer = true;
    cfg.show_cpu_frequency = true;
    cfg.show_ip = true;
    let lines = build_info_lines(&cfg, &m);
    assert_eq!(lines[2], format!("{}: Unknown", yellow("Motherboard Manufacturer")));
    assert_eq!(lines[3], format!("{}: Unknown", yellow("CPU Frequency")));
    assert_eq!(lines[4], format!("{}: Unknown", yellow("Local Address")));
}

#[test]
fn present_lookups_render_their_values() {
    let m = snapshot();
    let mut cfg = no_fields();
    cfg.show_uptime = true;
    cfg.show_motherboard = true;
    cfg.show_cpu_usage = true;
    let lines = build_info_lines(&cfg, &m);
    assert_eq!(lines[2], format!("{}: 1 days 1 hours 1 minutes 1 seconds", yellow("Uptime")));
    assert_eq!(lines[3], format!("{}: Board X", yellow("Motherboard Name")));
    assert_eq!(lines[4], format!("{}: 12.34%", yellow("CPU Usage")));
}

#[test]
fn cpu_frequency_renders_through_the_frequency_unit() {
    let mut m = snapshot();
    m.cpu_frequency_mhz = Some(3600);
    let mut cfg = no_fields();
    cfg.show_cpu_frequency = true;
    let lines = build_info_lines(&cfg, &m);
    let expected = frequency_unit::Frequency::from_mhz(3600u16).to_string();
    assert_eq!(lines[2], format!("{}: {}", yellow("CPU Frequency"), expected));
}

#[test]
fn gpu_lines_number_the_survivors_from_one() {
    let mut m = snapshot();
    m.gpus = vec![
        GpuAdapter { kind: GpuKind::Discrete, device_id: 9, name: "Late".to_string() },
        GpuAdapter { kind: GpuKind::Virtual, device_id: 1, name: "Skipped".to_string() },
        GpuAdapter { kind: GpuKind::Integrated, device_id: 2, name: "Early".to_string() },
    ];
    let mut cfg = no_fields();
    cfg.show_gpu = true;
    let lines = build_info_lines(&cfg, &m);
    assert_eq!(lines[2], format!("{}: Early", yellow("GPU 1")));
    assert_eq!(lines[3], format!("{}: Late", yellow("GPU 2")));
}

#[test]
fn missing_hostname_shortens_header_and_divider() {
    let mut m = snapshot();
    m.hostname = None;
    let cfg = no_fields();
    let lines = build_info_lines(&cfg, &m);
    assert_eq!(lines[0], "\u{1b}[32muser\u{1b}[0m");
    assert_eq!(lines[1], "-".repeat(4));
}
