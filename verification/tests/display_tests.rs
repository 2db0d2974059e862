use hostfetch::art::IconArt;
use hostfetch::gpu::{GpuAdapter, GpuKind};
use hostfetch::info::{DisplayConfig, MetricsSnapshot};
use hostfetch::render::render_display;

fn memory_only() -> DisplayConfig {
    DisplayConfig {
        show_distro: false,
        show_desktop_env: false,
        show_device_name: false,
        show_architecture: false,
        show_uptime: false,
        show_packages: false,
        show_motherboard: false,
        show_motherboard_manufacturer: false,
        show_cpu: false,
        show_cpu_vendor: false,
        show_cpu_frequency: false,
        show_cpu_usage: false,
        show_gpu: false,
        show_memory: true,
        show_swap: false,
        show_ip: false,
        show_all: false,
    }
}

fn metrics() -> MetricsSnapshot {
    MetricsSnapshot {
        username: "user".to_string(),
        hostname: Some("host".to_string()),
        distro: "Distroland".to_string(),
        device_name: "box".to_string(),
        architecture: "x86_64".to_string(),
        uptime_seconds: None,
        motherboard_name: None,
        motherboard_manufacturer: None,
        cpu_brand: "Example CPU".to_string(),
        cpu_vendor: "ExampleVendor".to_string(),
        cpu_frequency_mhz: None,
        cpu_usage_percent: "0.00".to_string(),
        gpus: vec![GpuAdapter { kind: GpuKind::Other, device_id: 0, name: "none".to_string() }],
        used_memory: 4096,
        total_memory: 8192,
        used_swap: 0,
        total_swap: 0,
        local_ip: None,
    }
}

#[test]
fn unknown_art_with_six_info_lines_spans_the_art_height() {
    // The Unknown art has 18 lines; the memory-only info block has 6, so the
    // display is 18 lines: the first 6 two-column, the rest art alone.
    let out = render_display(&memory_only(), &metrics(), None, "Unknownxyz");
    assert_eq!(out.len(), 18);
    let art = IconArt::Unknown.to_lines();
    for (i, line) in out.iter().enumerate() {
        if i < 6 {
            assert!(line.starts_with(&format!("  {}\t", art[i])));
        } else {
            assert_eq!(line, &format!("  {}", art[i]));
        }
    }
}

#[test]
fn override_switches_the_art_block() {
    let out = render_display(&memory_only(), &metrics(), Some(IconArt::Windows), "Arch");
    // The Windows art has 15 lines, still more than the 6 info lines.
    assert_eq!(out.len(), 15);
    let art = IconArt::Windows.to_lines();
    assert!(out[0].starts_with(&format!("  {}\t", art[0])));
}

#[test]
fn info_overflow_is_padded_to_the_art_width() {
    let mut cfg = memory_only();
    cfg.show_all = true;
    let m = metrics();
    let out = render_display(&cfg, &m, Some(IconArt::Windows), "");
    // All fields on: 2 header lines, 13 field lines (the sole adapter is of
    // type Other, so no GPU line), 3 closing lines: 18 lines of info against
    // 15 lines of art.
    assert_eq!(out.len(), 18);
    for line in out.iter().skip(15) {
        assert!(line.starts_with(&format!("  {}\t", " ".repeat(34))));
    }
}
