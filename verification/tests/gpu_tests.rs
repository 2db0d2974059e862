use hostfetch::gpu::{select_gpu_indices, GpuAdapter, GpuKind};

fn adapter(kind: GpuKind, device_id: u32, name: &str) -> GpuAdapter {
    GpuAdapter { kind, device_id, name: name.to_string() }
}

#[test]
fn duplicate_device_ids_collapse_to_one() {
    let gpus = vec![
        adapter(GpuKind::Discrete, 7, "card via one backend"),
        adapter(GpuKind::Discrete, 7, "same card via another backend"),
    ];
    let sel = select_gpu_indices(&gpus);
    assert_eq!(sel.len(), 1);
    assert_eq!(sel[0], 0);
}

#[test]
fn virtual_software_and_cpu_adapters_are_excluded() {
    let gpus = vec![
        adapter(GpuKind::Virtual, 1, "virtual"),
        adapter(GpuKind::Cpu, 2, "software rasterizer"),
        adapter(GpuKind::Other, 3, "other"),
        adapter(GpuKind::Virtual, 1, "virtual again"),
    ];
    let sel = select_gpu_indices(&gpus);
    assert!(sel.is_empty());
}

#[test]
fn survivors_come_out_in_identifier_order() {
    let gpus = vec![
        adapter(GpuKind::Discrete, 30, "big"),
        adapter(GpuKind::Integrated, 10, "small"),
        adapter(GpuKind::Discrete, 20, "middle"),
    ];
    let sel = select_gpu_indices(&gpus);
    assert_eq!(sel, vec![1, 2, 0]);
}

#[test]
fn mixed_kinds_keep_only_retained_ones() {
    let gpus = vec![
        adapter(GpuKind::Cpu, 1, "software"),
        adapter(GpuKind::Discrete, 5, "real"),
        adapter(GpuKind::Virtual, 5, "ghost of the real one"),
        adapter(GpuKind::Integrated, 4, "onboard"),
    ];
    let sel = select_gpu_indices(&gpus);
    assert_eq!(sel, vec![3, 1]);
}

#[test]
fn first_of_equal_identifiers_survives() {
    let gpus = vec![
        adapter(GpuKind::Integrated, 9, "first report"),
        adapter(GpuKind::Discrete, 9, "second report"),
        adapter(GpuKind::Discrete, 9, "third report"),
    ];
    let sel = select_gpu_indices(&gpus);
    assert_eq!(sel, vec![0]);
    assert_eq!(gpus[sel[0]].name, "first report");
}
