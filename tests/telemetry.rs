use game_logic::telemetry::{
    backend_label, normalize_app_cpu, snap_build, snap_cpu_brand, snap_perf, snap_v_ram,
    BuildInfo, CpuIdentity, DebugLogicComponent, DebugSnapshot, ProcessSample, SampleTimer,
    SnapshotInputs, SysStats, PERCENT_FULL,
};
use game_logic::vram::VideoRamInfo;

#[test]
fn app_cpu_normalized_and_clamped() {
    assert_eq!(normalize_app_cpu(4_000, 8), 500);
    assert_eq!(normalize_app_cpu(4_000, 0), 4_000);
    assert_eq!(normalize_app_cpu(-500, 8), 0);
    assert_eq!(normalize_app_cpu(i64::MIN, 1), 0);
    assert_eq!(normalize_app_cpu(80_000, 8), PERCENT_FULL);
    assert_eq!(normalize_app_cpu(100_000_000, 4), PERCENT_FULL);
    assert_eq!(normalize_app_cpu(i64::MAX, 1), PERCENT_FULL);
}

#[test]
fn timer_fires_each_period() {
    let mut t = SampleTimer::new(500_000_000);
    assert!(!t.tick(300_000_000));
    assert!(t.tick(300_000_000));
    assert_eq!(t.elapsed_nanos, 100_000_000);
    assert!(t.tick(u64::MAX));
    assert!(t.elapsed_nanos < 500_000_000);
}

#[test]
fn sampler_gated_by_overlay() {
    let mut s = SysStats::new();
    assert!(!s.poll_due(false, 10_000_000_000));
    assert_eq!(s, SysStats::new());
    assert!(s.poll_due(true, 500_000_000));
    s.record_sample(2_500, Some(ProcessSample { memory_bytes: 4096, cpu_raw: 160_000 }), 4);
    assert_eq!(s.cpu_all_percent, 2_500);
    assert_eq!(s.app_cpu_percent, PERCENT_FULL);
    assert_eq!(s.app_mem_bytes, 4096);
    s.record_sample(100, None, 4);
    assert_eq!((s.app_mem_bytes, s.app_cpu_percent, s.cpu_all_percent), (0, 0, 100));
    s.record_initial(Some(ProcessSample { memory_bytes: 7, cpu_raw: 1_200 }), 3);
    assert_eq!((s.app_mem_bytes, s.app_cpu_percent), (7, 400));
}

#[test]
fn backend_labels_cover_every_token() {
    assert_eq!(backend_label("vulkan"), "Vulkan");
    assert_eq!(backend_label("gl"), "OpenGL");
    assert_eq!(backend_label("metal"), "Metal");
    assert_eq!(backend_label("dx12"), "DirectX12");
    assert_eq!(backend_label("DX12"), "DirectX12");
    assert_eq!(backend_label("dx11"), "DirectX11");
    assert_eq!(backend_label("DX11"), "DirectX11");
    assert_eq!(backend_label("webgpu"), "Unknown");
    assert_eq!(backend_label("Vulkan"), "Unknown");
    assert_eq!(backend_label(""), "Unknown");
}

fn cpu(brand: &str, name: &str) -> CpuIdentity {
    CpuIdentity { brand: brand.to_string(), name: name.to_string() }
}

#[test]
fn cpu_brand_resolution() {
    let mut s = DebugSnapshot::new();
    snap_cpu_brand(&mut s, &vec![cpu("  ", "cpu0"), cpu(" Ryzen 7 \n", "cpu1")]);
    assert_eq!(s.cpu_brand, "Ryzen 7");
    let mut s = DebugSnapshot::new();
    snap_cpu_brand(&mut s, &vec![cpu("", " cpu0 "), cpu("", "cpu1")]);
    assert_eq!(s.cpu_brand, "cpu0");
    let mut s = DebugSnapshot::new();
    snap_cpu_brand(&mut s, &vec![]);
    assert_eq!(s.cpu_brand, "Unknown CPU");
}

#[test]
fn cpu_brand_kept_once_set() {
    let mut s = DebugSnapshot::new();
    snap_cpu_brand(&mut s, &vec![cpu("Xeon", "cpu0")]);
    snap_cpu_brand(&mut s, &vec![cpu("Other", "cpu0")]);
    assert_eq!(s.cpu_brand, "Xeon");
}

#[test]
fn v_ram_labels() {
    let mut s = DebugSnapshot::new();
    snap_v_ram(&mut s, Some(VideoRamInfo { bytes: 1610612736, source: "DXGI", scope: "adapter-wide" }));
    assert_eq!(s.v_ram_label, "1.5 GB (DXGI)");
    snap_v_ram(&mut s, Some(VideoRamInfo { bytes: 3145728, source: "NVML", scope: "per-process" }));
    assert_eq!(s.v_ram_label, "3 MB (NVML)");
    snap_v_ram(&mut s, None);
    assert_eq!(s.v_ram_label, "n/a");
}

#[test]
fn build_and_perf_steps() {
    let mut s = DebugSnapshot::new();
    snap_build(&mut s, None, "Radeon".to_string(), "vulkan", "F3".to_string(), "F9".to_string());
    assert_eq!((s.app_name, s.app_ver, s.bevy_ver), ("<app>", "?", "0.17.3"));
    assert_eq!(s.backend_name, "Radeon");
    assert_eq!(s.backend_str, "Vulkan");
    assert_eq!((s.key_debug_info.as_str(), s.key_gizmos.as_str()), ("F3", "F9"));
    let b = BuildInfo { app_name: "game", app_version: "1.2", bevy_version: "0.17.0" };
    snap_build(&mut s, Some(b), String::new(), "gl", String::new(), String::new());
    assert_eq!((s.app_name, s.app_ver, s.bevy_ver, s.backend_str), ("game", "1.2", "0.17.0", "OpenGL"));
    let mut st = SysStats::new();
    st.record_sample(1_234, Some(ProcessSample { memory_bytes: 99, cpu_raw: 800 }), 2);
    snap_perf(&mut s, None, &st);
    assert_eq!((s.fps, s.cpu_all_percent, s.app_cpu_percent, s.app_mem_bytes), (0, 1_234, 400, 99));
    snap_perf(&mut s, Some(6_000), &st);
    assert_eq!(s.fps, 6_000);
}

fn inputs(brand: &str) -> SnapshotInputs {
    SnapshotInputs {
        fps: Some(12_000),
        build: None,
        backend_name: "GPU".to_string(),
        backend_token: "dx12".to_string(),
        key_debug_info: "F3".to_string(),
        key_gizmos: "F9".to_string(),
        v_ram: None,
        cpus: vec![cpu(brand, "cpu0")],
    }
}

#[test]
fn pipeline_runs_only_when_visible() {
    let mut d = DebugLogicComponent::new();
    assert!(!d.poll_sys_info(1_000_000_000));
    assert!(!d.build_snapshot(inputs("A")));
    assert_eq!(d.snapshot.fps, 0);
    assert_eq!(d.snapshot.cpu_brand, "");
    assert_eq!(d.snapshot.v_ram_label, "");
    d.overlay_visible = true;
    assert!(d.poll_sys_info(600_000_000));
    d.record_sample(5_000, Some(ProcessSample { memory_bytes: 1, cpu_raw: -40 }), 0);
    assert_eq!((d.stats.cpu_all_percent, d.stats.app_cpu_percent, d.stats.app_mem_bytes), (5_000, 0, 1));
    assert!(d.build_snapshot(inputs("A")));
    assert_eq!(d.snapshot.fps, 12_000);
    assert_eq!(d.snapshot.backend_str, "DirectX12");
    assert_eq!(d.snapshot.v_ram_label, "n/a");
    assert_eq!(d.snapshot.cpu_brand, "A");
    assert!(d.build_snapshot(inputs("B")));
    assert_eq!(d.snapshot.cpu_brand, "A");
}
