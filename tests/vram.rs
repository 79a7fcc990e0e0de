use game_logic::nvml::{best_device_reading, device_reading_from, find_bytes_for_pid};
use game_logic::vram::{
    extract_vram_bytes_from_text, fmt_bytes, merge_reading, parse_amdgpu_gem_info_for_pid,
    parse_amdgpu_vm_info_for_pid, parse_embedded_number_with_unit, parse_number_with_unit,
    probe_step, query_vram_bytes_linux_amdgpu_per_process, query_vram_bytes_linux_drm_amdgpu,
    read_sysfs_u64, DriDebugListings, DrmCard, ProbeStep, VramBackend,
};

#[test]
fn fmt_bytes_megabytes_and_gigabytes() {
    assert_eq!(fmt_bytes(0), "0 MB");
    assert_eq!(fmt_bytes(1048576), "1 MB");
    assert_eq!(fmt_bytes(1073741824), "1.0 GB");
    assert_eq!(fmt_bytes(1610612736), "1.5 GB");
}

#[test]
fn fmt_bytes_rounds_half_to_even() {
    assert_eq!(fmt_bytes(524288), "0 MB");
    assert_eq!(fmt_bytes(1572864), "2 MB");
    assert_eq!(fmt_bytes(1342177280), "1.2 GB");
    assert_eq!(fmt_bytes(1073741823), "1024 MB");
    assert_eq!(fmt_bytes(u64::MAX), "17179869184.0 GB");
}

#[test]
fn embedded_number_units() {
    assert_eq!(parse_embedded_number_with_unit("1234"), Some(1234));
    assert_eq!(parse_embedded_number_with_unit("512kb"), Some(524288));
    assert_eq!(parse_embedded_number_with_unit("3MiB"), Some(3145728));
    assert_eq!(parse_embedded_number_with_unit("7g"), Some(7516192768));
    assert_eq!(parse_embedded_number_with_unit("12b"), Some(12));
    assert_eq!(parse_embedded_number_with_unit("5x"), Some(5));
    assert_eq!(parse_embedded_number_with_unit("1k2"), Some(12288));
}

#[test]
fn embedded_number_failures_and_saturation() {
    assert_eq!(parse_embedded_number_with_unit("abc"), None);
    assert_eq!(parse_embedded_number_with_unit(""), None);
    assert_eq!(parse_embedded_number_with_unit("99999999999999999999"), None);
    assert_eq!(parse_embedded_number_with_unit("18446744073709551615gb"), Some(u64::MAX));
}

#[test]
fn number_with_unit_trims_separators() {
    assert_eq!(parse_number_with_unit("=512mb:"), Some(536870912));
    assert_eq!(parse_embedded_number_with_unit("=512mb:"), Some(512));
    assert_eq!(parse_number_with_unit(":"), None);
}

#[test]
fn extract_reads_after_vram_word() {
    assert_eq!(extract_vram_bytes_from_text("pid 42 VRAM: 1024kb"), Some(1048576));
    assert_eq!(extract_vram_bytes_from_text("vram usage total 5 MB"), Some(5));
    assert_eq!(extract_vram_bytes_from_text("vram a b c 7"), None);
    assert_eq!(extract_vram_bytes_from_text("vram a b c vram 7"), Some(7));
    assert_eq!(extract_vram_bytes_from_text("no memory here 12"), None);
    assert_eq!(extract_vram_bytes_from_text(""), None);
    assert_eq!(extract_vram_bytes_from_text("gtt 4 vram=\t2g"), Some(2147483648));
}

#[test]
fn vm_info_blocks_by_pid() {
    let text = "proc pid 42\nvram 100\n\nproc PID 7\nvram 200kb\n\npid 9\nnothing";
    assert_eq!(parse_amdgpu_vm_info_for_pid(text, 7), Some(204800));
    assert_eq!(parse_amdgpu_vm_info_for_pid(text, 42), Some(100));
    assert_eq!(parse_amdgpu_vm_info_for_pid(text, 9), None);
    assert_eq!(parse_amdgpu_vm_info_for_pid(text, 5), None);
}

#[test]
fn gem_info_lines_by_pid() {
    let text = "pid 3 gtt 1\npid 3 vram 64\npid 4 vram 8mb\n";
    assert_eq!(parse_amdgpu_gem_info_for_pid(text, 3), Some(64));
    assert_eq!(parse_amdgpu_gem_info_for_pid(text, 4), Some(8388608));
    assert_eq!(parse_amdgpu_gem_info_for_pid(text, 6), None);
}

#[test]
fn per_process_listings_in_order() {
    let dirs = vec![
        DriDebugListings { vm_info: None, gem_info: Some(String::from("pid 5 vram 1")) },
        DriDebugListings { vm_info: Some(String::from("pid 5\nvram 2")), gem_info: None },
    ];
    assert_eq!(query_vram_bytes_linux_amdgpu_per_process(&dirs, 5), Some(1));
    let dirs = vec![DriDebugListings {
        vm_info: Some(String::from("pid 5\nvram 2")),
        gem_info: Some(String::from("pid 5 vram 3")),
    }];
    assert_eq!(query_vram_bytes_linux_amdgpu_per_process(&dirs, 5), Some(2));
    assert_eq!(query_vram_bytes_linux_amdgpu_per_process(&dirs, 6), None);
    assert_eq!(query_vram_bytes_linux_amdgpu_per_process(&vec![], 6), None);
}

#[test]
fn sysfs_counters() {
    assert_eq!(read_sysfs_u64("  0x1002\n"), Some(4098));
    assert_eq!(read_sysfs_u64("0XfF"), Some(255));
    assert_eq!(read_sysfs_u64("12345\n"), Some(12345));
    assert_eq!(read_sysfs_u64("+5"), Some(5));
    assert_eq!(read_sysfs_u64("abc"), None);
    assert_eq!(read_sysfs_u64(""), None);
    assert_eq!(read_sysfs_u64("0x"), None);
    assert_eq!(read_sysfs_u64("18446744073709551616"), None);
}

fn card(name: &str, driver: Option<&str>, vendor: Option<&str>, used: Option<&str>, vis: Option<&str>) -> DrmCard {
    DrmCard {
        name: name.to_string(),
        driver: driver.map(|s| s.to_string()),
        vendor: vendor.map(|s| s.to_string()),
        vram_used: used.map(|s| s.to_string()),
        vis_vram_used: vis.map(|s| s.to_string()),
    }
}

#[test]
fn drm_picks_largest_amdgpu_card() {
    let cards = vec![
        card("card0", Some("amdgpu"), None, Some("1048576\n"), None),
        card("card1", None, Some("0x1002\n"), None, Some("2097152\n")),
        card("card2", Some("nvidia"), Some("0x10de"), Some("99999999"), None),
        card("card0-DP-1", Some("amdgpu"), None, Some("77777777"), None),
        card("renderD128", Some("amdgpu"), None, Some("88888888"), None),
    ];
    assert_eq!(query_vram_bytes_linux_drm_amdgpu(&cards), Some(2097152));
    let others = vec![
        card("card2", Some("nvidia"), Some("0x10de"), Some("99999999"), None),
        card("card3", Some("amdgpu"), None, Some("n/a"), Some("")),
    ];
    assert_eq!(query_vram_bytes_linux_drm_amdgpu(&others), None);
    assert_eq!(query_vram_bytes_linux_drm_amdgpu(&vec![]), None);
}

#[test]
fn probe_chain_order() {
    match probe_step(VramBackend::first(), Some(10)) {
        ProbeStep::Found(info) => {
            assert_eq!(info.bytes, 10);
            assert_eq!(info.source, "NVML");
            assert_eq!(info.scope, "per-process");
        }
        _ => panic!("expected a reading"),
    }
    let mut b = VramBackend::first();
    let mut order = vec![b];
    loop {
        match probe_step(b, None) {
            ProbeStep::Next(n) => {
                order.push(n);
                b = n;
            }
            ProbeStep::Exhausted => break,
            ProbeStep::Found(_) => panic!("no reading was given"),
        }
    }
    assert_eq!(
        order,
        vec![
            VramBackend::NvmlProcess,
            VramBackend::AmdgpuDebugfs,
            VramBackend::LinuxDrm,
            VramBackend::Dxgi,
            VramBackend::Metal
        ]
    );
    match probe_step(VramBackend::Dxgi, Some(3)) {
        ProbeStep::Found(info) => {
            assert_eq!(info.source, "DXGI");
            assert_eq!(info.scope, "adapter-wide");
        }
        _ => panic!("expected a reading"),
    }
}

#[test]
fn nvml_process_lists() {
    let list = vec![(1, Some(5)), (2, None), (2, Some(7)), (2, Some(9))];
    assert_eq!(find_bytes_for_pid(&list, 2), Some(7));
    assert_eq!(find_bytes_for_pid(&list, 3), None);
    assert_eq!(merge_reading(Some(3), Some(8)), Some(8));
    assert_eq!(merge_reading(None, Some(8)), Some(8));
    assert_eq!(merge_reading(Some(3), None), Some(3));
    assert_eq!(merge_reading(None, None), None);
}

#[test]
fn nvml_device_prefers_graphics_list() {
    let g = vec![(4, Some(10))];
    let c = vec![(4, Some(20))];
    assert_eq!(device_reading_from(Some(g.clone()), Some(c.clone()), 4), Some(10));
    assert_eq!(device_reading_from(Some(vec![(4, None)]), Some(c.clone()), 4), Some(20));
    assert_eq!(device_reading_from(None, Some(c), 4), Some(20));
    assert_eq!(device_reading_from(Some(g), None, 5), None);
    assert_eq!(device_reading_from(None, None, 4), None);
}

#[test]
fn nvml_devices_fold() {
    assert_eq!(best_device_reading(&vec![Some(Some(3)), Some(None), Some(Some(9))]), Some(9));
    assert_eq!(best_device_reading(&vec![Some(None), Some(None)]), None);
    assert_eq!(best_device_reading(&vec![Some(Some(3)), None]), None);
    assert_eq!(best_device_reading(&vec![]), None);
}
