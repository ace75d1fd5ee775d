use waybarx::providers::{
    compute_centi_percent, cpu_info_from_percents, disk_info_from_sample, memory_info_from_sample,
    DiskSample, MemorySample, SystemProvider,
};
use waybarx::ui_bridge::{system_info_response, system_info_to_json};

#[test]
fn ratio_is_used_over_total() {
    assert_eq!(compute_centi_percent(50, 200), 2500);
    assert_eq!(compute_centi_percent(1, 3), 3333);
    assert_eq!(compute_centi_percent(200, 200), 10000);
}

#[test]
fn ratio_is_zero_when_total_is_zero() {
    assert_eq!(compute_centi_percent(0, 0), 0);
    assert_eq!(compute_centi_percent(5, 0), 0);
}

#[test]
fn ratio_can_exceed_hundred_percent_and_saturates() {
    // Pathological counters (used > total) pass through, not masked.
    assert_eq!(compute_centi_percent(300, 200), 15000);
    assert_eq!(compute_centi_percent(u64::MAX, 1), u64::MAX);
}

#[test]
fn cpu_overall_is_mean_of_cores() {
    let info = cpu_info_from_percents(&vec![10, 20, 30]);
    assert_eq!(info.usage_centipercent, 2000);
    assert_eq!(info.cores.len(), 3);
    assert_eq!(info.cores[0].id, 0);
    assert_eq!(info.cores[0].usage_centipercent, 1000);
    assert_eq!(info.cores[1].id, 1);
    assert_eq!(info.cores[1].usage_centipercent, 2000);
    assert_eq!(info.cores[2].id, 2);
    assert_eq!(info.cores[2].usage_centipercent, 3000);
}

#[test]
fn cpu_mean_floors() {
    let info = cpu_info_from_percents(&vec![1, 2]);
    assert_eq!(info.usage_centipercent, 150);
    let odd = cpu_info_from_percents(&vec![0, 0, 1]);
    assert_eq!(odd.usage_centipercent, 33);
}

#[test]
fn cpu_empty_core_set_means_zero() {
    let info = cpu_info_from_percents(&vec![]);
    assert_eq!(info.usage_centipercent, 0);
    assert!(info.cores.is_empty());
}

#[test]
fn memory_derivation_is_exact() {
    let m = memory_info_from_sample(&MemorySample {
        total_bytes: 1000,
        used_bytes: 250,
        available_bytes: 750,
    });
    assert_eq!(m.total_bytes, 1000);
    assert_eq!(m.used_bytes, 250);
    assert_eq!(m.available_bytes, 750);
    assert_eq!(m.usage_centipercent, 2500);
}

#[test]
fn memory_zero_total_means_zero_usage() {
    let m = memory_info_from_sample(&MemorySample {
        total_bytes: 0,
        used_bytes: 0,
        available_bytes: 0,
    });
    assert_eq!(m.usage_centipercent, 0);
}

#[test]
fn disk_used_is_total_minus_available() {
    let d = disk_info_from_sample(&DiskSample {
        name: "vda".to_string(),
        mount_point: "/".to_string(),
        total_bytes: 1000,
        available_bytes: 400,
    });
    assert_eq!(d.used_bytes, 600);
    assert_eq!(d.usage_centipercent, 6000);
    assert_eq!(d.name, "vda");
    assert_eq!(d.mount_point, "/");
}

#[test]
fn disk_used_floors_at_zero() {
    let d = disk_info_from_sample(&DiskSample {
        name: "odd".to_string(),
        mount_point: "/odd".to_string(),
        total_bytes: 100,
        available_bytes: 400,
    });
    assert_eq!(d.used_bytes, 0);
    assert_eq!(d.usage_centipercent, 0);
}

#[test]
fn fresh_provider_answers_with_a_snapshot() {
    let provider = SystemProvider::new();
    let info = provider.get_info().expect("a committed snapshot is always present");
    // Derived figures agree with the raw counters they were computed from.
    let m = &info.memory;
    let expected = if m.total_bytes == 0 {
        0
    } else {
        let wide = (m.used_bytes as u128) * 10000 / (m.total_bytes as u128);
        if wide > u64::MAX as u128 { u64::MAX } else { wide as u64 }
    };
    assert_eq!(m.usage_centipercent, expected);
    if !info.cpu.cores.is_empty() {
        let sum: u128 = info.cpu.cores.iter().map(|c| c.usage_centipercent as u128).sum();
        assert_eq!(
            info.cpu.usage_centipercent as u128,
            sum / info.cpu.cores.len() as u128
        );
        for (i, core) in info.cpu.cores.iter().enumerate() {
            assert_eq!(core.id, i);
        }
    } else {
        assert_eq!(info.cpu.usage_centipercent, 0);
    }
    for d in &info.disks {
        assert_eq!(d.used_bytes, d.total_bytes.saturating_sub(d.available_bytes));
    }
}

#[test]
fn fresh_snapshot_serializes_to_well_formed_json() {
    let provider = SystemProvider::new();
    let info = provider.get_info().unwrap();
    let text = system_info_to_json(&info);
    let v: serde_json::Value = serde_json::from_str(&text).unwrap();
    assert!(v.get("cpu").unwrap().get("usage_percent").unwrap().is_number());
    assert!(v.get("cpu").unwrap().get("cores").unwrap().is_array());
    assert!(v.get("memory").unwrap().get("total_bytes").unwrap().is_u64());
    assert!(v.get("disks").unwrap().is_array());
    assert!(v.get("network").unwrap().is_array());
}

#[test]
fn reads_between_refreshes_are_byte_identical() {
    let provider = SystemProvider::new();
    let a = provider.get_info().unwrap();
    let b = provider.get_info().unwrap();
    assert_eq!(a, b);
    assert_eq!(system_info_response(&a), system_info_response(&b));
}

#[test]
fn refresh_commits_a_new_consistent_snapshot() {
    let mut provider = SystemProvider::new();
    provider.refresh();
    let info = provider.get_info().unwrap();
    let m = &info.memory;
    if m.total_bytes > 0 {
        let wide = (m.used_bytes as u128) * 10000 / (m.total_bytes as u128);
        assert_eq!(m.usage_centipercent as u128, wide.min(u64::MAX as u128));
    } else {
        assert_eq!(m.usage_centipercent, 0);
    }
}
