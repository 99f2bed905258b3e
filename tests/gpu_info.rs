use vocalinux::gpu_info::{parse_meminfo_value, recommend_whisper_model, GpuInfo, SystemMemory};

const QUERY: &str = "NVIDIA GeForce RTX 3080, 10240, 1024, 9216, 535.54\n";
const SUMMARY: &str = "+------+\n| NVIDIA-SMI 535.54   Driver Version: 535.54   CUDA Version: 12.2     |\n+------+\n";

#[test]
fn gpu_query_is_parsed() {
    let g = GpuInfo::detect(Some(QUERY), Some(SUMMARY)).unwrap();
    assert_eq!(g.name, "NVIDIA GeForce RTX 3080");
    assert_eq!(g.total_memory_mb, 10240);
    assert_eq!(g.used_memory_mb, 1024);
    assert_eq!(g.free_memory_mb, 9216);
    assert!(g.cuda_available);
    assert_eq!(g.driver_version.as_deref(), Some("535.54"));
    assert_eq!(g.cuda_version.as_deref(), Some("12.2"));
    assert!(g.can_fit_model(9216));
    assert!(!g.can_fit_model(9217));
}

#[test]
fn gpu_query_edge_cases() {
    assert!(GpuInfo::detect(None, Some(SUMMARY)).is_none());
    assert!(GpuInfo::detect(Some(""), None).is_none());
    assert!(GpuInfo::detect(Some("a, 1, 2\n"), None).is_none());
    let g = GpuInfo::detect(Some("Card, [N/A], +7, 99999999999999999999, d\r\nsecond"), Some("no cuda here\n")).unwrap();
    assert_eq!(g.total_memory_mb, 0);
    assert_eq!(g.used_memory_mb, 7);
    assert_eq!(g.free_memory_mb, 0);
    assert_eq!(g.driver_version.as_deref(), Some("d"));
    assert_eq!(g.cuda_version, None);
    let h = GpuInfo::detect(Some(QUERY), Some("CUDA Version 12\n")).unwrap();
    assert_eq!(h.cuda_version, None);
}

#[test]
fn recommendation_follows_free_vram() {
    let mut g = GpuInfo::detect(Some(QUERY), None).unwrap();
    let r = recommend_whisper_model(Some(&g));
    assert_eq!(r.recommended_model, "medium");
    assert!(r.will_use_gpu);
    assert_eq!(
        r.reason,
        "GPU NVIDIA GeForce RTX 3080 has 9216 MB free VRAM - Medium model offers good balance"
    );
    assert_eq!(r.estimated_speed, "Moderate speed, high accuracy");
    g.free_memory_mb = 1000;
    let t = recommend_whisper_model(Some(&g));
    assert_eq!(t.recommended_model, "tiny");
    assert_eq!(t.reason, "GPU NVIDIA GeForce RTX 3080 has only 1000 MB free VRAM - using Tiny model");
    g.free_memory_mb = 10000;
    assert_eq!(recommend_whisper_model(Some(&g)).recommended_model, "large");
    g.free_memory_mb = 2500;
    assert_eq!(recommend_whisper_model(Some(&g)).recommended_model, "small");
    g.free_memory_mb = 1500;
    assert_eq!(recommend_whisper_model(Some(&g)).recommended_model, "base");
    g.cuda_available = false;
    let c = recommend_whisper_model(Some(&g));
    assert_eq!(c.recommended_model, "base");
    assert!(!c.will_use_gpu);
    assert_eq!(c.estimated_speed, "Moderate (CPU)");
    assert!(!recommend_whisper_model(None).will_use_gpu);
}

#[test]
fn meminfo_is_parsed() {
    let text = "MemTotal:       16384000 kB\nMemFree:          100000 kB\nMemAvailable:    8192000 kB\n";
    let m = SystemMemory::detect(Some(text));
    assert_eq!(m.total_mb, 16000);
    assert_eq!(m.available_mb, 8000);
    let none = SystemMemory::detect(None);
    assert_eq!((none.total_mb, none.available_mb), (0, 0));
    assert_eq!(parse_meminfo_value("MemTotal:  2048 kB"), 2048);
    assert_eq!(parse_meminfo_value("MemTotal:"), 0);
    assert_eq!(parse_meminfo_value("MemTotal: x kB"), 0);
}
