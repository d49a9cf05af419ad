use pc_part_grader::hardware::{
    low_memory_warning, os_description, primary_gpu_name, summarize_cpu, vendor_name,
};
use pc_part_grader::models::GpuInfo;

#[test]
fn maps_common_gpu_vendors() {
    assert_eq!(vendor_name(0x10de), "NVIDIA");
    assert_eq!(vendor_name(0x8086), "Intel");
    assert_eq!(vendor_name(7), "Unknown");
}

#[test]
fn maps_every_known_vendor() {
    assert_eq!(vendor_name(0x1002), "AMD");
    assert_eq!(vendor_name(0x1022), "AMD");
    assert_eq!(vendor_name(0x13b5), "ARM");
    assert_eq!(vendor_name(0x5143), "Qualcomm");
    assert_eq!(vendor_name(0x106b), "Apple");
    assert_eq!(vendor_name(0), "Unknown");
}

#[test]
fn cpu_summary_trims_brand_and_takes_max_frequency() {
    let cpu = summarize_cpu(Some("  AMD Ryzen 5 7600  "), 12, Some(6), &vec![3800, 5100, 4200]);
    assert_eq!(cpu.name, "AMD Ryzen 5 7600");
    assert_eq!(cpu.physical_cores, 6);
    assert_eq!(cpu.logical_cores, 12);
    assert_eq!(cpu.frequency_mhz, 5100);
}

#[test]
fn cpu_summary_falls_back() {
    let blank = summarize_cpu(Some(" \t "), 8, None, &vec![]);
    assert_eq!(blank.name, "Unknown CPU");
    assert_eq!(blank.physical_cores, 8);
    assert_eq!(blank.frequency_mhz, 0);
    let missing = summarize_cpu(None, 0, None, &vec![]);
    assert_eq!(missing.name, "Unknown CPU");
    assert_eq!(missing.physical_cores, 0);
}

#[test]
fn os_description_joins_and_trims() {
    assert_eq!(
        os_description(Some("Arch Linux".to_string()), "linux", Some("rolling".to_string())),
        "Arch Linux rolling"
    );
    assert_eq!(os_description(None, "linux", None), "linux");
    assert_eq!(os_description(Some("Windows".to_string()), "windows", None), "Windows");
}

#[test]
fn first_gpu_or_fallback() {
    let gpu = GpuInfo {
        name: "RTX".to_string(),
        vendor: "NVIDIA".to_string(),
        backend: "Vulkan".to_string(),
        device_type: "DiscreteGpu".to_string(),
    };
    assert_eq!(primary_gpu_name(&vec![gpu], "Unknown GPU"), "RTX");
    assert_eq!(primary_gpu_name(&vec![], "Unknown GPU"), "Unknown GPU");
}

#[test]
fn low_memory_threshold_is_two_gib() {
    assert_eq!(
        low_memory_warning((2u64 << 30) - 1).as_deref(),
        Some("Less than 2 GiB memory available; close other apps for better results.")
    );
    assert_eq!(low_memory_warning(2u64 << 30), None);
}
