use palm_counting_ai::paths::db_path;
use palm_counting_ai::paths::get_ai_pack_binaries_path;
use palm_counting_ai::paths::models_dir;
use palm_counting_ai::paths::path_join;
use palm_counting_ai::telemetry::build_system_specs;
use palm_counting_ai::telemetry::format_bytes_gb;
use palm_counting_ai::telemetry::format_ram_percent;
use palm_counting_ai::telemetry::os_display_name;
use palm_counting_ai::telemetry::parse_gpu_info;
use palm_counting_ai::telemetry::parse_gpu_usage;

const GIB: u64 = 1024 * 1024 * 1024;

#[test]
fn gigabyte_rendering() {
    assert_eq!(format_bytes_gb(0), "0.0");
    assert_eq!(format_bytes_gb(16 * GIB), "16.0");
    assert_eq!(format_bytes_gb(GIB / 2), "0.5");
    assert_eq!(format_bytes_gb(GIB + GIB / 4), "1.3");
}

#[test]
fn ram_percent_rendering() {
    assert_eq!(format_ram_percent(0, 0), "0%");
    assert_eq!(format_ram_percent(0, 100), "0%");
    assert_eq!(format_ram_percent(1, 2), "50%");
    assert_eq!(format_ram_percent(2, 3), "67%");
    assert_eq!(format_ram_percent(100, 100), "100%");
}

#[test]
fn os_names() {
    assert_eq!(os_display_name("windows"), "Windows");
    assert_eq!(os_display_name("macos"), "macOS");
    assert_eq!(os_display_name("linux"), "Linux");
    assert_eq!(os_display_name("freebsd"), "freebsd");
}

#[test]
fn gpu_info_parsing() {
    let (name, mem) = parse_gpu_info("NVIDIA GeForce RTX 3060, 12288\n");
    assert_eq!(name, "NVIDIA GeForce RTX 3060");
    assert_eq!(mem, "12288 MB");
    let (none_name, none_mem) = parse_gpu_info("\n");
    assert_eq!(none_name, "No GPU");
    assert_eq!(none_mem, "");
    let (solo, solo_mem) = parse_gpu_info("SomeGPU\n");
    assert_eq!(solo, "SomeGPU");
    assert_eq!(solo_mem, "");
}

#[test]
fn gpu_usage_parsing() {
    assert_eq!(
        parse_gpu_usage("35, 1024, 12288, 55\n"),
        (Some(35), Some(1024), Some(12288), Some(55))
    );
    assert_eq!(parse_gpu_usage(""), (None, None, None, None));
    assert_eq!(parse_gpu_usage("   \n"), (None, None, None, None));
    assert_eq!(parse_gpu_usage("x, y, z, w\n"), (None, None, None, None));
    assert_eq!(parse_gpu_usage("12\n"), (Some(12), None, None, None));
}

#[test]
fn system_specs_assembly() {
    let s = build_system_specs(
        "linux",
        Some("AMD Ryzen 7".to_string()),
        8 * GIB,
        4 * GIB,
        8,
        16,
        "NVIDIA GeForce RTX 3060".to_string(),
        "12288 MB".to_string(),
    );
    assert_eq!(s.os, "Linux");
    assert_eq!(s.processor, "AMD Ryzen 7");
    assert_eq!(s.total_ram_gb, "8.0");
    assert_eq!(s.available_ram_gb, "4.0");
    assert_eq!(s.ram_percent, "50%");
    assert_eq!(s.cpu_cores, 8);
    assert_eq!(s.cpu_threads, 16);
    assert_eq!(s.gpu, "NVIDIA GeForce RTX 3060");
    assert_eq!(s.gpu_memory, "12288 MB");
}

#[test]
fn unknown_processor_fallback() {
    let s = build_system_specs("linux", None, 0, 0, 0, 0, "No GPU".to_string(), "".to_string());
    assert_eq!(s.processor, "Unknown");
    assert_eq!(s.ram_percent, "0%");
}

#[test]
fn resolved_paths_end_under_the_product_directory() {
    assert!(db_path().ends_with("/palm-counting-ai/database.db"));
    assert!(models_dir().ends_with("/palm-counting-ai/models"));
    let b = get_ai_pack_binaries_path().unwrap();
    assert!(b.ends_with("/palm-counting-ai/binaries"));
    assert_eq!(path_join("/a", "b"), "/a/b");
}
