use std::io::Write;

use palm_counting_ai::install::build_extract_plan;
use palm_counting_ai::install::dir_total_size;
use palm_counting_ai::install::entry_out_name;
use palm_counting_ai::install::exe_present;
use palm_counting_ai::install::extract_percent;
use palm_counting_ai::install::mb_to_string;
use palm_counting_ai::install::replace_backslashes;
use palm_counting_ai::install::validate_pack;
use palm_counting_ai::install::zip_len;
use palm_counting_ai::install::zip_open;

#[test]
fn entry_names_are_normalized() {
    assert_eq!(entry_out_name("binaries\\sub\\file.txt").as_deref(), Some("sub/file.txt"));
    assert_eq!(entry_out_name("binaries/infer_worker.exe").as_deref(), Some("infer_worker.exe"));
    assert_eq!(entry_out_name("binaries/binaries/x").as_deref(), Some("x"));
    assert_eq!(entry_out_name("plain.txt").as_deref(), Some("plain.txt"));
    assert_eq!(entry_out_name(""), None);
    assert_eq!(entry_out_name("binaries/"), None);
    assert_eq!(entry_out_name("some/dir/"), None);
}

#[test]
fn backslash_replacement() {
    assert_eq!(replace_backslashes("a\\b\\c"), "a/b/c");
    assert_eq!(replace_backslashes("a/b"), "a/b");
    assert_eq!(replace_backslashes(""), "");
}

fn make_zip(entries: &[(&str, &[u8])]) -> Vec<u8> {
    let cursor = std::io::Cursor::new(Vec::new());
    let mut w = zip::ZipWriter::new(cursor);
    let options = zip::write::SimpleFileOptions::default().compression_method(
        zip::CompressionMethod::Stored,
    );
    for (name, data) in entries {
        w.start_file(*name, options).unwrap();
        w.write_all(data).unwrap();
    }
    w.finish().unwrap().into_inner()
}

#[test]
fn archive_round_trip_through_plan() {
    let bytes = make_zip(&[
        ("binaries/infer_worker.exe", b"fake executable bytes"),
        ("binaries\\lib\\helper.dll", b"library"),
        ("notes.txt", b"hello"),
    ]);
    let mut archive = zip_open(bytes).unwrap();
    assert_eq!(zip_len(&archive), 3);
    let plan = build_extract_plan(&mut archive).unwrap();
    assert_eq!(plan.total_entries, 3);
    assert_eq!(plan.steps.len(), 3);
    assert_eq!(plan.steps[0].0.name, "infer_worker.exe");
    assert_eq!(plan.steps[0].0.data, b"fake executable bytes");
    assert!(!plan.steps[0].0.is_dir);
    assert_eq!(plan.steps[1].0.name, "lib/helper.dll");
    assert_eq!(plan.steps[1].0.data, b"library");
    assert_eq!(plan.steps[2].0.name, "notes.txt");
    // The third processed entry is also the last of three: an event fires.
    assert!(plan.steps[0].1.is_none());
    assert!(plan.steps[1].1.is_none());
    let ev = plan.steps[2].1.as_ref().unwrap();
    assert_eq!(ev.current, 3);
    assert_eq!(ev.total, 3);
    assert_eq!(ev.percent, 100);
}

#[test]
fn extract_percent_values() {
    assert_eq!(extract_percent(0, 4), 0);
    assert_eq!(extract_percent(1, 4), 25);
    assert_eq!(extract_percent(3, 4), 75);
    assert_eq!(extract_percent(4, 4), 100);
    assert_eq!(extract_percent(0, 0), 100);
    assert_eq!(extract_percent(1, 3), 33);
    assert_eq!(extract_percent(2, 3), 67);
}

#[test]
fn megabyte_rendering() {
    assert_eq!(mb_to_string(2_000_000), "2.00");
    assert_eq!(mb_to_string(5_000_000), "5.00");
    assert_eq!(mb_to_string(123_456), "0.12");
    assert_eq!(mb_to_string(0), "0.00");
    assert_eq!(mb_to_string(20_000_000), "20.00");
    assert_eq!(mb_to_string(1_555_000), "1.56");
}

#[test]
fn sizes_are_summed_with_saturation() {
    assert_eq!(dir_total_size(&vec![]), 0);
    assert_eq!(dir_total_size(&vec![1, 2, 3]), 6);
    assert_eq!(dir_total_size(&vec![u64::MAX, 1]), u64::MAX);
}

#[test]
fn expected_executables() {
    let files = vec!["infer_worker-x86_64-pc-windows-msvc.exe".to_string()];
    assert!(exe_present(&files, true));
    assert!(!exe_present(&files, false));
    let linux = vec!["infer_worker-x86_64-unknown-linux-gnu".to_string()];
    assert!(exe_present(&linux, false));
    assert!(!exe_present(&vec!["other.dll".to_string()], true));
    assert!(!exe_present(&vec![], true));
}

// A 2 MB executable and nothing else: below the 5 MB floor, rejected for
// its size.
#[test]
fn small_pack_is_rejected_for_size() {
    let r = validate_pack("/data/binaries", 2_000_000, true);
    let e = r.err().expect("a small pack must be rejected");
    assert!(e.contains("ukuran folder extract di bawah 5 MB"));
    assert!(e.contains("2000000 bytes"));
    assert!(e.contains("2.00 MB"));
    assert!(e.contains("/data/binaries"));
}

// 20 MB of libraries but no executable from the platform set: rejected for
// the missing executable.
#[test]
fn pack_without_executable_is_rejected() {
    let r = validate_pack("/data/binaries", 20_000_000, false);
    let e = r.err().expect("a pack without the executable must be rejected");
    assert!(e.contains("infer_worker exe tidak ditemukan di folder extract"));
    assert!(e.contains("20000000 bytes"));
}

#[test]
fn corrupt_archive_is_rejected() {
    let garbage = vec![0u8; 64];
    assert!(zip_open(garbage).is_err());
}

#[test]
fn valid_pack_is_accepted() {
    assert!(validate_pack("/data/binaries", 5_000_001, true).is_ok());
    assert!(validate_pack("/data/binaries", 5_000_000, true).is_err());
    assert!(validate_pack("/data/binaries", 20_000_000, false).is_err());
}
