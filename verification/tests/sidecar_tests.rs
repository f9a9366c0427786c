use palm_counting_ai::sidecar::add_models_summary;
use palm_counting_ai::sidecar::config_json;
use palm_counting_ai::sidecar::has_ai_pack_installed;
use palm_counting_ai::sidecar::require_active_model;
use palm_counting_ai::sidecar::is_real_sidecar;
use palm_counting_ai::sidecar::json_escape;
use palm_counting_ai::sidecar::locate_sidecar;
use palm_counting_ai::sidecar::parse_line;
use palm_counting_ai::sidecar::plan_processing;
use palm_counting_ai::sidecar::run_stdout_lines;
use palm_counting_ai::sidecar::LineEvent;
use palm_counting_ai::sidecar::Supervisor;
use palm_counting_ai::store::AppConfig;

#[test]
fn progress_lines_are_parsed() {
    let line = "{\"processed\":1,\"total\":3,\"current_file\":\"f.tif\",\"status\":\"ok\",\"abnormal_count\":2,\"normal_count\":5,\"successful\":1,\"failed\":0,\"output_folder\":\"/out\"}";
    match parse_line(line) {
        LineEvent::Progress(p) => {
            assert_eq!(p.processed, 1);
            assert_eq!(p.total, 3);
            assert_eq!(p.current_file, "f.tif");
            assert_eq!(p.status, "ok");
            assert_eq!(p.abnormal_count, 2);
            assert_eq!(p.normal_count, 5);
            assert_eq!(p.output_folder.as_deref(), Some("/out"));
        }
        _ => panic!("a JSON line without done:true is a progress event"),
    }
}

#[test]
fn missing_fields_default_to_zero_and_empty() {
    match parse_line("{}") {
        LineEvent::Progress(p) => {
            assert_eq!(p.processed, 0);
            assert_eq!(p.total, 0);
            assert_eq!(p.current_file, "");
            assert_eq!(p.status, "");
            assert_eq!(p.output_folder, None);
        }
        _ => panic!("an empty JSON object is still a progress event"),
    }
}

#[test]
fn empty_output_folder_reads_as_absent() {
    match parse_line("{\"output_folder\":\"\"}") {
        LineEvent::Progress(p) => assert_eq!(p.output_folder, None),
        _ => panic!("expected a progress event"),
    }
}

#[test]
fn terminal_line_is_parsed() {
    let line = "{\"done\":true,\"successful\":3,\"failed\":1,\"total\":4,\"total_abnormal\":7,\"total_normal\":9}";
    match parse_line(line) {
        LineEvent::Terminal(d) => {
            assert_eq!(d.successful, 3);
            assert_eq!(d.failed, 1);
            assert_eq!(d.total, 4);
            assert_eq!(d.total_abnormal, 7);
            assert_eq!(d.total_normal, 9);
        }
        _ => panic!("done:true is the terminal event"),
    }
}

#[test]
fn noise_is_skipped() {
    assert!(matches!(parse_line(""), LineEvent::Skip));
    assert!(matches!(parse_line("   "), LineEvent::Skip));
    assert!(matches!(parse_line("not json at all"), LineEvent::Skip));
    assert!(matches!(parse_line("{\"done\":false}"), LineEvent::Progress(_)));
}

// One progress event per progress line; lines after the terminal are not
// read; the terminal event is synthesized exactly once from the counters.
#[test]
fn stream_framing() {
    let lines = vec![
        "{\"processed\":1,\"total\":2,\"successful\":1,\"failed\":0}".to_string(),
        "".to_string(),
        "garbage".to_string(),
        "{\"processed\":2,\"total\":2,\"successful\":1,\"failed\":1}".to_string(),
        "{\"done\":true,\"successful\":1,\"failed\":1,\"total\":2,\"total_abnormal\":4,\"total_normal\":6}"
            .to_string(),
        "{\"processed\":99,\"total\":99}".to_string(),
    ];
    let (events, done) = run_stdout_lines(&lines);
    assert_eq!(events.len(), 2);
    assert_eq!(events[0].processed, 1);
    assert_eq!(events[1].processed, 2);
    assert_eq!(done.successful, 1);
    assert_eq!(done.failed, 1);
    assert_eq!(done.total, 2);
    assert_eq!(done.total_abnormal, 4);
    assert_eq!(done.total_normal, 6);
}

// A child that dies without a terminal line still yields one terminal
// event, synthesized from the last counters seen.
#[test]
fn terminal_event_is_synthesized() {
    let lines = vec![
        "{\"processed\":1,\"total\":5,\"successful\":1,\"failed\":0}".to_string(),
    ];
    let (events, done) = run_stdout_lines(&lines);
    assert_eq!(events.len(), 1);
    assert_eq!(done.successful, 1);
    assert_eq!(done.failed, 0);
    assert_eq!(done.total, 5);
    assert_eq!(done.total_abnormal, 0);
    assert_eq!(done.total_normal, 0);
}

#[test]
fn supervisor_counters_and_message() {
    let mut sup = Supervisor::new();
    let (stop, ev) = sup.on_line("{\"processed\":1,\"total\":2,\"successful\":1,\"failed\":0}");
    assert!(!stop);
    assert!(ev.is_some());
    let (stop2, ev2) = sup.on_line("{\"done\":true,\"successful\":2,\"failed\":1}");
    assert!(stop2);
    assert!(ev2.is_none());
    assert_eq!(sup.done_message(), "Done. 2 succeeded, 1 failed.");
    let d = sup.finish();
    assert_eq!(d.successful, 2);
    assert_eq!(d.failed, 1);
}

// An empty work list is rejected before anything is spawned.
#[test]
fn empty_work_list_is_rejected() {
    let c = AppConfig::default();
    let r = plan_processing(&vec![], "/m/model.pt", "model", &c, true, true, "/data/binaries", false);
    assert_eq!(r.err().as_deref(), Some("No files to process"));
}

#[test]
fn missing_model_file_is_rejected() {
    let c = AppConfig::default();
    let files = vec!["a.tif".to_string()];
    let r = plan_processing(&files, "/m/model.pt", "model", &c, false, true, "/data/binaries", false);
    assert_eq!(r.err().as_deref(), Some("Model file not found: /m/model.pt"));
}

#[test]
fn missing_worker_is_rejected() {
    let c = AppConfig::default();
    let files = vec!["a.tif".to_string()];
    let r = plan_processing(&files, "/m/model.pt", "model", &c, true, false, "/data/binaries", false);
    let e = r.err().expect("a missing sidecar must be rejected");
    assert_eq!(
        e,
        "infer_worker tidak ditemukan. Salin AI pack ke /data/binaries (pastikan ada file infer_worker (sesuai target triple) di dalamnya, bukan placeholder)"
    );
}

#[test]
fn active_model_gate() {
    assert_eq!(
        require_active_model(Some("/m/a.pt".to_string())).ok().as_deref(),
        Some("/m/a.pt")
    );
    assert_eq!(
        require_active_model(None).err().as_deref(),
        Some("No active model. Add and select a YOLO model first.")
    );
}

#[test]
fn batch_import_tally() {
    assert_eq!(add_models_summary(&vec![true, false, true]), Ok((2, 1)));
    assert_eq!(
        add_models_summary(&vec![false, false]).err().as_deref(),
        Some("Failed to add any models. 2 failed out of 2")
    );
    assert_eq!(
        add_models_summary(&vec![]).err().as_deref(),
        Some("Failed to add any models. 0 failed out of 0"),
        "an empty batch added nothing and says so"
    );
}

#[test]
fn cancel_log_line() {
    let sup = Supervisor::new();
    assert_eq!(sup.on_cancel(), "Cancelled.");
}

#[test]
fn spawn_arguments() {
    let c = AppConfig::default();
    let files = vec!["a.tif".to_string(), "b.tif".to_string()];
    let args = plan_processing(&files, "/m/model.pt", "palm", &c, true, true, "/data/binaries", false)
        .unwrap();
    assert_eq!(args.len(), 5);
    assert_eq!(args[0], "--infer-files");
    assert_eq!(args[1], "[\"a.tif\",\"b.tif\"]");
    assert_eq!(args[2], "/m/model.pt");
    assert_eq!(args[3], "palm");
    assert_eq!(
        args[4],
        "{\"imgsz\":\"12800\",\"conf\":\"0.2\",\"iou\":\"0.2\",\"max_det\":\"10000\",\"device\":\"auto\",\"convert_kml\":\"false\",\"convert_shp\":\"true\",\"save_annotated\":\"true\",\"line_width\":\"3\",\"show_labels\":\"true\",\"show_conf\":\"false\"}"
    );
}

#[test]
fn config_framing_escapes_values() {
    assert_eq!(json_escape("plain"), "plain");
    assert_eq!(json_escape("a\"b"), "a\\\"b");
    assert_eq!(json_escape("a\\b"), "a\\\\b");
    assert_eq!(json_escape("a\nb"), "a\\u000ab");
    let mut c = AppConfig::default();
    c.device = "cu\"da".to_string();
    let j = config_json(&c);
    assert!(j.contains("\"device\":\"cu\\\"da\""));
    let parsed: serde_json::Value = serde_json::from_str(&j).unwrap();
    assert_eq!(parsed.get("device").and_then(|v| v.as_str()), Some("cu\"da"));
    assert_eq!(parsed.get("imgsz").and_then(|v| v.as_str()), Some("12800"));
}

#[test]
fn sidecar_discovery_skips_placeholders() {
    let entries = vec![
        ("infer_worker.exe".to_string(), 98u64),
        ("infer_worker-x86_64-pc-windows-msvc.exe".to_string(), 2_000_000u64),
    ];
    assert_eq!(
        locate_sidecar(&entries, true).as_deref(),
        Some("infer_worker-x86_64-pc-windows-msvc.exe")
    );
    assert_eq!(locate_sidecar(&entries, false), None);
    assert_eq!(locate_sidecar(&vec![], true), None);
    let real = vec![("infer_worker.exe".to_string(), 600u64)];
    assert_eq!(locate_sidecar(&real, true).as_deref(), Some("infer_worker.exe"));
}

#[test]
fn placeholder_floor() {
    assert!(!is_real_sidecar(98));
    assert!(!is_real_sidecar(499));
    assert!(is_real_sidecar(500));
    assert!(is_real_sidecar(2_000_000));
}

#[test]
fn installed_check() {
    assert!(has_ai_pack_installed(true, 5));
    assert!(!has_ai_pack_installed(true, 0));
    assert!(!has_ai_pack_installed(false, 5));
}
