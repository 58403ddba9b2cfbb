use peregrine::pending::{clear_uploaded, is_json_file, list_pending, new_pending_file_name, pending_count, pending_file_name, CapSweep, PENDING_MAX_BYTES};
use peregrine::reporting::{dsn, environment, upload_events, SafeTryReport, Telemetry};
use peregrine::report_code;
use peregrine::telemetry::{get_install_id, install_id_from_file, store_pending_report, PendingRecord, TelemetryContext};
use peregrine::telemetry_off;

fn record(ts: u64, code: &str, message: &str) -> PendingRecord {
    PendingRecord {
        ts,
        version: "0.0.0-test".to_string(),
        install_id: "test-id".to_string(),
        code: code.to_string(),
        message: message.to_string(),
    }
}

#[test]
fn pending_write_list_clear() {
    let name = pending_file_name(1000, "abc");
    assert_eq!(name, "1000-abc.json");
    let entries = vec![(name.clone(), Some(record(1000, report_code::RUST_PANIC, "boom")))];
    let records = list_pending(entries);
    assert_eq!(records.len(), 1);
    assert_eq!(records[0].1.message, "boom");
    let ids = clear_uploaded(&vec![records[0].0.clone()]);
    assert_eq!(ids, vec![name]);
}

#[test]
fn pending_not_deleted_under_cap() {
    let files: Vec<(String, u64)> = (0..5).map(|i| (format!("{}-x.json", i), 1000)).collect();
    let sweep = CapSweep::start(files);
    assert!(sweep.current().is_none());
}

#[test]
fn pending_rotates_oldest_over_cap() {
    let mb = 1024 * 1024;
    let files: Vec<(String, u64)> = (0..6u64).rev().map(|i| (format!("{}-x.json", i), mb + 100)).collect();
    let mut sweep = CapSweep::start(files);
    let mut removed = Vec::new();
    while let Some(name) = sweep.current() {
        removed.push(name);
        sweep.record(true);
    }
    assert_eq!(removed, vec!["0-x.json".to_string(), "1-x.json".to_string()]);
    let mut sweep = CapSweep::start(vec![("1-a.json".to_string(), PENDING_MAX_BYTES), ("0-a.json".to_string(), 10)]);
    assert_eq!(sweep.current().unwrap(), "0-a.json");
    sweep.record(false);
    assert_eq!(sweep.current().unwrap(), "1-a.json");
    sweep.record(true);
    assert!(sweep.current().is_none());
}

#[test]
fn listing_keeps_parsed_json_files_sorted() {
    let entries = vec![
        ("20-b.json".to_string(), Some(record(20, "PGR-2101", "b"))),
        ("notes.txt".to_string(), Some(record(1, "PGR-2101", "t"))),
        ("10-a.json".to_string(), Some(record(10, "PGR-2101", "a"))),
        ("15-c.json".to_string(), None),
        (".json".to_string(), Some(record(5, "PGR-2101", "hidden"))),
    ];
    let listed = list_pending(entries);
    let names: Vec<&str> = listed.iter().map(|(n, _)| n.as_str()).collect();
    assert_eq!(names, vec!["10-a.json", "20-b.json"]);
    assert!(is_json_file("a.json"));
    assert!(!is_json_file(".json"));
    assert!(!is_json_file("a.jso"));
    assert_eq!(pending_count(vec![("1.json".to_string(), Some(record(1, "c", "m")))]), 1);
}

#[test]
fn fresh_file_names_have_uuid_suffix() {
    let n = new_pending_file_name(42);
    assert!(n.starts_with("42-"));
    assert!(n.ends_with(".json"));
    assert_eq!(n.len(), 3 + 32 + 5);
    assert_ne!(new_pending_file_name(42), n);
}

#[test]
fn clear_skips_paths() {
    let ids = vec!["1-a.json".to_string(), "../x.json".to_string(), "a/b".to_string(), "2-b.json".to_string()];
    assert_eq!(clear_uploaded(&ids), vec!["1-a.json".to_string(), "2-b.json".to_string()]);
}

#[test]
fn install_id_rebuilt_when_corrupt() {
    let id = get_install_id(Some("not-a-uuid"));
    assert!(id.persist);
    assert_eq!(id.id.len(), 36);
    let id2 = get_install_id(Some(""));
    assert!(id2.persist);
    let kept = get_install_id(Some("  67e55044-10b1-426f-9247-bb680e5fe0c8\n"));
    assert!(!kept.persist);
    assert_eq!(kept.id, "67e55044-10b1-426f-9247-bb680e5fe0c8");
    let fresh = get_install_id(None);
    assert!(fresh.persist);
    assert!(install_id_from_file(&fresh.id).is_some());
}

#[test]
fn store_needs_context() {
    let none: Option<TelemetryContext> = None;
    assert_eq!(store_pending_report(&none, 1, "v", "c", "m").unwrap_err(), "telemetry context not initialized");
    let ctx = Some(TelemetryContext { app_data_dir: "/d".to_string(), install_id: "id".to_string() });
    let rec = store_pending_report(&ctx, 7, "1.0", "PGR-3001", "at /home/eve/x").unwrap();
    assert_eq!(rec.install_id, "id");
    assert_eq!(rec.message, "at /home/{user}/x");
}

#[test]
fn safe_try_err_reported_to_pending() {
    let mut t = Telemetry::new();
    t.set_test_context("/tmp/x".to_string(), "test-install-id");
    match t.report_safe_try_error(1, "0.0.0", report_code::CONFIG_IO, "save", "lib.rs:1:1", "disk full") {
        SafeTryReport::Store(rec) => {
            assert_eq!(rec.code, report_code::CONFIG_IO);
            assert!(rec.message.contains("disk full"));
            assert_eq!(rec.message, "[save @ lib.rs:1:1] disk full");
        },
        other => panic!("unexpected {:?}", other),
    }
    let t = Telemetry::new();
    assert!(matches!(t.report_safe_try_error(1, "v", "c", "f", "l", "m"), SafeTryReport::Drop));
}

#[test]
fn telemetry_runtime_decisions() {
    assert_eq!(dsn(Some("")), None);
    assert_eq!(dsn(Some("https://k@h/1")), Some("https://k@h/1"));
    assert_eq!(environment(true), "development");
    assert_eq!(environment(false), "production");
    let mut t = Telemetry::new();
    assert!(!t.init("/d".to_string(), "id".to_string(), Some("https://x"), false));
    assert!(!t.sdk_active());
    assert_eq!(t.test_report().unwrap_err(), "telemetry SDK not active");
    assert!(t.report_startup("1.0", "linux", "x86_64").is_none());
    let refused = t.authorize_upload_all(1, "1.0", "PGR-3001", "m", None).unwrap();
    assert_eq!(refused.upload.unwrap_err(), "telemetry DSN not injected; cannot upload");
    assert_eq!(refused.record.code, "PGR-3001");
    assert_eq!(refused.record.install_id, "id");
    assert_eq!(t.authorize_upload_all(1, "1.0", "PGR-3001", "m", Some("https://x")).unwrap().upload, Ok(true));
    assert!(t.init("/d".to_string(), "id".to_string(), Some("https://x"), true));
    assert_eq!(t.authorize_upload_all(1, "1.0", "PGR-3001", "m", None).unwrap().upload, Ok(false));
    assert_eq!(
        Telemetry::new().authorize_upload_all(1, "1.0", "PGR-3001", "m", None).unwrap_err(),
        "telemetry context not initialized"
    );
    let e = t.report_startup("1.0", "linux", "x86_64").unwrap();
    assert_eq!(e.tags[0], ("code".to_string(), "PGR-0001".to_string()));
    assert_eq!(e.tags[3], ("install_id".to_string(), "id".to_string()));
    let e = t.test_report().unwrap();
    assert_eq!(e.tags[3], ("function".to_string(), "test_report".to_string()));
    match t.report_safe_try_error(1, "v", "PGR-2101", "f", "l", "at /Users/zed/a") {
        SafeTryReport::Send(e) => {
            assert_eq!(e.message, "at /Users/{user}/a");
            assert_eq!(e.tags[1], ("event_type".to_string(), "error".to_string()));
        },
        other => panic!("unexpected {:?}", other),
    }
    let events = upload_events(&vec![("1-a.json".to_string(), record(1, "PGR-1001", "boom"))]);
    assert_eq!(events[0].tags[1], ("event_type".to_string(), "crash".to_string()));
    assert_eq!(events[0].tags[2], ("priority".to_string(), "p1".to_string()));
    assert_eq!(events[0].message, "boom");
}

#[test]
fn disabled_telemetry_does_nothing() {
    assert_eq!(telemetry_off::get_install_id("/d"), "");
    assert!(telemetry_off::list_pending("/d").is_empty());
    assert_eq!(telemetry_off::anonymize_text("/home/x"), "/home/x");
    assert!(!telemetry_off::init("/d".to_string(), true));
    assert!(!telemetry_off::sdk_active());
    assert_eq!(telemetry_off::authorize_upload_all("c", "m").unwrap_err(), "telemetry disabled at compile time");
    assert_eq!(telemetry_off::test_report().unwrap_err(), "telemetry disabled at compile time");
    assert!(telemetry_off::store_pending_report("c", "m").is_ok());
    assert_eq!(telemetry_off::list_pending_reports(), 0);
}

#[test]
fn install_id_stable_across_reads() {
    let first = get_install_id(None);
    assert!(first.persist);
    let second = get_install_id(Some(&first.id));
    assert!(!second.persist);
    assert_eq!(first.id, second.id);
}

#[test]
fn pending_order_follows_the_numeric_timestamp() {
    let entries = vec![
        ("10-a.json".to_string(), Some(record(10, "PGR-2101", "ten"))),
        ("9-b.json".to_string(), Some(record(9, "PGR-2101", "nine"))),
        ("100-c.json".to_string(), Some(record(100, "PGR-2101", "hundred"))),
    ];
    let ids: Vec<String> = list_pending(entries).into_iter().map(|(id, _)| id).collect();
    assert_eq!(ids, vec!["9-b.json", "10-a.json", "100-c.json"]);

    let mut sweep = CapSweep::start(vec![
        ("10-a.json".to_string(), PENDING_MAX_BYTES),
        ("9-b.json".to_string(), 10),
    ]);
    assert_eq!(sweep.current().unwrap(), "9-b.json");
    sweep.record(true);
    assert!(sweep.current().is_none());
}

#[test]
fn pending_report_keeps_non_ascii_message() {
    let ctx = Some(TelemetryContext { app_data_dir: "/d".to_string(), install_id: "id".to_string() });
    let rec = store_pending_report(&ctx, 7, "1.0", "PGR-3001", "准星加载失败 /home/小明/x").unwrap();
    assert_eq!(rec.message, "准星加载失败 /home/{user}/x");
}

#[test]
fn install_id_accepts_every_uuid_form() {
    let h = "550e8400-e29b-41d4-a716-446655440000";
    assert_eq!(install_id_from_file(h).as_deref(), Some(h));
    assert_eq!(install_id_from_file("550E8400E29B41D4A716446655440000").as_deref(), Some("550E8400E29B41D4A716446655440000"));
    let braced = format!("{{{}}}", h);
    assert_eq!(install_id_from_file(&braced), Some(braced.clone()));
    let urn = format!("URN:uuid:{}", h);
    assert_eq!(install_id_from_file(&urn), Some(urn.clone()));
    assert!(install_id_from_file("550e8400-e29b-41d4-a716-44665544000g").is_none());
    assert!(install_id_from_file("urn:uuix:550e8400-e29b-41d4-a716-446655440000").is_none());
    let fresh = get_install_id(None);
    assert!(fresh.persist);
    let again = get_install_id(Some(&format!("{}\n", fresh.id)));
    assert_eq!(again.id, fresh.id);
    assert!(!again.persist);
}
