use peregrine::report_event::{anonymize_event, ExceptionInfo, ReportFields, StackFrame};
use peregrine::report_code;
use peregrine::telemetry::{anonymize_text, event_class, is_plain_record_id, safe_try, EventClass};

#[test]
fn anonymize_text_replaces_user_paths() {
    assert_eq!(
        anonymize_text(r"failed at C:\Users\alice\AppData\x"),
        r"failed at C:\Users\{user}\AppData\x"
    );
    assert_eq!(anonymize_text("open /Users/bob/Documents/f"), "open /Users/{user}/Documents/f");
    assert_eq!(anonymize_text("read /home/carol/.config/x"), "read /home/{user}/.config/x");
    assert_eq!(anonymize_text("plain message"), "plain message");
}

#[test]
fn safe_try_ok_passthrough() {
    let result: Result<i32, String> = Ok(42);
    let (out, report) = safe_try(result, report_code::CONFIG_IO);
    assert_eq!(out.unwrap(), 42);
    assert!(report.is_none());
}

#[test]
fn safe_try_err_passes_error_and_reports_it() {
    let result: Result<i32, String> = Err("disk full".to_string());
    let (out, report) = safe_try(result, report_code::CONFIG_IO);
    assert_eq!(out.unwrap_err(), "disk full");
    assert_eq!(report.unwrap(), "disk full");
}

#[test]
fn event_classes_by_prefix() {
    assert!(matches!(event_class("PGR-1001"), EventClass::Crash));
    assert!(matches!(event_class("PGR-0001"), EventClass::Startup));
    assert!(matches!(event_class("PGR-2101"), EventClass::Error));
    assert_eq!(event_class("PGR-1001").event_type(), "crash");
    assert_eq!(event_class("PGR-0901").priority(), "p3");
    assert_eq!(event_class("x").priority(), "p2");
}

#[test]
fn record_ids_must_be_plain_names() {
    assert!(is_plain_record_id("1000-abc.json"));
    assert!(!is_plain_record_id("../x.json"));
    assert!(!is_plain_record_id("a/b.json"));
    assert!(!is_plain_record_id("a\\b.json"));
    assert!(!is_plain_record_id("a..b"));
    assert!(is_plain_record_id("a.b.json"));
}

#[test]
fn anonymize_stops_at_delimiters() {
    assert_eq!(anonymize_text("\"/home/dave\" ok"), "\"/home/{user}\" ok");
    assert_eq!(anonymize_text("/home/"), "/home/{user}");
}

#[test]
fn anonymize_keeps_non_ascii_text() {
    assert_eq!(anonymize_text("准星加载失败"), "准星加载失败");
    assert_eq!(anonymize_text("读取 /home/张三/配置 失败"), "读取 /home/{user}/配置 失败");
    assert_eq!(anonymize_text(r"C:\Users\Ünal\x é"), r"C:\Users\{user}\x é");
}

#[test]
fn anonymize_event_scrubs_every_text() {
    let event = ReportFields {
        user: Some("alice".to_string()),
        server_name: Some("alice-pc".to_string()),
        request: Some("GET /".to_string()),
        message: Some(r"failed at C:\Users\alice\AppData\x".to_string()),
        exceptions: vec![
            ExceptionInfo {
                value: Some("read /home/carol/.config/x".to_string()),
                frames: Some(vec![StackFrame {
                    filename: Some("/Users/bob/src/main.rs".to_string()),
                    abs_path: None,
                }]),
            },
            ExceptionInfo { value: None, frames: None },
        ],
    };
    let out = anonymize_event(event).unwrap();
    assert!(out.user.is_none() && out.server_name.is_none() && out.request.is_none());
    assert_eq!(out.message.as_deref(), Some(r"failed at C:\Users\{user}\AppData\x"));
    assert_eq!(out.exceptions.len(), 2);
    assert_eq!(out.exceptions[0].value.as_deref(), Some("read /home/{user}/.config/x"));
    let frames = out.exceptions[0].frames.as_ref().unwrap();
    assert_eq!(frames[0].filename.as_deref(), Some("/Users/{user}/src/main.rs"));
    assert!(frames[0].abs_path.is_none());
    assert!(out.exceptions[1].value.is_none() && out.exceptions[1].frames.is_none());
}
