use cloud_print::config::AppConfig;
use cloud_print::message::JobStatus;
use cloud_print::message::Message;

#[test]
fn is_valid() {
    let new_message = Message {
        artifact_url: "".to_string(),
        artifact_local_path: None,
        error: None,
        processed_at: None,
        status: JobStatus::Unknown,
        context: None,
        ..Default::default()
    };

    assert_eq!(new_message.error, None);
}

#[test]
fn default_record_has_fresh_26_char_id() {
    let m = Message::default();
    let id = m.id.expect("a default record carries an identifier");
    assert_eq!(id.len(), 26);
    assert!(id.chars().all(|c| c.is_ascii_digit() || c.is_ascii_uppercase()));
    assert_eq!(m.artifact_url, "invalid-value");
    assert_eq!(m.artifact_local_path, None);
    assert_eq!(m.processed_at, None);
    assert_eq!(m.error, None);
    assert_eq!(m.raw_body, None);
    assert_eq!(m.context, None);
    assert_eq!(m.status, JobStatus::Unknown);
}

#[test]
fn set_error_marks_invalid_and_keeps_original_text() {
    let mut m = Message::default();
    m.set_error("boom".to_string(), Some("the original frame".to_string()));
    assert_eq!(m.status, JobStatus::Invalid);
    assert_eq!(m.error, Some("boom".to_string()));
    assert_eq!(m.raw_body, Some("the original frame".to_string()));
    assert_eq!(m.processed_at, None);
}

#[test]
fn set_successful_marks_valid_and_stamps_time() {
    let mut m = Message::default();
    m.set_successful();
    assert_eq!(m.status, JobStatus::Valid);
    assert!(m.processed_at.is_some());
}

#[test]
fn set_downloaded_file_path_records_location() {
    let mut m = Message::default();
    m.set_downloaded_file_path("./wdir/pdfs/a.pdf".to_string());
    assert_eq!(m.artifact_local_path, Some("./wdir/pdfs/a.pdf".to_string()));
}

#[test]
fn merge_keeps_known_fields_and_fills_gaps() {
    let mut a = Message::default();
    a.id = Some("A".to_string());
    a.error = Some("kept".to_string());
    a.context = None;
    let mut b = Message::default();
    b.id = Some("B".to_string());
    b.artifact_url = "https://x/new.pdf".to_string();
    b.error = Some("ignored".to_string());
    b.context = Some("{\"k\":1}".to_string());
    let merged = a.merge(b);
    assert_eq!(merged.id, Some("A".to_string()));
    assert_eq!(merged.artifact_url, "https://x/new.pdf".to_string());
    assert_eq!(merged.error, Some("kept".to_string()));
    assert_eq!(merged.context, Some("{\"k\":1}".to_string()));
}

#[test]
fn with_local_defaults_keeps_sink_options_only() {
    let loaded = AppConfig {
        config_file_name: "evil".to_string(),
        root_path: "/elsewhere".to_string(),
        work_dir_name: "other".to_string(),
        printer_bin: "sumatra.exe".to_string(),
        printer_name: "office".to_string(),
        printer_settings: "duplex".to_string(),
        ws_url: "wss://jobs.example".to_string(),
        ws_context_id: "ctx".to_string(),
        ws_context_name: "name".to_string(),
        ws_context_pwd: "SECRET-REDACTED".to_string(),
        ws_printer_name: "remote".to_string(),
    };
    let c = loaded.with_local_defaults();
    assert_eq!(c.config_file_name, "cloudprint.config");
    assert_eq!(c.root_path, ".");
    assert_eq!(c.work_dir_name, "wdir");
    assert_eq!(c.printer_bin, "sumatra.exe");
    assert_eq!(c.printer_name, "office");
    assert_eq!(c.printer_settings, "duplex");
    assert_eq!(c.ws_url, "wss://jobs.example");
}

#[test]
fn config_file_candidates_in_probe_order() {
    let c = AppConfig::config_file_candidates();
    assert_eq!(
        c,
        vec![
            "cloudprint.config.json".to_string(),
            "cloudprint.config.yml".to_string(),
            "cloudprint.config.yaml".to_string()
        ]
    );
}
