use cloud_print::config::AppConfig;
use cloud_print::dirs::Dirs;
use cloud_print::dispatch::handle_print;
use cloud_print::dispatch::import_record_text;
use cloud_print::dispatch::DispatchOutcome;
use cloud_print::dispatch::PrintOutcome;
use cloud_print::ingest::classify_frame;
use cloud_print::ingest::ingest_complete;
use cloud_print::ingest::ingest_parse;
use cloud_print::ingest::json_file_name;
use cloud_print::ingest::FetchOutcome;
use cloud_print::ingest::FrameAction;
use cloud_print::ingest::FrameEvent;
use cloud_print::ingest::IngestOutcome;
use cloud_print::message::JobStatus;
use cloud_print::message::Message;
use cloud_print::message_manager::FileType;
use cloud_print::message_manager::MessageManager;
use cloud_print::message_manager::PersistenceError;
use cloud_print::printer_manager::PrinterManager;
use cloud_print::supervisor::Supervisor;

fn config() -> AppConfig {
    AppConfig::default()
}

#[test]
fn scenario_valid_notification_reaches_pending_with_artifact_bytes() {
    let cfg = config();
    let mut mgr = MessageManager::new(&cfg);
    let frame = "{\"artifact_url\":\"https://x/doc.pdf\"}";
    let msg = ingest_parse(frame).expect("the notification parses");
    let id = msg.id.clone().expect("ingestion assigned an id");
    let payload = b"%PDF-1.4 payload bytes".to_vec();
    let outcome = ingest_complete(
        &mut mgr,
        msg,
        FetchOutcome::Response { status: 200, body: payload.clone() },
        frame,
    );
    match outcome {
        IngestOutcome::Queued { artifact_path, artifact_bytes, pending_path, pending_content, record } => {
            assert_eq!(artifact_bytes, payload);
            assert_eq!(artifact_path, format!("./wdir/pdfs/{}.pdf", id));
            assert_eq!(pending_path, format!("./wdir/pending/{}.json", id));
            assert_eq!(record.artifact_local_path, Some(artifact_path));
            assert_eq!(record.error, None);
            let reread =
                cloud_print::codec::parse_message(&pending_content).expect("stored text parses");
            assert_eq!(reread.artifact_url, "https://x/doc.pdf");
            assert_eq!(reread.artifact_local_path, record.artifact_local_path);
        }
        _ => panic!("a fetched notification must be queued"),
    }
    let name = json_file_name(&id);
    assert!(mgr.load(&name).is_some(), "exactly this record is pending");
}

#[test]
fn scenario_malformed_notification_goes_straight_to_error() {
    let err = ingest_parse("not-json").expect_err("the text must not parse");
    assert_eq!(err.raw_body, Some("not-json".to_string()));
    assert_eq!(err.status, JobStatus::Invalid);
    assert!(err.error.is_some());
    assert!(err.id.is_some());

    let cfg = config();
    let mut mgr = MessageManager::new(&cfg);
    let name = json_file_name(&err.id.clone().unwrap());
    mgr.save_error_message(&name, &err).expect("a fresh name is accepted");
    assert!(mgr.load(&name).is_none(), "nothing with this name is pending");
}

#[test]
fn scenario_fetch_404_rejects_without_touching_pending_or_artifacts() {
    let cfg = config();
    let mut mgr = MessageManager::new(&cfg);
    let frame = "{\"artifact_url\":\"https://x/missing.pdf\"}";
    let msg = ingest_parse(frame).unwrap();
    let id = msg.id.clone().unwrap();
    let outcome = ingest_complete(
        &mut mgr,
        msg,
        FetchOutcome::Response { status: 404, body: b"gone".to_vec() },
        frame,
    );
    match outcome {
        IngestOutcome::Rejected { error_path, error_content, record } => {
            assert_eq!(error_path, format!("./wdir/error/{}.json", id));
            assert_eq!(record.raw_body, Some(frame.to_string()));
            assert_eq!(record.status, JobStatus::Invalid);
            assert!(record.error.is_some());
            assert!(error_content.contains("https://x/missing.pdf"));
        }
        _ => panic!("a failed fetch must reject the record"),
    }
    let name = json_file_name(&id);
    assert!(mgr.load(&name).is_none(), "nothing entered pending");
}

#[test]
fn scenario_network_failure_keeps_its_diagnostic() {
    let cfg = config();
    let mut mgr = MessageManager::new(&cfg);
    let frame = "{\"artifact_url\":\"\"}";
    let msg = ingest_parse(frame).unwrap();
    let outcome = ingest_complete(
        &mut mgr,
        msg,
        FetchOutcome::NetworkFailure("relative URL without a base".to_string()),
        frame,
    );
    match outcome {
        IngestOutcome::Rejected { record, .. } => {
            assert_eq!(record.error, Some("relative URL without a base".to_string()));
        }
        _ => panic!("a network failure must reject the record"),
    }
}

fn queue_one(mgr: &mut MessageManager, id: &str) -> (String, Message) {
    let frame = "{\"artifact_url\":\"https://x/doc.pdf\"}".to_string();
    let mut msg = ingest_parse(&frame).unwrap();
    msg.id = Some(id.to_string());
    let outcome = ingest_complete(
        mgr,
        msg,
        FetchOutcome::Response { status: 200, body: vec![1, 2, 3] },
        &frame,
    );
    match outcome {
        IngestOutcome::Queued { record, .. } => (format!("{}.json", id), record),
        _ => panic!("queueing must succeed"),
    }
}

#[test]
fn scenario_successful_dispatch_moves_to_ok_with_timestamp() {
    let cfg = config();
    let mut mgr = MessageManager::new(&cfg);
    let (name, record) = queue_one(&mut mgr, "JOB1");
    let outcome = handle_print(
        &mut mgr,
        &name,
        Ok(record),
        Some(PrintOutcome::Launched),
    );
    match outcome {
        DispatchOutcome::Finished { moved_to, from_path, to_path, content, record } => {
            assert_eq!(moved_to, FileType::Okay);
            assert_eq!(from_path, "./wdir/pending/JOB1.json");
            assert_eq!(to_path, "./wdir/ok/JOB1.json");
            assert_eq!(record.status, JobStatus::Valid);
            assert!(record.processed_at.is_some());
            let reread = cloud_print::codec::parse_message(&content).unwrap();
            assert_eq!(reread.status, JobStatus::Valid);
            assert_eq!(reread.processed_at, record.processed_at);
        }
        _ => panic!("a launched sink finishes the record"),
    }
    assert!(mgr.load(&name).is_none(), "the record left pending");
}

#[test]
fn scenario_spawn_failure_moves_to_error_without_timestamp() {
    let cfg = config();
    let mut mgr = MessageManager::new(&cfg);
    let (name, record) = queue_one(&mut mgr, "JOB2");
    let outcome = handle_print(
        &mut mgr,
        &name,
        Ok(record),
        Some(PrintOutcome::SpawnFailed("No such file or directory".to_string())),
    );
    match outcome {
        DispatchOutcome::Finished { moved_to, to_path, record, .. } => {
            assert_eq!(moved_to, FileType::Error);
            assert_eq!(to_path, "./wdir/error/JOB2.json");
            assert_eq!(record.error, Some("No such file or directory".to_string()));
            assert_eq!(record.processed_at, None);
            assert_eq!(record.status, JobStatus::Invalid);
        }
        _ => panic!("a spawn failure finishes the record"),
    }
}

#[test]
fn scenario_corrupt_pending_file_moves_to_error() {
    let cfg = config();
    let mut mgr = MessageManager::new(&cfg);
    let (name, _) = queue_one(&mut mgr, "JOB3");
    let imported = import_record_text("garbage bytes");
    let err = match imported {
        Err(e) => e,
        Ok(_) => panic!("garbage must not import"),
    };
    assert_eq!(err.raw_body, Some("garbage bytes".to_string()));
    let outcome = handle_print(&mut mgr, &name, Err(err), None);
    match outcome {
        DispatchOutcome::Finished { moved_to, record, .. } => {
            assert_eq!(moved_to, FileType::Error);
            assert_eq!(record.raw_body, Some("garbage bytes".to_string()));
        }
        _ => panic!("a corrupt file finishes as an error"),
    }
}

#[test]
fn relocation_is_not_repeatable_and_never_duplicates() {
    let cfg = config();
    let mut mgr = MessageManager::new(&cfg);
    let (name, record) = queue_one(&mut mgr, "JOB4");
    let first = handle_print(&mut mgr, &name, Ok(record.clone()), Some(PrintOutcome::Launched));
    assert!(matches!(first, DispatchOutcome::Finished { .. }));
    let again = handle_print(&mut mgr, &name, Ok(record), Some(PrintOutcome::Launched));
    assert!(
        matches!(again, DispatchOutcome::NotInPending),
        "a second relocation for the same id is refused"
    );
    assert_eq!(
        mgr.move_message(FileType::Error, &name),
        Err(PersistenceError::MissingEntry)
    );
}

#[test]
fn one_id_has_one_representation() {
    let cfg = config();
    let mut mgr = MessageManager::new(&cfg);
    let (name, record) = queue_one(&mut mgr, "JOB5");
    assert_eq!(
        mgr.put_pending(name.clone(), record.clone()),
        Err(PersistenceError::DuplicateEntry)
    );
    assert_eq!(
        mgr.save_error_message(&name, &record),
        Err(PersistenceError::DuplicateEntry)
    );
}

#[test]
fn update_requires_a_pending_entry() {
    let cfg = config();
    let mut mgr = MessageManager::new(&cfg);
    let record = Message::default();
    assert_eq!(
        mgr.update_message(&"ghost.json".to_string(), &record),
        Err(PersistenceError::MissingEntry)
    );
    let (name, record) = queue_one(&mut mgr, "JOB6");
    assert_eq!(mgr.update_message(&name, &record), Ok(()));
    mgr.move_message(FileType::Okay, &name).unwrap();
    assert_eq!(
        mgr.update_message(&name, &record),
        Err(PersistenceError::MissingEntry),
        "a terminal record is never mutated again"
    );
}

#[test]
fn load_sees_only_pending_entries() {
    let cfg = config();
    let mut mgr = MessageManager::new(&cfg);
    assert!(mgr.load(&"ghost.json".to_string()).is_none());
    let (name, _) = queue_one(&mut mgr, "JOB7");
    let rec = mgr.load(&name).expect("the queued record is pending");
    assert_eq!(rec.artifact_url, "https://x/doc.pdf");
    mgr.move_message(FileType::Error, &name).unwrap();
    assert!(mgr.load(&name).is_none());
}

#[test]
fn scenario_transport_drop_stops_both_workers() {
    let action = classify_frame(FrameEvent::TransportError("connection reset".to_string()));
    match action {
        FrameAction::Fatal(e) => assert_eq!(e, "connection reset"),
        FrameAction::Process(_) => panic!("a transport error must be fatal"),
    }
    let mut sup = Supervisor::new();
    assert!(!sup.should_stop());
    sup.signal_fatal();
    assert!(sup.should_stop(), "the dispatch worker exits on its next poll");
}

#[test]
fn non_text_frames_are_fatal_and_text_is_processed() {
    assert!(matches!(
        classify_frame(FrameEvent::OtherFrame),
        FrameAction::Fatal(_)
    ));
    match classify_frame(FrameEvent::Text("{}".to_string())) {
        FrameAction::Process(t) => assert_eq!(t, "{}"),
        FrameAction::Fatal(_) => panic!("text frames are processed"),
    }
}

#[test]
fn working_dir_paths_cover_the_four_directories() {
    let cfg = config();
    let paths = Dirs::working_dir_paths(&cfg);
    assert_eq!(
        paths,
        vec![
            "./wdir/pending".to_string(),
            "./wdir/error".to_string(),
            "./wdir/ok".to_string(),
            "./wdir/pdfs".to_string()
        ]
    );
}

#[test]
fn endpoint_url_carries_event_context_and_credential() {
    let mut cfg = config();
    cfg.ws_url = "ws://jobs.example/feed".to_string();
    cfg.ws_context_id = "E1".to_string();
    cfg.ws_context_name = "shop".to_string();
    cfg.ws_context_pwd = "SECRET-REDACTED".to_string();
    assert_eq!(
        cloud_print::ingest::ws_endpoint_url(&cfg),
        "ws://jobs.example/feed?eventId=E1&context=shop&pwd=SECRET-REDACTED"
    );
}

#[test]
fn print_command_uses_the_fixed_argument_template() {
    let mut cfg = config();
    cfg.printer_bin = "SumatraPDF.exe".to_string();
    cfg.printer_name = "office".to_string();
    cfg.printer_settings = "duplex,color".to_string();
    let pm = PrinterManager::new(&cfg);
    let mut msg = Message::default();
    msg.set_downloaded_file_path("./wdir/pdfs/J.pdf".to_string());
    let (exe, args) = pm.print_command(&msg);
    assert_eq!(exe, "./SumatraPDF.exe");
    assert_eq!(
        args,
        vec![
            "-print-to".to_string(),
            "office".to_string(),
            "-print-settings".to_string(),
            "duplex,color".to_string(),
            "./wdir/pdfs/J.pdf".to_string()
        ]
    );
}
