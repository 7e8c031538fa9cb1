//! The per-notification steps of the ingestion side.
//!
//! One frame arrives over the remote connection; its text is parsed into a
//! record (`ingest_parse`), the artifact named by the record is fetched by
//! the caller, and the outcome of that fetch decides whether the record is
//! queued under `pending` or written straight to `error`
//! (`ingest_complete`). The caller performs the reads and writes named in
//! the returned outcome; the store model inside [`MessageManager`] moves in
//! lock step with them.

use vstd::prelude::*;

use crate::codec::parse_message;
use crate::codec::serialize_message;
use crate::codec::spec_parse_record;
use crate::codec::spec_serialize;
use crate::dirs::dir_artifacts;
use crate::dirs::dir_error;
use crate::dirs::dir_pending;
use crate::dirs::spec_file_path;
use crate::message::fresh_id;
use crate::message::JobStatus;
use crate::message::Message;
use crate::message::MessageView;
use crate::message_manager::has_name;
use crate::message_manager::wf_entries;
use crate::message_manager::Location;
use crate::message_manager::MessageManager;
use crate::message_manager::PersistenceError;
use crate::message_manager::QueueEntryView;

verus! {

/// The endpoint the ingestion worker connects to: the configured URL
/// augmented with the event, context and credential query parameters.
pub fn ws_endpoint_url(config: &crate::config::AppConfig) -> (r: String)
    ensures
        r@ == config.ws_url@ + "?eventId="@ + config.ws_context_id@ + "&context="@
            + config.ws_context_name@ + "&pwd="@ + config.ws_context_pwd@,
{
    let mut r = config.ws_url.clone();
    r.append("?eventId=");
    r.append(config.ws_context_id.as_str());
    r.append("&context=");
    r.append(config.ws_context_name.as_str());
    r.append("&pwd=");
    r.append(config.ws_context_pwd.as_str());
    r
}

/// One read from the remote connection, as the caller saw it.
pub enum FrameEvent {
    /// A text frame arrived.
    Text(String),
    /// A frame of any other kind arrived (binary, control).
    OtherFrame,
    /// The read itself failed or the connection closed.
    TransportError(String),
}

/// What the ingestion loop does with one read.
pub enum FrameAction {
    /// Parse and ingest this notification text.
    Process(String),
    /// Stop the worker and signal the supervisor; the connection is gone
    /// or unusable.
    Fatal(String),
}

/// Only a text frame is a notification; every other read ends the worker.
pub fn classify_frame(ev: FrameEvent) -> (r: FrameAction)
    ensures
        match ev {
            FrameEvent::Text(t) => r == FrameAction::Process(t),
            FrameEvent::OtherFrame => r is Fatal,
            FrameEvent::TransportError(e) => r == FrameAction::Fatal(e),
        },
{
    match ev {
        FrameEvent::Text(t) => FrameAction::Process(t),
        FrameEvent::OtherFrame => FrameAction::Fatal(
            String::from_str("the connection delivered a frame that is not text"),
        ),
        FrameEvent::TransportError(e) => FrameAction::Fatal(e),
    }
}

/// The diagnostic stored when a notification text does not parse.
pub open spec fn parse_failure_note() -> Seq<char> {
    "the notification is not a valid job record"@
}

/// The diagnostic stored when the artifact fetch returned a non-success
/// status.
pub open spec fn http_failure_note() -> Seq<char> {
    "the artifact fetch returned a non-success status"@
}

/// `{id}.json`
pub fn json_file_name(id: &String) -> (r: String)
    ensures
        r@ == id@ + ".json"@,
{
    let mut r = id.clone();
    r.append(".json");
    r
}

/// `{id}.pdf`
pub fn pdf_file_name(id: &String) -> (r: String)
    ensures
        r@ == id@ + ".pdf"@,
{
    let mut r = id.clone();
    r.append(".pdf");
    r
}

/// Parses one notification text into a record. A record without an
/// identifier gets a fresh one. When the text does not parse, the error
/// record that is written straight to `error` comes back instead: status
/// invalid, the diagnostic set, and the original text retained.
pub fn ingest_parse(frame: &str) -> (r: Result<Message, Message>)
    ensures
        match r {
            Ok(m) => {
                &&& spec_parse_record(frame@) matches Some(mv) && m@ == (MessageView {
                    id: m@.id,
                    ..mv
                }) && (mv.id is Some ==> m@.id == mv.id)
                &&& m@.id is Some
            },
            Err(e) => {
                &&& spec_parse_record(frame@) is None
                &&& e@.status == JobStatus::Invalid
                &&& e@.error == Some(parse_failure_note())
                &&& e@.raw_body == Some(frame@)
                &&& e@.id is Some
                &&& e@.artifact_url == "invalid-value"@
                &&& e@.artifact_local_path is None
                &&& e@.processed_at is None
                &&& e@.context is None
            },
        },
{
    match parse_message(frame) {
        Some(m) => {
            if m.id.is_some() {
                Ok(m)
            } else {
                let with_id = Message { id: Some(fresh_id()), ..m };
                Ok(with_id)
            }
        },
        None => {
            let mut e = Message::default();
            e.set_error(
                String::from_str("the notification is not a valid job record"),
                Some(String::from_str(frame)),
            );
            Err(e)
        },
    }
}

/// What came back from the blocking artifact fetch.
pub enum FetchOutcome {
    /// The request completed with this status code and body.
    Response { status: u16, body: Vec<u8> },
    /// The request never completed.
    NetworkFailure(String),
}

/// A fetch succeeded when it completed with a 2xx status.
pub open spec fn fetch_ok(f: FetchOutcome) -> bool {
    match f {
        FetchOutcome::Response { status, body } => 200 <= status < 300,
        FetchOutcome::NetworkFailure(_) => false,
    }
}

/// The diagnostic that a failed fetch leaves in the record.
pub open spec fn fetch_failure_note(f: FetchOutcome) -> Seq<char> {
    match f {
        FetchOutcome::Response { status, body } => http_failure_note(),
        FetchOutcome::NetworkFailure(e) => e@,
    }
}

/// What the caller must now do on disk for one ingested notification.
pub enum IngestOutcome {
    /// The job is queued: store the artifact bytes, then write the record
    /// text at the pending path.
    Queued {
        artifact_path: String,
        artifact_bytes: Vec<u8>,
        pending_path: String,
        pending_content: String,
        record: Message,
    },
    /// The fetch failed: write the record text straight at the error path.
    /// Nothing is stored in the artifact directory and nothing appears in
    /// `pending`.
    Rejected { error_path: String, error_content: String, record: Message },
    /// The store refused the file name; nothing changed.
    Refused(PersistenceError),
}

/// Finishes one notification after its artifact fetch: on a 2xx response
/// the record, now pointing at the stored artifact, joins `pending`;
/// otherwise the record is marked failed, retains the notification text,
/// and goes straight to `error`.
pub fn ingest_complete(
    mgr: &mut MessageManager,
    msg: Message,
    fetch: FetchOutcome,
    frame: &str,
) -> (r: IngestOutcome)
    requires
        msg.id is Some,
        wf_entries(old(mgr)@),
    ensures
        wf_entries(final(mgr)@),
        final(mgr).app_config == old(mgr).app_config,
        match r {
            IngestOutcome::Queued { artifact_path, artifact_bytes, pending_path, pending_content, record } => {
                let name = msg@.id.unwrap() + ".json"@;
                let apath = spec_file_path(
                    old(mgr).app_config.root_path@,
                    old(mgr).app_config.work_dir_name@,
                    dir_artifacts(),
                    msg@.id.unwrap() + ".pdf"@,
                );
                &&& fetch_ok(fetch)
                &&& fetch matches FetchOutcome::Response { status, body } && artifact_bytes@
                    == body@
                &&& artifact_path@ == apath
                &&& record@ == (MessageView { artifact_local_path: Some(apath), ..msg@ })
                &&& pending_path@ == spec_file_path(
                    old(mgr).app_config.root_path@,
                    old(mgr).app_config.work_dir_name@,
                    dir_pending(),
                    name,
                )
                &&& pending_content@ == spec_serialize(record@)
                &&& !has_name(old(mgr)@, name)
                &&& final(mgr)@ == old(mgr)@.push(
                    QueueEntryView { file_name: name, location: Location::Pending, record: record@ },
                )
            },
            IngestOutcome::Rejected { error_path, error_content, record } => {
                let name = msg@.id.unwrap() + ".json"@;
                &&& !fetch_ok(fetch)
                &&& record@ == (MessageView {
                    status: JobStatus::Invalid,
                    error: Some(fetch_failure_note(fetch)),
                    raw_body: Some(frame@),
                    ..msg@
                })
                &&& error_path@ == spec_file_path(
                    old(mgr).app_config.root_path@,
                    old(mgr).app_config.work_dir_name@,
                    dir_error(),
                    name,
                )
                &&& error_content@ == spec_serialize(record@)
                &&& !has_name(old(mgr)@, name)
                &&& final(mgr)@ == old(mgr)@.push(
                    QueueEntryView { file_name: name, location: Location::Error, record: record@ },
                )
            },
            IngestOutcome::Refused(e) => {
                &&& e == PersistenceError::DuplicateEntry
                &&& has_name(old(mgr)@, msg@.id.unwrap() + ".json"@)
                &&& final(mgr)@ == old(mgr)@
            },
        },
{
    let id = crate::message::clone_opt_string(&msg.id).unwrap();
    let file_name = json_file_name(&id);
    let failed_note: Option<String> = match &fetch {
        FetchOutcome::Response { status, body } => {
            if 200 <= *status && *status < 300 {
                None
            } else {
                Some(String::from_str("the artifact fetch returned a non-success status"))
            }
        },
        FetchOutcome::NetworkFailure(e) => Some(e.clone()),
    };
    match failed_note {
        None => {
            let body = match fetch {
                FetchOutcome::Response { status, body } => body,
                FetchOutcome::NetworkFailure(_) => {
                    proof {
                        assert(false);
                    }
                    Vec::new()
                },
            };
            let pdf_name = pdf_file_name(&id);
            let artifact_path = mgr.artifact_path(&pdf_name);
            let mut record = msg;
            record.set_downloaded_file_path(artifact_path.clone());
            let pending_path = mgr.pending_path(&file_name);
            let pending_content = serialize_message(&record);
            match mgr.put_pending(file_name, record.duplicate()) {
                Ok(_) => IngestOutcome::Queued {
                    artifact_path,
                    artifact_bytes: body,
                    pending_path,
                    pending_content,
                    record,
                },
                Err(e) => IngestOutcome::Refused(e),
            }
        },
        Some(note) => {
            let mut record = msg;
            record.set_error(note, Some(String::from_str(frame)));
            let error_path = mgr.error_path(&file_name);
            let error_content = serialize_message(&record);
            match mgr.save_error_message(&file_name, &record) {
                Ok(_) => IngestOutcome::Rejected { error_path, error_content, record },
                Err(e) => IngestOutcome::Refused(e),
            }
        },
    }
}

} // verus!
