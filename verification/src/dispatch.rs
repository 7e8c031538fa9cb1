//! The per-event steps of the dispatch side.
//!
//! A create event on the `pending` directory names one file. The caller
//! reads that file (waiting out transient busy handles) and classifies its
//! text with [`import_record_text`]; if a record came out, the caller
//! launches the execution sink and reports how the launch went. With both
//! answers in hand, [`handle_print`] finalizes the record — successful,
//! spawn failure, or corrupt file — and relocates it to its terminal
//! directory in the store model. The caller mirrors the returned write and
//! rename on disk.

use vstd::prelude::*;

use crate::codec::parse_message;
use crate::codec::serialize_message;
use crate::codec::spec_parse_record;
use crate::codec::spec_serialize;
use crate::dirs::dir_error;
use crate::dirs::dir_ok;
use crate::dirs::dir_pending;
use crate::dirs::spec_file_path;
use crate::message::JobStatus;
use crate::message::Message;
use crate::message::MessageView;
use crate::message_manager::has_pending;
use crate::message_manager::lemma_at_most_one_representation;
use crate::message_manager::loc_of;
use crate::message_manager::wf_entries;
use crate::message_manager::FileType;
use crate::message_manager::Location;
use crate::message_manager::MessageManager;
use crate::message_manager::QueueEntryView;

verus! {

/// The diagnostic stored when a queued file does not deserialize.
pub open spec fn corrupt_record_note() -> Seq<char> {
    "the queued file does not hold a valid job record"@
}

/// Classifies the text of a queued file: the record it holds, or the error
/// record that replaces it when the file does not deserialize — the
/// diagnostic set and the file text retained.
pub fn import_record_text(text: &str) -> (r: Result<Message, Message>)
    ensures
        match r {
            Ok(m) => spec_parse_record(text@) == Some(m@),
            Err(e) => {
                &&& spec_parse_record(text@) is None
                &&& e@.status == JobStatus::Unknown
                &&& e@.error == Some(corrupt_record_note())
                &&& e@.raw_body == Some(text@)
                &&& e@.id is Some
                &&& e@.artifact_url == "invalid-value"@
                &&& e@.artifact_local_path is None
                &&& e@.processed_at is None
                &&& e@.context is None
            },
        },
{
    match parse_message(text) {
        Some(m) => Ok(m),
        None => {
            let mut e = Message::default();
            e.error = Some(String::from_str("the queued file does not hold a valid job record"));
            e.raw_body = Some(String::from_str(text));
            Err(e)
        },
    }
}

/// How launching the execution sink went.
pub enum PrintOutcome {
    /// The subprocess was launched; launching counts as success.
    Launched,
    /// The spawn itself failed.
    SpawnFailed(String),
}

/// What the caller must now do on disk for one dispatched file.
pub enum DispatchOutcome {
    /// Write `content` over the file at `from_path`, then rename it to
    /// `to_path`.
    Finished {
        moved_to: FileType,
        from_path: String,
        to_path: String,
        content: String,
        record: Message,
    },
    /// No pending entry bears this file name; nothing changed.
    NotInPending,
}

/// Finalizes one dispatch attempt. A loaded record whose sink launch
/// succeeded becomes valid, is stamped with the processing time and moves
/// to `ok`; a spawn failure stores its diagnostic and moves the record to
/// `error`; a corrupt file moves to `error` carrying its text.
pub fn handle_print(
    mgr: &mut MessageManager,
    file_name: &String,
    imported: Result<Message, Message>,
    outcome: Option<PrintOutcome>,
) -> (r: DispatchOutcome)
    requires
        wf_entries(old(mgr)@),
        imported is Ok <==> outcome is Some,
    ensures
        wf_entries(final(mgr)@),
        final(mgr).app_config == old(mgr).app_config,
        match r {
            DispatchOutcome::Finished { moved_to, from_path, to_path, content, record } => {
                &&& has_pending(old(mgr)@, file_name@)
                &&& exists|i: int|
                    0 <= i < old(mgr)@.len() && (#[trigger] old(mgr)@[i].file_name) == file_name@
                        && old(mgr)@[i].location == Location::Pending && final(mgr)@ == old(
                        mgr,
                    )@.update(
                        i,
                        QueueEntryView {
                            file_name: file_name@,
                            location: loc_of(moved_to),
                            record: record@,
                        },
                    )
                &&& content@ == spec_serialize(record@)
                &&& from_path@ == spec_file_path(
                    old(mgr).app_config.root_path@,
                    old(mgr).app_config.work_dir_name@,
                    dir_pending(),
                    file_name@,
                )
                &&& to_path@ == spec_file_path(
                    old(mgr).app_config.root_path@,
                    old(mgr).app_config.work_dir_name@,
                    if moved_to is Okay {
                        dir_ok()
                    } else {
                        dir_error()
                    },
                    file_name@,
                )
                &&& match imported {
                    Ok(m) => match outcome {
                        Some(PrintOutcome::Launched) => {
                            &&& moved_to == FileType::Okay
                            &&& record@.status == JobStatus::Valid
                            &&& record@.processed_at is Some
                            &&& record@ == (MessageView {
                                status: JobStatus::Valid,
                                processed_at: record@.processed_at,
                                ..m@
                            })
                        },
                        Some(PrintOutcome::SpawnFailed(e)) => {
                            &&& moved_to == FileType::Error
                            &&& record@ == (MessageView {
                                status: JobStatus::Invalid,
                                error: Some(e@),
                                raw_body: None,
                                ..m@
                            })
                        },
                        None => false,
                    },
                    Err(em) => moved_to == FileType::Error && record@ == em@,
                }
            },
            DispatchOutcome::NotInPending => !has_pending(old(mgr)@, file_name@) && final(mgr)@
                == old(mgr)@,
        },
{
    let (record, moved_to): (Message, FileType) = match imported {
        Ok(m) => {
            match outcome {
                Some(PrintOutcome::Launched) => {
                    let mut rec = m;
                    rec.set_successful();
                    (rec, FileType::Okay)
                },
                Some(PrintOutcome::SpawnFailed(e)) => {
                    let mut rec = m;
                    rec.set_error(e, None);
                    (rec, FileType::Error)
                },
                None => {
                    proof {
                        assert(false);
                    }
                    (m, FileType::Error)
                },
            }
        },
        Err(em) => (em, FileType::Error),
    };
    let ghost pre = mgr@;
    match mgr.update_message(file_name, &record) {
        Err(_) => DispatchOutcome::NotInPending,
        Ok(_) => {
            let ghost mid = mgr@;
            let status = moved_to;
            match mgr.move_message(status, file_name) {
                Err(_) => {
                    proof {
                        let i = choose|i: int|
                            0 <= i < pre.len() && (#[trigger] pre[i].file_name) == file_name@
                                && pre[i].location == Location::Pending && mid == pre.update(
                                i,
                                QueueEntryView {
                                    file_name: file_name@,
                                    location: Location::Pending,
                                    record: record@,
                                },
                            );
                        assert(mid[i].file_name == file_name@ && mid[i].location
                            == Location::Pending);
                        assert(has_pending(mid, file_name@));
                        assert(false);
                    }
                    DispatchOutcome::NotInPending
                },
                Ok(_) => {
                    proof {
                        let i = choose|i: int|
                            0 <= i < pre.len() && (#[trigger] pre[i].file_name) == file_name@
                                && pre[i].location == Location::Pending && mid == pre.update(
                                i,
                                QueueEntryView {
                                    file_name: file_name@,
                                    location: Location::Pending,
                                    record: record@,
                                },
                            );
                        let j = choose|j: int|
                            0 <= j < mid.len() && (#[trigger] mid[j].file_name) == file_name@
                                && mid[j].location == Location::Pending && mgr@ == mid.update(
                                j,
                                QueueEntryView {
                                    file_name: file_name@,
                                    location: loc_of(status),
                                    record: mid[j].record,
                                },
                            );
                        assert(mid[i].file_name == file_name@);
                        lemma_at_most_one_representation(mid, i, j);
                        assert(mid[i].record == record@);
                        assert(mgr@ =~= pre.update(
                            i,
                            QueueEntryView {
                                file_name: file_name@,
                                location: loc_of(status),
                                record: record@,
                            },
                        ));
                        assert(pre[i].file_name == file_name@ && pre[i].location
                            == Location::Pending);
                    }
                    let from_path = mgr.pending_path(file_name);
                    let to_path = match moved_to {
                        FileType::Okay => mgr.ok_path(file_name),
                        FileType::Error => mgr.error_path(file_name),
                    };
                    let content = serialize_message(&record);
                    DispatchOutcome::Finished { moved_to, from_path, to_path, content, record }
                },
            }
        },
    }
}

} // verus!
