//! The job record: the unit of work exchanged between the ingestion side and
//! the dispatch side of the queue.

use vstd::prelude::*;

verus! {

/// Outcome of the last processing attempt on a record.
#[derive(Clone, Copy, PartialEq, Eq, Structural, Debug)]
pub enum JobStatus {
    Unknown,
    Valid,
    Invalid,
}

/// One print job. Records are persisted as JSON files named `{id}.json`
/// inside one of the queue directories.
#[derive(Clone, Debug)]
pub struct Message {
    /// Sortable identifier, generated at first creation and never changed.
    pub id: Option<String>,
    /// Where the payload artifact is fetched from.
    pub artifact_url: String,
    /// Set once the artifact has been fetched and stored locally.
    pub artifact_local_path: Option<String>,
    /// Outcome of the last processing attempt.
    pub status: JobStatus,
    /// Timestamp text, set on successful dispatch.
    pub processed_at: Option<String>,
    /// Diagnostic message, set on any failure at any stage.
    pub error: Option<String>,
    /// Original notification text, retained on parse or ingestion failure.
    pub raw_body: Option<String>,
    /// Pass-through metadata from the notification, kept verbatim.
    pub context: Option<String>,
}

/// Mathematical model of a record: every text field as a sequence of
/// characters.
pub ghost struct MessageView {
    pub id: Option<Seq<char>>,
    pub artifact_url: Seq<char>,
    pub artifact_local_path: Option<Seq<char>>,
    pub status: JobStatus,
    pub processed_at: Option<Seq<char>>,
    pub error: Option<Seq<char>>,
    pub raw_body: Option<Seq<char>>,
    pub context: Option<Seq<char>>,
}

impl View for Message {
    type V = MessageView;

    open spec fn view(&self) -> MessageView {
        MessageView {
            id: self.id.deep_view(),
            artifact_url: self.artifact_url.view(),
            artifact_local_path: self.artifact_local_path.deep_view(),
            status: self.status,
            processed_at: self.processed_at.deep_view(),
            error: self.error.deep_view(),
            raw_body: self.raw_body.deep_view(),
            context: self.context.deep_view(),
        }
    }
}

/// Relies on ulid::Ulid::generate and ulid::Ulid::to_string: the canonical
/// text of a ULID is exactly 26 characters drawn from the Crockford base32
/// alphabet, a subset of the ASCII digits and upper-case letters.
#[verifier::external_body]
pub(crate) fn fresh_id() -> (r: String)
    ensures
        r@.len() == 26,
        forall|i: int|
            0 <= i < r@.len() ==> (('0' <= #[trigger] r@[i] && r@[i] <= '9') || ('A' <= r@[i]
                && r@[i] <= 'Z')),
{
    ulid::Ulid::generate().to_string()
}

/// Relies on chrono::Utc::now and chrono::DateTime::to_rfc3339: the result
/// depends on the wall clock, so nothing is promised of its text.
#[verifier::external_body]
pub(crate) fn now_rfc3339() -> (r: String)
{
    chrono::Utc::now().to_rfc3339()
}

impl Default for Message {
    /// A record with a fresh identifier, a placeholder artifact location and
    /// every optional field absent.
    fn default() -> (r: Message)
        ensures
            r.id matches Some(id) && id@.len() == 26,
            r@.artifact_url == "invalid-value"@,
            r@.artifact_local_path is None,
            r@.status == JobStatus::Unknown,
            r@.processed_at is None,
            r@.error is None,
            r@.raw_body is None,
            r@.context is None,
    {
        Message {
            id: Some(fresh_id()),
            artifact_url: String::from_str("invalid-value"),
            artifact_local_path: None,
            status: JobStatus::Unknown,
            processed_at: None,
            error: None,
            raw_body: None,
            context: None,
        }
    }
}

/// A copy of an optional owned string.
pub(crate) fn clone_opt_string(o: &Option<String>) -> (r: Option<String>)
    ensures
        r == *o,
{
    match o {
        Some(s) => Some(s.clone()),
        None => None,
    }
}

impl Message {
    /// A field-for-field copy.
    pub fn duplicate(&self) -> (r: Message)
        ensures
            r == *self,
    {
        Message {
            id: clone_opt_string(&self.id),
            artifact_url: self.artifact_url.clone(),
            artifact_local_path: clone_opt_string(&self.artifact_local_path),
            status: self.status,
            processed_at: clone_opt_string(&self.processed_at),
            error: clone_opt_string(&self.error),
            raw_body: clone_opt_string(&self.raw_body),
            context: clone_opt_string(&self.context),
        }
    }

    /// Marks the record as failed: the status becomes invalid, the diagnostic
    /// is stored, and the original notification text replaces the previous
    /// raw body.
    pub fn set_error(&mut self, error: String, original_body: Option<String>)
        ensures
            final(self)@ == (MessageView {
                status: JobStatus::Invalid,
                error: Some(error@),
                raw_body: original_body.deep_view(),
                ..old(self)@
            }),
    {
        self.status = JobStatus::Invalid;
        self.error = Some(error);
        self.raw_body = original_body;
    }

    /// Marks the record as successfully dispatched: the status becomes valid
    /// and the processing timestamp is set to the current time.
    pub fn set_successful(&mut self)
        ensures
            final(self)@.status == JobStatus::Valid,
            final(self)@.processed_at is Some,
            final(self)@ == (MessageView {
                status: JobStatus::Valid,
                processed_at: final(self)@.processed_at,
                ..old(self)@
            }),
    {
        self.status = JobStatus::Valid;
        self.processed_at = Some(now_rfc3339());
    }

    /// Records where the fetched artifact was stored locally.
    pub fn set_downloaded_file_path(&mut self, pdf_path: String)
        ensures
            final(self)@ == (MessageView { artifact_local_path: Some(pdf_path@), ..old(self)@ }),
    {
        self.artifact_local_path = Some(pdf_path);
    }

    /// Combines this record with a newer one: the identifier and the already
    /// known optional fields of `self` win, the artifact location comes from
    /// the newer record, and gaps are filled from the newer record.
    pub fn merge(self, new_msg: Message) -> (r: Message)
        ensures
            r@.id == self@.id,
            r@.artifact_url == new_msg@.artifact_url,
            r@.artifact_local_path == (if self@.artifact_local_path is Some {
                self@.artifact_local_path
            } else {
                new_msg@.artifact_local_path
            }),
            r@.status == (if self@.status != JobStatus::Unknown {
                self@.status
            } else {
                new_msg@.status
            }),
            r@.processed_at == (if self@.processed_at is Some {
                self@.processed_at
            } else {
                new_msg@.processed_at
            }),
            r@.error == (if self@.error is Some {
                self@.error
            } else {
                new_msg@.error
            }),
            r@.raw_body == (if self@.raw_body is Some {
                self@.raw_body
            } else {
                new_msg@.raw_body
            }),
            r@.context == (if self@.context is Some {
                self@.context
            } else {
                new_msg@.context
            }),
    {
        Message {
            id: self.id,
            artifact_url: new_msg.artifact_url,
            artifact_local_path: if self.artifact_local_path.is_some() {
                self.artifact_local_path
            } else {
                new_msg.artifact_local_path
            },
            status: if !matches!(self.status, JobStatus::Unknown) {
                self.status
            } else {
                new_msg.status
            },
            processed_at: if self.processed_at.is_some() {
                self.processed_at
            } else {
                new_msg.processed_at
            },
            error: if self.error.is_some() {
                self.error
            } else {
                new_msg.error
            },
            raw_body: if self.raw_body.is_some() {
                self.raw_body
            } else {
                new_msg.raw_body
            },
            context: if self.context.is_some() {
                self.context
            } else {
                new_msg.context
            },
        }
    }
}

} // verus!
