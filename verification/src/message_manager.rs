//! The queue store: directory membership as a state machine.
//!
//! A record lives in exactly one of three directories — `pending`, `ok` or
//! `error` — and moves between them by atomic rename. This module holds the
//! verified model of that membership: which file name sits where, with which
//! record, under the invariant that one file name never has two entries. The
//! physical reads, writes and renames mirror these transitions outside the
//! crate; the path of each file comes from the methods here.

use vstd::prelude::*;

use crate::config::AppConfig;
use crate::dirs::dir_artifacts;
use crate::dirs::dir_error;
use crate::dirs::dir_ok;
use crate::dirs::dir_pending;
use crate::dirs::file_path;
use crate::dirs::spec_file_path;
use crate::message::Message;
use crate::message::MessageView;

verus! {

/// The directory a record currently sits in.
#[derive(Clone, Copy, PartialEq, Eq, Structural, Debug)]
pub enum Location {
    Pending,
    Okay,
    Error,
}

/// The two terminal directories a pending record can move to.
#[derive(Clone, Copy, PartialEq, Eq, Structural, Debug)]
pub enum FileType {
    Okay,
    Error,
}

/// Why a store transition was refused. The store itself never loses an
/// entry: a refused transition leaves every entry where it was.
#[derive(Clone, Copy, PartialEq, Eq, Structural, Debug)]
pub enum PersistenceError {
    /// A record with this file name already exists somewhere in the store.
    DuplicateEntry,
    /// No record with this file name sits in `pending`.
    MissingEntry,
}

/// One queued record and where it sits.
pub struct QueueEntry {
    pub file_name: String,
    pub location: Location,
    pub record: Message,
}

pub ghost struct QueueEntryView {
    pub file_name: Seq<char>,
    pub location: Location,
    pub record: MessageView,
}

impl View for QueueEntry {
    type V = QueueEntryView;

    open spec fn view(&self) -> QueueEntryView {
        QueueEntryView {
            file_name: self.file_name@,
            location: self.location,
            record: self.record@,
        }
    }
}

pub open spec fn loc_of(status: FileType) -> Location {
    match status {
        FileType::Okay => Location::Okay,
        FileType::Error => Location::Error,
    }
}

/// No file name occurs twice: a job id has one representation at most.
pub open spec fn wf_entries(s: Seq<QueueEntryView>) -> bool {
    forall|i: int, j: int|
        0 <= i < s.len() && 0 <= j < s.len() && i != j ==> (#[trigger] s[i].file_name) != (
        #[trigger] s[j].file_name)
}

pub open spec fn has_name(s: Seq<QueueEntryView>, name: Seq<char>) -> bool {
    exists|i: int| 0 <= i < s.len() && (#[trigger] s[i].file_name) == name
}

pub open spec fn has_pending(s: Seq<QueueEntryView>, name: Seq<char>) -> bool {
    exists|i: int|
        0 <= i < s.len() && (#[trigger] s[i].file_name) == name && s[i].location
            == Location::Pending
}

/// A job id has at most one representation across the three directories:
/// two entries bearing the same file name are one and the same entry.
pub proof fn lemma_at_most_one_representation(s: Seq<QueueEntryView>, i: int, j: int)
    requires
        wf_entries(s),
        0 <= i < s.len(),
        0 <= j < s.len(),
        s[i].file_name == s[j].file_name,
    ensures
        i == j,
{
}

/// Relocation is final: once the entry of a file name has left `pending`
/// for a terminal directory, that name is no longer pending, so a second
/// relocation for the same name is refused as a missing entry and changes
/// nothing — never a silent duplicate.
pub proof fn lemma_relocate_is_final(s: Seq<QueueEntryView>, i: int, e2: QueueEntryView)
    requires
        wf_entries(s),
        0 <= i < s.len(),
        e2.file_name == s[i].file_name,
        e2.location != Location::Pending,
    ensures
        !has_pending(s.update(i, e2), s[i].file_name),
        wf_entries(s.update(i, e2)),
{
    let s2 = s.update(i, e2);
    assert forall|j: int|
        0 <= j < s2.len() && (#[trigger] s2[j].file_name) == s[i].file_name implies s2[j].location
        != Location::Pending by {
        if j != i {
            assert(s2[j] == s[j]);
            assert(s[j].file_name != s[i].file_name);
        }
    }
}

/// The queue store model: every known record, its directory, and the
/// configuration that locates the store on disk.
pub struct MessageManager {
    pub app_config: AppConfig,
    pub entries: Vec<QueueEntry>,
}

impl View for MessageManager {
    type V = Seq<QueueEntryView>;

    open spec fn view(&self) -> Seq<QueueEntryView> {
        Seq::new(self.entries@.len(), |i: int| self.entries@[i]@)
    }
}

impl MessageManager {
    /// An empty store over the given configuration.
    pub fn new(app_config: &AppConfig) -> (r: MessageManager)
        ensures
            r@ =~= Seq::<QueueEntryView>::empty(),
            r.app_config == *app_config,
            wf_entries(r@),
    {
        MessageManager { app_config: app_config.duplicate(), entries: Vec::new() }
    }

    /// The index of the entry bearing this file name, if any.
    fn find_name(&self, name: &String) -> (r: Option<usize>)
        ensures
            match r {
                Some(k) => k < self@.len() && self@[k as int].file_name == name@,
                None => !has_name(self@, name@),
            },
    {
        let mut k: usize = 0;
        while k < self.entries.len()
            invariant
                k <= self.entries@.len(),
                self@.len() == self.entries@.len(),
                forall|t: int| 0 <= t < k ==> (#[trigger] self@[t].file_name) != name@,
            decreases self.entries@.len() - k,
        {
            if self.entries[k].file_name == *name {
                return Some(k);
            }
            k = k + 1;
        }
        None
    }

    /// Files a new record under `pending`. Refused when the store already
    /// holds this file name anywhere: queue membership stays unique.
    pub fn put_pending(&mut self, file_name: String, record: Message) -> (r: Result<
        (),
        PersistenceError,
    >)
        ensures
            final(self).app_config == old(self).app_config,
            match r {
                Ok(_) => !has_name(old(self)@, file_name@) && final(self)@ == old(self)@.push(
                    QueueEntryView {
                        file_name: file_name@,
                        location: Location::Pending,
                        record: record@,
                    },
                ),
                Err(e) => e == PersistenceError::DuplicateEntry && has_name(old(self)@, file_name@)
                    && final(self)@ == old(self)@,
            },
            wf_entries(old(self)@) ==> wf_entries(final(self)@),
    {
        match self.find_name(&file_name) {
            Some(_) => Err(PersistenceError::DuplicateEntry),
            None => {
                let ghost pre = self@;
                self.entries.push(
                    QueueEntry { file_name, location: Location::Pending, record },
                );
                proof {
                    assert(self@ =~= pre.push(self@[pre.len() as int]));
                    if wf_entries(pre) {
                        assert forall|i: int, j: int|
                            0 <= i < self@.len() && 0 <= j < self@.len() && i != j implies (
                        #[trigger] self@[i].file_name) != (#[trigger] self@[j].file_name) by {
                            if i < pre.len() && j < pre.len() {
                                assert(pre[i].file_name != pre[j].file_name);
                            } else if i < pre.len() {
                                assert(!has_name(pre, self@[j].file_name));
                            } else {
                                assert(!has_name(pre, self@[i].file_name));
                            }
                        }
                    }
                }
                Ok(())
            },
        }
    }

    /// Files a record straight under `error`, for notifications that never
    /// became valid pending jobs. Refused on a duplicate file name.
    pub fn save_error_message(&mut self, file_name: &String, message: &Message) -> (r: Result<
        (),
        PersistenceError,
    >)
        ensures
            final(self).app_config == old(self).app_config,
            match r {
                Ok(_) => !has_name(old(self)@, file_name@) && final(self)@ == old(self)@.push(
                    QueueEntryView {
                        file_name: file_name@,
                        location: Location::Error,
                        record: message@,
                    },
                ),
                Err(e) => e == PersistenceError::DuplicateEntry && has_name(old(self)@, file_name@)
                    && final(self)@ == old(self)@,
            },
            wf_entries(old(self)@) ==> wf_entries(final(self)@),
    {
        match self.find_name(file_name) {
            Some(_) => Err(PersistenceError::DuplicateEntry),
            None => {
                let ghost pre = self@;
                self.entries.push(
                    QueueEntry {
                        file_name: file_name.clone(),
                        location: Location::Error,
                        record: message.duplicate(),
                    },
                );
                proof {
                    assert(self@ =~= pre.push(self@[pre.len() as int]));
                    if wf_entries(pre) {
                        assert forall|i: int, j: int|
                            0 <= i < self@.len() && 0 <= j < self@.len() && i != j implies (
                        #[trigger] self@[i].file_name) != (#[trigger] self@[j].file_name) by {
                            if i < pre.len() && j < pre.len() {
                                assert(pre[i].file_name != pre[j].file_name);
                            } else if i < pre.len() {
                                assert(!has_name(pre, self@[j].file_name));
                            } else {
                                assert(!has_name(pre, self@[i].file_name));
                            }
                        }
                    }
                }
                Ok(())
            },
        }
    }

    /// Overwrites the record of a pending entry without relocating it.
    /// Refused when this file name has no pending entry.
    pub fn update_message(&mut self, file_name: &String, message: &Message) -> (r: Result<
        (),
        PersistenceError,
    >)
        requires
            wf_entries(old(self)@),
        ensures
            final(self).app_config == old(self).app_config,
            match r {
                Ok(_) => exists|i: int|
                    0 <= i < old(self)@.len() && (#[trigger] old(self)@[i].file_name) == file_name@
                        && old(self)@[i].location == Location::Pending && final(self)@ == old(
                        self,
                    )@.update(
                        i,
                        QueueEntryView {
                            file_name: file_name@,
                            location: Location::Pending,
                            record: message@,
                        },
                    ),
                Err(e) => e == PersistenceError::MissingEntry && !has_pending(
                    old(self)@,
                    file_name@,
                ) && final(self)@ == old(self)@,
            },
            wf_entries(final(self)@),
    {
        match self.find_name(file_name) {
            None => {
                proof {
                    assert(final(self)@ =~= old(self)@);
                }
                Err(PersistenceError::MissingEntry)
            },
            Some(k) => {
                if !matches!(self.entries[k].location, Location::Pending) {
                    proof {
                        if has_pending(self@, file_name@) {
                            let w = choose|i: int|
                                0 <= i < self@.len() && (#[trigger] self@[i].file_name)
                                    == file_name@ && self@[i].location == Location::Pending;
                            lemma_at_most_one_representation(self@, w, k as int);
                        }
                    }
                    return Err(PersistenceError::MissingEntry);
                }
                let ghost pre = self@;
                let e = self.entries.remove(k);
                self.entries.insert(
                    k,
                    QueueEntry {
                        file_name: e.file_name,
                        location: Location::Pending,
                        record: message.duplicate(),
                    },
                );
                proof {
                    assert(self@ =~= pre.update(
                        k as int,
                        QueueEntryView {
                            file_name: file_name@,
                            location: Location::Pending,
                            record: message@,
                        },
                    ));
                    if wf_entries(pre) {
                        assert forall|i: int, j: int|
                            0 <= i < self@.len() && 0 <= j < self@.len() && i != j implies (
                        #[trigger] self@[i].file_name) != (#[trigger] self@[j].file_name) by {
                            assert(self@[i].file_name == pre[i].file_name);
                            assert(self@[j].file_name == pre[j].file_name);
                        }
                    }
                }
                Ok(())
            },
        }
    }

    /// Relocates a pending entry to a terminal directory by its file name.
    /// Refused, with every entry left in place, when no pending entry bears
    /// this name — in particular when the record already sits in `ok` or
    /// `error`.
    pub fn move_message(&mut self, status: FileType, file_path: &String) -> (r: Result<
        (),
        PersistenceError,
    >)
        requires
            wf_entries(old(self)@),
        ensures
            final(self).app_config == old(self).app_config,
            wf_entries(final(self)@),
            match r {
                Ok(_) => exists|i: int|
                    0 <= i < old(self)@.len() && (#[trigger] old(self)@[i].file_name) == file_path@
                        && old(self)@[i].location == Location::Pending && final(self)@ == old(
                        self,
                    )@.update(
                        i,
                        QueueEntryView {
                            file_name: file_path@,
                            location: loc_of(status),
                            record: old(self)@[i].record,
                        },
                    ),
                Err(e) => e == PersistenceError::MissingEntry && !has_pending(
                    old(self)@,
                    file_path@,
                ) && final(self)@ == old(self)@,
            },
    {
        match self.find_name(file_path) {
            None => {
                proof {
                    assert(final(self)@ =~= old(self)@);
                }
                Err(PersistenceError::MissingEntry)
            },
            Some(k) => {
                if !matches!(self.entries[k].location, Location::Pending) {
                    proof {
                        if has_pending(self@, file_path@) {
                            let w = choose|i: int|
                                0 <= i < self@.len() && (#[trigger] self@[i].file_name)
                                    == file_path@ && self@[i].location == Location::Pending;
                            lemma_at_most_one_representation(self@, w, k as int);
                        }
                    }
                    return Err(PersistenceError::MissingEntry);
                }
                let ghost pre = self@;
                let to = match status {
                    FileType::Okay => Location::Okay,
                    FileType::Error => Location::Error,
                };
                let e = self.entries.remove(k);
                self.entries.insert(
                    k,
                    QueueEntry { file_name: e.file_name, location: to, record: e.record },
                );
                proof {
                    assert(self@ =~= pre.update(
                        k as int,
                        QueueEntryView {
                            file_name: file_path@,
                            location: loc_of(status),
                            record: pre[k as int].record,
                        },
                    ));
                    assert forall|i: int, j: int|
                        0 <= i < self@.len() && 0 <= j < self@.len() && i != j implies (
                    #[trigger] self@[i].file_name) != (#[trigger] self@[j].file_name) by {
                        assert(self@[i].file_name == pre[i].file_name);
                        assert(self@[j].file_name == pre[j].file_name);
                    }
                }
                Ok(())
            },
        }
    }

    /// The record of the pending entry bearing this file name.
    pub fn load(&self, file_name: &String) -> (r: Option<&Message>)
        ensures
            match r {
                Some(m) => exists|i: int|
                    0 <= i < self@.len() && (#[trigger] self@[i].file_name) == file_name@
                        && self@[i].location == Location::Pending && self@[i].record == m@,
                None => !has_pending(self@, file_name@),
            },
    {
        let mut k: usize = 0;
        while k < self.entries.len()
            invariant
                k <= self.entries@.len(),
                self@.len() == self.entries@.len(),
                forall|t: int|
                    0 <= t < k ==> !((#[trigger] self@[t].file_name) == file_name@
                        && self@[t].location == Location::Pending),
            decreases self.entries@.len() - k,
        {
            if self.entries[k].file_name == *file_name && matches!(
                self.entries[k].location,
                Location::Pending,
            ) {
                proof {
                    assert(self@[k as int].file_name == file_name@ && self@[k as int].location
                        == Location::Pending && self@[k as int].record
                        == self.entries@[k as int].record@);
                }
                return Some(&self.entries[k].record);
            }
            k = k + 1;
        }
        None
    }

    /// Where a pending record is stored on disk.
    pub fn pending_path(&self, file_name: &String) -> (r: String)
        ensures
            r@ == spec_file_path(
                self.app_config.root_path@,
                self.app_config.work_dir_name@,
                dir_pending(),
                file_name@,
            ),
    {
        file_path(
            self.app_config.root_path.as_str(),
            self.app_config.work_dir_name.as_str(),
            "pending",
            file_name.as_str(),
        )
    }

    /// Where a successfully dispatched record ends up on disk.
    pub fn ok_path(&self, file_name: &String) -> (r: String)
        ensures
            r@ == spec_file_path(
                self.app_config.root_path@,
                self.app_config.work_dir_name@,
                dir_ok(),
                file_name@,
            ),
    {
        file_path(
            self.app_config.root_path.as_str(),
            self.app_config.work_dir_name.as_str(),
            "ok",
            file_name.as_str(),
        )
    }

    /// Where a failed record ends up on disk.
    pub fn error_path(&self, file_name: &String) -> (r: String)
        ensures
            r@ == spec_file_path(
                self.app_config.root_path@,
                self.app_config.work_dir_name@,
                dir_error(),
                file_name@,
            ),
    {
        file_path(
            self.app_config.root_path.as_str(),
            self.app_config.work_dir_name.as_str(),
            "error",
            file_name.as_str(),
        )
    }

    /// Where a fetched artifact is stored on disk.
    pub fn artifact_path(&self, file_name: &String) -> (r: String)
        ensures
            r@ == spec_file_path(
                self.app_config.root_path@,
                self.app_config.work_dir_name@,
                dir_artifacts(),
                file_name@,
            ),
    {
        file_path(
            self.app_config.root_path.as_str(),
            self.app_config.work_dir_name.as_str(),
            "pdfs",
            file_name.as_str(),
        )
    }
}

} // verus!
