use vstd::prelude::*;

use crate::ids::{Conv, ThreadId};

verus! {

/// Where a load-or-create of the conversation record stands.
#[derive(Debug, Clone, Copy, PartialEq, Eq, Structural)]
pub enum StorePhase {
    Deleting,
    Reading,
    Verifying,
    Creating,
    Saving,
    Finished,
}

/// What the caller is to do next for the conversation record.
#[derive(Debug, Clone, PartialEq, Eq)]
pub enum StoreAction {
    /// Remove the stored record, then report with `on_deleted`.
    DeleteRecord,
    /// Read and parse the stored record, then report with `on_read`; a
    /// missing or unparsable record is reported as `None`.
    ReadRecord,
    /// Ask the service whether this thread still exists, then report with
    /// `on_verified`; any failure of that call counts as "does not exist".
    VerifyThread(ThreadId),
    /// Create a thread on the service, then report its id with `on_created`.
    CreateThread,
    /// Write this record over the stored one, then report with `on_saved`.
    SaveRecord(Conv),
    /// The conversation to use.
    Done(Conv),
}

/// The thread a load-or-create ends with, from what the stored record
/// held (`None`: missing or corrupt), whether the service still knew it,
/// and the id the service would hand out for a new thread.
pub open spec fn stored_outcome(
    recreate: bool,
    record: Option<Seq<char>>,
    still_exists: bool,
    created: Seq<char>,
) -> Seq<char> {
    if recreate {
        created
    } else {
        match record {
            Some(id) => if still_exists {
                id
            } else {
                created
            },
            None => created,
        }
    }
}

/// Whether a load-or-create ends with a newly made thread.
pub open spec fn makes_new(recreate: bool, record: Option<Seq<char>>, still_exists: bool) -> bool {
    recreate || record is None || !still_exists
}

/// Loads the conversation record, or starts a new conversation when there
/// is no valid one. A record whose thread is gone on the service is
/// replaced, never reused.
pub struct ConvLoader {
    pub recreate: bool,
    pub phase: StorePhase,
    /// The record read back, while its thread is being verified; the new
    /// record, while it is being saved.
    pub pending: Option<Conv>,
    /// The thread the stored record named, once read.
    pub record: Ghost<Option<Seq<char>>>,
    /// Whether the service still knew that thread, once asked.
    pub still_exists: Ghost<bool>,
}

impl ConvLoader {
    /// What each phase owes to what was seen so far.
    pub open spec fn wf(&self) -> bool {
        match self.phase {
            StorePhase::Deleting => self.recreate,
            StorePhase::Reading => !self.recreate,
            StorePhase::Verifying => !self.recreate && (self.pending matches Some(c)
                && self.record@ == Some(c.thread_id.0@)),
            StorePhase::Creating => makes_new(self.recreate, self.record@, self.still_exists@),
            StorePhase::Saving => makes_new(self.recreate, self.record@, self.still_exists@)
                && self.pending is Some,
            StorePhase::Finished => true,
        }
    }

    /// Starts a load-or-create. On a recreate the stored record, if there is
    /// one, is removed and a new thread is made; else the record is read.
    pub fn new(recreate: bool, record_exists: bool) -> (r: (ConvLoader, StoreAction))
        ensures
            r.0.wf(),
            r.0.recreate == recreate,
            recreate && record_exists ==> r.1 is DeleteRecord && r.0.phase
                == StorePhase::Deleting,
            recreate && !record_exists ==> r.1 is CreateThread && r.0.phase
                == StorePhase::Creating,
            !recreate ==> r.1 is ReadRecord && r.0.phase == StorePhase::Reading,
            r.0.pending is None,
    {
        let phase = if recreate {
            if record_exists {
                StorePhase::Deleting
            } else {
                StorePhase::Creating
            }
        } else {
            StorePhase::Reading
        };
        let action = if recreate {
            if record_exists {
                StoreAction::DeleteRecord
            } else {
                StoreAction::CreateThread
            }
        } else {
            StoreAction::ReadRecord
        };
        (
            ConvLoader {
                recreate,
                phase,
                pending: None,
                record: Ghost(None),
                still_exists: Ghost(false),
            },
            action,
        )
    }

    /// The old record is removed: a new thread is made.
    pub fn on_deleted(&mut self) -> (r: StoreAction)
        requires
            old(self).wf(),
            old(self).phase == StorePhase::Deleting,
        ensures
            final(self).wf(),
            final(self).recreate == old(self).recreate,
            r is CreateThread,
            final(self).phase == StorePhase::Creating,
            final(self).pending is None,
    {
        self.phase = StorePhase::Creating;
        self.pending = None;
        StoreAction::CreateThread
    }

    /// The stored record as read: a parsed one is verified on the service,
    /// a missing or corrupt one leads to a new thread.
    pub fn on_read(&mut self, record: Option<Conv>) -> (r: StoreAction)
        requires
            old(self).wf(),
            old(self).phase == StorePhase::Reading,
        ensures
            final(self).wf(),
            final(self).recreate == old(self).recreate,
            match record {
                Some(c) => r == StoreAction::VerifyThread(c.thread_id) && final(self).phase
                    == StorePhase::Verifying && final(self).pending == Some(c),
                None => r is CreateThread && final(self).phase == StorePhase::Creating
                    && final(self).pending is None,
            },
    {
        match record {
            Some(c) => {
                let id = c.thread_id.duplicate();
                self.record = Ghost(Some(c.thread_id.0@));
                self.phase = StorePhase::Verifying;
                self.pending = Some(c);
                StoreAction::VerifyThread(id)
            },
            None => {
                self.record = Ghost(None);
                self.phase = StorePhase::Creating;
                self.pending = None;
                StoreAction::CreateThread
            },
        }
    }

    /// Whether the service still knows the stored thread: if so the record is
    /// used, else a new thread is made.
    pub fn on_verified(&mut self, still_exists: bool) -> (r: StoreAction)
        requires
            old(self).wf(),
            old(self).phase == StorePhase::Verifying,
        ensures
            final(self).wf(),
            final(self).recreate == old(self).recreate,
            still_exists ==> r == StoreAction::Done(old(self).pending->Some_0) && final(self).phase
                == StorePhase::Finished,
            still_exists ==> forall|created: Seq<char>|
                #[trigger] stored_outcome(old(self).recreate, old(self).record@, true, created)
                    == old(self).pending->Some_0.thread_id.0@,
            !still_exists ==> r is CreateThread && final(self).phase == StorePhase::Creating
                && final(self).pending is None,
    {
        self.still_exists = Ghost(still_exists);
        if still_exists {
            self.phase = StorePhase::Finished;
            StoreAction::Done(self.pending.take().unwrap())
        } else {
            self.phase = StorePhase::Creating;
            self.pending = None;
            StoreAction::CreateThread
        }
    }

    /// The service made a new thread: its record is written over the old one.
    pub fn on_created(&mut self, thread_id: ThreadId) -> (r: StoreAction)
        requires
            old(self).wf(),
            old(self).phase == StorePhase::Creating,
        ensures
            final(self).wf(),
            final(self).recreate == old(self).recreate,
            final(self).record == old(self).record,
            final(self).still_exists == old(self).still_exists,
            r == StoreAction::SaveRecord(Conv { thread_id }),
            final(self).phase == StorePhase::Saving,
            final(self).pending == Some(Conv { thread_id }),
    {
        let conv = Conv { thread_id };
        let saved = conv.duplicate();
        self.phase = StorePhase::Saving;
        self.pending = Some(conv);
        StoreAction::SaveRecord(saved)
    }

    /// The new record is stored: it is the conversation to use.
    pub fn on_saved(&mut self) -> (r: StoreAction)
        requires
            old(self).wf(),
            old(self).phase == StorePhase::Saving,
        ensures
            final(self).wf(),
            final(self).recreate == old(self).recreate,
            r == StoreAction::Done(old(self).pending->Some_0),
            final(self).phase == StorePhase::Finished,
            old(self).pending->Some_0.thread_id.0@ == stored_outcome(
                old(self).recreate,
                old(self).record@,
                old(self).still_exists@,
                old(self).pending->Some_0.thread_id.0@,
            ),
    {
        self.phase = StorePhase::Finished;
        StoreAction::Done(self.pending.take().unwrap())
    }
}

/// Loading again without recreating, while the record that a load-or-create
/// left behind is still valid on the service, yields that same thread.
pub proof fn lemma_reload_keeps_thread(
    recreate: bool,
    record: Option<Seq<char>>,
    still_exists: bool,
    created: Seq<char>,
    created_again: Seq<char>,
)
    ensures
        stored_outcome(
            false,
            Some(stored_outcome(recreate, record, still_exists, created)),
            true,
            created_again,
        ) == stored_outcome(recreate, record, still_exists, created),
{
}

/// A recreate, or a stored record that is missing or corrupt, yields the
/// thread the service newly made, so none of the earlier ones, for a service
/// that never hands out an id twice.
pub proof fn lemma_fresh_thread(
    recreate: bool,
    record: Option<Seq<char>>,
    still_exists: bool,
    created: Seq<char>,
    earlier: Set<Seq<char>>,
)
    requires
        recreate || record is None,
        !earlier.contains(created),
    ensures
        stored_outcome(recreate, record, still_exists, created) == created,
        !earlier.contains(stored_outcome(recreate, record, still_exists, created)),
{
}

} // verus!
